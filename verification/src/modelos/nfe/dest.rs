//! Recipient of a NF-e.

use vstd::prelude::*;
use crate::arvore::{anexar, Elemento};
use crate::base::dest::{Destinatario as DestinatarioBase, DestinatarioV as DestinatarioBaseV};
use crate::base::endereco::{Endereco, EnderecoV};
use crate::campo::{por_codigo, por_texto, por_texto_opcional, texto_opcional_valido, texto_valido};
use crate::modelos::nfe::{Error, ErrorV};
use crate::xml::{escrever_xml, texto_xml};

pub use crate::base::dest::IndicadorContribuicaoIe;

verus! {

/// The recipient of a NF-e: that of the base, with the name and the address
/// that this model cannot do without.
#[derive(Debug, PartialEq, Eq, Clone)]
pub struct Destinatario {
    /// Identifier of the legal entity.
    pub cnpj: String,
    /// Name.
    pub razao_social: String,
    /// Address.
    pub endereco: Endereco,
    /// State registration.
    pub ie: Option<String>,
    /// Whether the recipient pays ICMS.
    pub indicador_ie: IndicadorContribuicaoIe,
}

/// The mathematical value of a [`Destinatario`].
pub ghost struct DestinatarioV {
    pub cnpj: Seq<char>,
    pub razao_social: Seq<char>,
    pub endereco: EnderecoV,
    pub ie: Option<Seq<char>>,
    pub indicador_ie: IndicadorContribuicaoIe,
}

impl View for Destinatario {
    type V = DestinatarioV;

    open spec fn view(&self) -> DestinatarioV {
        DestinatarioV {
            cnpj: self.cnpj@,
            razao_social: self.razao_social@,
            endereco: self.endereco@,
            ie: self.ie.deep_view(),
            indicador_ie: self.indicador_ie,
        }
    }
}

impl DestinatarioV {
    /// The recipient of the base that holds the same.
    pub open spec fn spec_into_base(self) -> DestinatarioBaseV {
        DestinatarioBaseV {
            cnpj: self.cnpj,
            razao_social: Some(self.razao_social),
            endereco: Some(self.endereco),
            ie: self.ie,
            indicador_ie: self.indicador_ie,
        }
    }
}

impl Destinatario {
    /// What a recipient of the base gives as that of a NF-e: an error where
    /// the name is missing, else where the address is.
    pub open spec fn spec_try_from(dest: DestinatarioBaseV) -> Result<DestinatarioV, ErrorV> {
        if dest.razao_social is None {
            Err(ErrorV::DestinatarioInvalido("Razão social/Nome não informado"@))
        } else if dest.endereco is None {
            Err(ErrorV::DestinatarioInvalido("Endereço não informado"@))
        } else {
            Ok(
                DestinatarioV {
                    cnpj: dest.cnpj,
                    razao_social: dest.razao_social->Some_0,
                    endereco: dest.endereco->Some_0,
                    ie: dest.ie,
                    indicador_ie: dest.indicador_ie,
                },
            )
        }
    }

    /// Takes a recipient of the base as that of a NF-e.
    pub fn try_from(dest: DestinatarioBase) -> (r: Result<Destinatario, Error>)
        ensures
            r matches Ok(v) ==> Self::spec_try_from(dest@) == Ok::<DestinatarioV, ErrorV>(v@),
            r matches Err(e) ==> Self::spec_try_from(dest@) == Err::<DestinatarioV, ErrorV>(e@),
    {
        let razao_social = match dest.razao_social {
            Some(nome) => nome,
            None => {
                return Err(
                    Error::DestinatarioInvalido("Razão social/Nome não informado".to_owned()),
                );
            },
        };
        let endereco = match dest.endereco {
            Some(endereco) => endereco,
            None => {
                return Err(Error::DestinatarioInvalido("Endereço não informado".to_owned()));
            },
        };
        Ok(
            Destinatario {
                cnpj: dest.cnpj,
                razao_social,
                endereco,
                ie: dest.ie,
                indicador_ie: dest.indicador_ie,
            },
        )
    }

    /// Whether the recipient is one that a document can hold.
    pub fn eh_valido(&self) -> (b: bool)
        ensures
            b == self@.spec_into_base().valido(),
    {
        texto_valido(&self.cnpj) && texto_valido(&self.razao_social) && self.endereco.eh_valido()
            && texto_opcional_valido(&self.ie)
    }

    /// The recipient of the base that holds the same.
    pub fn into_base(self) -> (r: DestinatarioBase)
        ensures
            r@ == self@.spec_into_base(),
    {
        DestinatarioBase {
            cnpj: self.cnpj,
            razao_social: Some(self.razao_social),
            endereco: Some(self.endereco),
            ie: self.ie,
            indicador_ie: self.indicador_ie,
        }
    }

    /// What reading the text `s` gives: the recipient of the base that it
    /// holds, taken as that of a NF-e.
    pub open spec fn spec_from_str(s: Seq<char>) -> Result<DestinatarioV, ErrorV> {
        match DestinatarioBase::spec_from_str(s) {
            Err(e) => Err(ErrorV::Base(e)),
            Ok(base) => Self::spec_try_from(base),
        }
    }

    /// Reads the recipient from a text, whose root element is the section.
    pub fn from_str(s: &str) -> (r: Result<Destinatario, Error>)
        ensures
            r matches Ok(v) ==> Self::spec_from_str(s@) == Ok::<DestinatarioV, ErrorV>(v@),
            r matches Err(e) ==> Self::spec_from_str(s@) == Err::<DestinatarioV, ErrorV>(e@),
    {
        match DestinatarioBase::from_str(s) {
            Err(e) => Err(Error::Base(e)),
            Ok(base) => Self::try_from(base),
        }
    }

    /// Encodes the recipient as the element `dest`, as the base does.
    pub fn serialize(&self) -> (r: Elemento)
        ensures
            r@ == self@.spec_into_base().spec_serialize(),
    {
        proof {
            reveal(DestinatarioBaseV::spec_campos);
        }
        let mut filhos: Vec<Elemento> = Vec::new();
        por_texto(&mut filhos, "CNPJ", &self.cnpj);
        por_texto(&mut filhos, "xNome", &self.razao_social);
        anexar(&mut filhos, self.endereco.serialize("enderDest"));
        por_texto_opcional(&mut filhos, "IE", &self.ie);
        por_codigo(&mut filhos, "indIEDest", &self.indicador_ie);
        Elemento::grupo("dest", filhos)
    }

    /// Writes the recipient as text.
    pub fn to_string(&self) -> (r: String)
        ensures
            r@ == texto_xml(self@.spec_into_base().spec_serialize()),
    {
        escrever_xml(&self.serialize())
    }

    /// A recipient written as that of the base and taken back is the same.
    pub proof fn lemma_ida_e_volta(v: DestinatarioV)
        ensures
            Self::spec_try_from(v.spec_into_base()) == Ok::<DestinatarioV, ErrorV>(v),
    {
    }
}

} // verus!
