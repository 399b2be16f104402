//! Recipient of the document.

use vstd::prelude::*;
use crate::arvore::{
    acrescido, anexar_opcional, primeiro, ver_elementos, ver_opcional, Elemento, ElementoV,
};
use crate::base::{Error, ErrorV};
use crate::base::endereco::{Endereco, EnderecoV};
use crate::campo::{
    folha_codigo, folha_opcional, grupo_busca, grupo_ida_e_volta, lemma_primeiro_acrescido,
    ler_codigo, ler_texto, ler_texto_opcional, por_codigo, por_texto, por_texto_opcional,
    spec_codigo, spec_texto, spec_texto_opcional, texto_opcional_valido, texto_valido,
};
use crate::codigo::Codigo;
use crate::texto::{aparado, lemma_aparado_idempotente};
use crate::xml::{arvore_de, escrever_xml, ler_xml, texto_xml};

verus! {

/// The recipient as the wire format has it, where the name and the address
/// may be missing: the section `dest`.
#[derive(Debug, PartialEq, Eq, Clone)]
pub struct Destinatario {
    /// Identifier of the legal entity. Tag `CNPJ`.
    pub cnpj: String,
    /// Name. Tag `xNome`.
    pub razao_social: Option<String>,
    /// Address. Element `enderDest`.
    pub endereco: Option<Endereco>,
    /// State registration. Tag `IE`.
    pub ie: Option<String>,
    /// Whether the recipient pays ICMS. Tag `indIEDest`.
    pub indicador_ie: IndicadorContribuicaoIe,
}

/// The mathematical value of a [`Destinatario`].
pub ghost struct DestinatarioV {
    pub cnpj: Seq<char>,
    pub razao_social: Option<Seq<char>>,
    pub endereco: Option<EnderecoV>,
    pub ie: Option<Seq<char>>,
    pub indicador_ie: IndicadorContribuicaoIe,
}

impl View for Destinatario {
    type V = DestinatarioV;

    open spec fn view(&self) -> DestinatarioV {
        DestinatarioV {
            cnpj: self.cnpj@,
            razao_social: self.razao_social.deep_view(),
            endereco: match self.endereco {
                Some(v) => Some(v@),
                None => None,
            },
            ie: self.ie.deep_view(),
            indicador_ie: self.indicador_ie,
        }
    }
}

/// Whether the recipient pays ICMS.
#[derive(Debug, Eq, PartialEq, Copy, Clone, Structural)]
pub enum IndicadorContribuicaoIe {
    /// Pays ICMS. Code 1.
    Contribuinte,
    /// Exempt from registration. Code 2.
    Isento,
    /// Does not pay ICMS, registered or not. Code 9.
    NaoContribuinte,
}

impl Codigo for IndicadorContribuicaoIe {
    open spec fn codigo_spec(self) -> u8 {
        match self {
            IndicadorContribuicaoIe::Contribuinte => 1,
            IndicadorContribuicaoIe::Isento => 2,
            IndicadorContribuicaoIe::NaoContribuinte => 9,
        }
    }

    open spec fn de_codigo_spec(codigo: u8) -> Option<Self> {
        match codigo {
            1 => Some(IndicadorContribuicaoIe::Contribuinte),
            2 => Some(IndicadorContribuicaoIe::Isento),
            9 => Some(IndicadorContribuicaoIe::NaoContribuinte),
            _ => None,
        }
    }

    fn codigo(&self) -> (c: u8) {
        match self {
            IndicadorContribuicaoIe::Contribuinte => 1,
            IndicadorContribuicaoIe::Isento => 2,
            IndicadorContribuicaoIe::NaoContribuinte => 9,
        }
    }

    fn de_codigo(codigo: u8) -> (v: Option<Self>) {
        match codigo {
            1 => Some(IndicadorContribuicaoIe::Contribuinte),
            2 => Some(IndicadorContribuicaoIe::Isento),
            9 => Some(IndicadorContribuicaoIe::NaoContribuinte),
            _ => None,
        }
    }

    proof fn lemma_codigo_ida_e_volta(v: Self) {
    }

    proof fn lemma_codigo_unico(codigo: u8) {
    }
}

impl DestinatarioV {
    /// Whether the value is one that a document can hold: its texts are
    /// trimmed.
    pub open spec fn valido(self) -> bool {
        &&& aparado(self.cnpj) == self.cnpj
        &&& (self.razao_social matches Some(t) ==> aparado(t) == t)
        &&& (self.endereco matches Some(v) ==> v.valido())
        &&& (self.ie matches Some(t) ==> aparado(t) == t)
    }

    /// `antes` followed by the fields of the value, in the order of the wire.
    #[verifier::opaque]
    pub open spec fn spec_campos(self, antes: Seq<ElementoV>) -> Seq<ElementoV> {
        let f = antes;
        let f = f.push(ElementoV::folha("CNPJ"@, self.cnpj));
        let f = acrescido(f, folha_opcional("xNome"@, self.razao_social));
        let f = acrescido(f, EnderecoV::spec_serialize_opcional(self.endereco, "enderDest"@));
        let f = acrescido(f, folha_opcional("IE"@, self.ie));
        let f = f.push(folha_codigo("indIEDest"@, self.indicador_ie));
        f
    }

    /// The element that encodes the value.
    pub open spec fn spec_serialize(self) -> ElementoV {
        ElementoV::grupo("dest"@, self.spec_campos(Seq::empty()))
    }
}

impl Destinatario {
    /// What decoding the fields among the children of `no` gives: the value,
    /// or the error of the first field, in the order of the wire, that has one.
    #[verifier::opaque]
    pub open spec fn spec_parse(no: ElementoV) -> Result<DestinatarioV, ErrorV> {
        let cnpj = spec_texto(no, "CNPJ"@);
        let razao_social = spec_texto_opcional(no, "xNome"@);
        let endereco = Endereco::spec_parse_opcional_em(no, "enderDest"@);
        let ie = spec_texto_opcional(no, "IE"@);
        let indicador_ie = spec_codigo::<IndicadorContribuicaoIe>(no, "indIEDest"@);
        if cnpj is Err {
            Err(cnpj->Err_0)
        } else if endereco is Err {
            Err(endereco->Err_0)
        } else if indicador_ie is Err {
            Err(indicador_ie->Err_0)
        } else {
            Ok(
                DestinatarioV {
                    cnpj: cnpj->Ok_0,
                    razao_social,
                    endereco: endereco->Ok_0,
                    ie,
                    indicador_ie: indicador_ie->Ok_0,
                },
            )
        }
    }

    /// What decoding the mandatory child of `no` named `tag` gives.
    pub open spec fn spec_parse_em(no: ElementoV, tag: Seq<char>) -> Result<DestinatarioV, ErrorV> {
        match no.filho(tag) {
            None => Err(ErrorV::CampoAusente(tag)),
            Some(f) => Self::spec_parse(f),
        }
    }

    /// Decodes the value from the children of `no`.
    pub fn parse(no: &Elemento) -> (r: Result<Destinatario, Error>)
        ensures
            r matches Ok(v) ==> Self::spec_parse(no@) == Ok::<DestinatarioV, ErrorV>(v@),
            r matches Err(e) ==> Self::spec_parse(no@) == Err::<DestinatarioV, ErrorV>(e@),
            r matches Ok(v) ==> v@.valido(),
    {
        proof {
            reveal(Destinatario::spec_parse);
            Self::lemma_parse_valido(no@);
        }
        let cnpj = ler_texto(no, "CNPJ")?;
        let razao_social = ler_texto_opcional(no, "xNome");
        let endereco = Endereco::parse_opcional_em(no, "enderDest")?;
        let ie = ler_texto_opcional(no, "IE");
        let indicador_ie = ler_codigo::<IndicadorContribuicaoIe>(no, "indIEDest")?;
        Ok(Destinatario { cnpj, razao_social, endereco, ie, indicador_ie })
    }

    /// Decodes the value from the mandatory child of `no` named `tag`.
    pub fn parse_em(no: &Elemento, tag: &str) -> (r: Result<Destinatario, Error>)
        ensures
            r matches Ok(v) ==> Self::spec_parse_em(no@, tag@) == Ok::<DestinatarioV, ErrorV>(v@),
            r matches Err(e) ==> Self::spec_parse_em(no@, tag@) == Err::<DestinatarioV, ErrorV>(e@),
            r matches Ok(v) ==> v@.valido(),
    {
        match no.filho(tag) {
            None => Err(Error::CampoAusente(tag.to_owned())),
            Some(f) => Self::parse(f),
        }
    }

    /// Appends the fields of the value to `filhos`, in the order of the wire.
    pub fn por_campos(&self, filhos: &mut Vec<Elemento>)
        ensures
            ver_elementos(final(filhos)@) == self@.spec_campos(ver_elementos(old(filhos)@)),
    {
        proof {
            reveal(DestinatarioV::spec_campos);
        }
        por_texto(filhos, "CNPJ", &self.cnpj);
        por_texto_opcional(filhos, "xNome", &self.razao_social);
        anexar_opcional(filhos, Endereco::serialize_opcional(&self.endereco, "enderDest"));
        por_texto_opcional(filhos, "IE", &self.ie);
        por_codigo(filhos, "indIEDest", &self.indicador_ie);
    }

    /// Encodes the value as an element.
    pub fn serialize(&self) -> (r: Elemento)
        ensures
            r@ == self@.spec_serialize(),
    {
        let mut filhos: Vec<Elemento> = Vec::new();
        self.por_campos(&mut filhos);
        Elemento::grupo("dest", filhos)
    }

    /// Whether the value is one that a document can hold.
    pub fn eh_valido(&self) -> (b: bool)
        ensures
            b == self@.valido(),
    {
        texto_valido(&self.cnpj)
        && texto_opcional_valido(&self.razao_social)
        && Endereco::eh_valido_opcional(&self.endereco)
        && texto_opcional_valido(&self.ie)
    }

    /// What is decoded is a value that a document can hold.
    pub proof fn lemma_parse_valido(no: ElementoV)
        ensures
            Self::spec_parse(no) matches Ok(v) ==> v.valido(),
    {
        broadcast use lemma_aparado_idempotente;

        reveal(Destinatario::spec_parse);

        if no.filho("enderDest"@) is Some {
            Endereco::lemma_parse_valido(no.filho("enderDest"@)->Some_0);
        }
    }

    /// What reading the text `s` gives: what decoding its root element gives,
    /// where the text is a tree of elements.
    pub open spec fn spec_from_str(s: Seq<char>) -> Result<DestinatarioV, ErrorV> {
        match arvore_de(s) {
            None => Err(ErrorV::Xml),
            Some(no) => Self::spec_parse(no),
        }
    }

    /// Reads the value from a text, whose root element is the section.
    pub fn from_str(s: &str) -> (r: Result<Destinatario, Error>)
        ensures
            r matches Ok(v) ==> Self::spec_from_str(s@) == Ok::<DestinatarioV, ErrorV>(v@),
            r matches Err(e) ==> Self::spec_from_str(s@) == Err::<DestinatarioV, ErrorV>(e@),
            r matches Ok(v) ==> v@.valido(),
    {
        let no = ler_xml(s)?;
        Self::parse(&no)
    }

    /// Writes the value as text.
    pub fn to_string(&self) -> (r: String)
        ensures
            r@ == texto_xml(self@.spec_serialize()),
    {
        escrever_xml(&self.serialize())
    }
}

impl DestinatarioV {
    /// The element that encodes the value, where there is one.
    pub open spec fn spec_serialize_opcional(v: Option<DestinatarioV>) -> Option<ElementoV> {
        match v {
            Some(v) => Some(v.spec_serialize()),
            None => None,
        }
    }
}

impl Destinatario {
    /// What decoding the optional child of `no` named `tag` gives.
    pub open spec fn spec_parse_opcional_em(no: ElementoV, tag: Seq<char>) -> Result<
        Option<DestinatarioV>,
        ErrorV,
    > {
        match no.filho(tag) {
            None => Ok(None),
            Some(f) => match Self::spec_parse(f) {
                Err(e) => Err(e),
                Ok(v) => Ok(Some(v)),
            },
        }
    }

    /// Decodes the value from the optional child of `no` named `tag`.
    pub fn parse_opcional_em(no: &Elemento, tag: &str) -> (r: Result<Option<Destinatario>, Error>)
        ensures
            r matches Ok(Some(v)) ==> Self::spec_parse_opcional_em(no@, tag@) == Ok::<
                Option<DestinatarioV>,
                ErrorV,
            >(Some(v@)),
            r matches Ok(None) ==> Self::spec_parse_opcional_em(no@, tag@) == Ok::<
                Option<DestinatarioV>,
                ErrorV,
            >(None),
            r matches Err(e) ==> Self::spec_parse_opcional_em(no@, tag@) == Err::<
                Option<DestinatarioV>,
                ErrorV,
            >(e@),
            r matches Ok(Some(v)) ==> v@.valido(),
    {
        match no.filho(tag) {
            None => Ok(None),
            Some(f) => {
                let v = Self::parse(f)?;
                Ok(Some(v))
            },
        }
    }

    /// Whether the value, where there is one, is one that a document can
    /// hold.
    pub fn eh_valido_opcional(v: &Option<Destinatario>) -> (b: bool)
        ensures
            b == (v matches Some(v) ==> v@.valido()),
    {
        match v {
            Some(v) => v.eh_valido(),
            None => true,
        }
    }

    /// Encodes the value as an element, where there is one.
    pub fn serialize_opcional(v: &Option<Destinatario>) -> (r: Option<Elemento>)
        ensures
            ver_opcional(r) == DestinatarioV::spec_serialize_opcional(
                match v {
                    Some(v) => Some(v@),
                    None => None,
                },
            ),
    {
        match v {
            Some(v) => Some(v.serialize()),
            None => None,
        }
    }

    /// What is found under each tag among the children of what was encoded: the
    /// leaf of the field of that tag.
    proof fn lemma_filhos(v: DestinatarioV)
        ensures
            ({
                let no = v.spec_serialize();
                &&& no.filho("CNPJ"@) == Some(ElementoV::folha("CNPJ"@, v.cnpj))
                &&& no.filho("xNome"@) == folha_opcional("xNome"@, v.razao_social)
                &&& no.filho("enderDest"@)
                    == EnderecoV::spec_serialize_opcional(v.endereco, "enderDest"@)
                &&& no.filho("IE"@) == folha_opcional("IE"@, v.ie)
                &&& no.filho("indIEDest"@) == Some(folha_codigo("indIEDest"@, v.indicador_ie))
            }),
    {
        broadcast use {grupo_busca, lemma_primeiro_acrescido};

        reveal(DestinatarioV::spec_campos);
        reveal_strlit("CNPJ");
        reveal_strlit("xNome");
        reveal_strlit("enderDest");
        reveal_strlit("IE");
        reveal_strlit("indIEDest");
        assert("CNPJ"@.len() == 4 && "CNPJ"@[0] == 'C' && "CNPJ"@[1] == 'N' && "CNPJ"@[2] == 'P'
            && "CNPJ"@[3] == 'J');
        assert("xNome"@.len() == 5 && "xNome"@[0] == 'x' && "xNome"@[1] == 'N'
            && "xNome"@[2] == 'o' && "xNome"@[3] == 'm' && "xNome"@[4] == 'e');
        assert("enderDest"@.len() == 9 && "enderDest"@[0] == 'e' && "enderDest"@[1] == 'n'
            && "enderDest"@[2] == 'd' && "enderDest"@[3] == 'e' && "enderDest"@[4] == 'r'
            && "enderDest"@[5] == 'D' && "enderDest"@[6] == 'e');
        assert("IE"@.len() == 2 && "IE"@[0] == 'I' && "IE"@[1] == 'E');
        assert("indIEDest"@.len() == 9 && "indIEDest"@[0] == 'i' && "indIEDest"@[1] == 'n'
            && "indIEDest"@[2] == 'd' && "indIEDest"@[3] == 'I' && "indIEDest"@[4] == 'E'
            && "indIEDest"@[5] == 'D' && "indIEDest"@[6] == 'e');
        let f1 = {
            let f = Seq::<ElementoV>::empty();
            let f = f.push(ElementoV::folha("CNPJ"@, v.cnpj));
            let f = acrescido(f, folha_opcional("xNome"@, v.razao_social));
            let f = acrescido(f, EnderecoV::spec_serialize_opcional(v.endereco, "enderDest"@));
            let f = acrescido(f, folha_opcional("IE"@, v.ie));
            let f = f.push(folha_codigo("indIEDest"@, v.indicador_ie));
            f
        };
        assert(v.spec_serialize().filhos == f1);
        assert(primeiro(f1, "CNPJ"@) == Some(ElementoV::folha("CNPJ"@, v.cnpj)));
        assert(primeiro(f1, "xNome"@) == folha_opcional("xNome"@, v.razao_social));
        assert(primeiro(f1, "enderDest"@)
            == EnderecoV::spec_serialize_opcional(v.endereco, "enderDest"@));
        assert(primeiro(f1, "IE"@) == folha_opcional("IE"@, v.ie));
        assert(primeiro(f1, "indIEDest"@) == Some(folha_codigo("indIEDest"@, v.indicador_ie)));
    }

    /// Decoding what was encoded gives the value back.
    pub proof fn lemma_ida_e_volta(v: DestinatarioV)
        requires
            v.valido(),
        ensures
            Self::spec_parse(v.spec_serialize()) == Ok::<DestinatarioV, ErrorV>(v),
    {
        broadcast use grupo_ida_e_volta;

        reveal(Destinatario::spec_parse);
        Self::lemma_filhos(v);
        if v.endereco is Some {
            Endereco::lemma_ida_e_volta(v.endereco->Some_0, "enderDest"@);
        }
        let no = v.spec_serialize();
        assert(spec_texto(no, "CNPJ"@) == Ok::<Seq<char>, ErrorV>(v.cnpj));
        assert(spec_texto_opcional(no, "xNome"@) == v.razao_social);
        assert(Endereco::spec_parse_opcional_em(no, "enderDest"@)
            == Ok::<Option<EnderecoV>, ErrorV>(v.endereco));
        assert(spec_texto_opcional(no, "IE"@) == v.ie);
        assert(spec_codigo::<IndicadorContribuicaoIe>(no, "indIEDest"@)
            == Ok::<IndicadorContribuicaoIe, ErrorV>(v.indicador_ie));
    }
}

} // verus!
