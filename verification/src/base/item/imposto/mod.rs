//! Taxes of a line item.

use vstd::prelude::*;
use crate::arvore::{acrescido, anexar_opcional, primeiro, ver_elementos, Elemento, ElementoV};
use crate::base::{Error, ErrorV};
use crate::campo::{
    folha_decimal_opcional, grupo_busca, grupo_ida_e_volta, lemma_primeiro_acrescido,
    ler_decimal_opcional, por_decimal_opcional, spec_decimal_opcional,
};
use crate::escalar::Decimal;
use crate::texto::lemma_aparado_idempotente;
use crate::xml::{arvore_de, escrever_xml, ler_xml, texto_xml};

mod cofins;
mod icms;
mod pis;

pub use cofins::{
    GrupoCofins, GrupoCofinsAliq, GrupoCofinsAliqV, GrupoCofinsNt, GrupoCofinsNtV,
    GrupoCofinsOutr, GrupoCofinsOutrV, GrupoCofinsV,
};
pub use icms::{
    GrupoIcms, GrupoIcms60, GrupoIcmsSn202, GrupoIcmsSn202V, GrupoIcmsV,
    ModalidadeBaseCalculoIcmsSt, OrigemMercadoria,
};
pub use pis::{
    GrupoPis, GrupoPisAliq, GrupoPisAliqV, GrupoPisNt, GrupoPisNtV, GrupoPisOutr, GrupoPisOutrV,
    GrupoPisV,
};

verus! {

/// The taxes of a line item: the section `imposto`. Each tax is one of the
/// groups of its family, or is absent.
#[derive(Debug, PartialEq, Eq, Clone)]
pub struct Imposto {
    /// Approximate total of the federal, state and municipal taxes. Tag
    /// `vTotTrib`.
    pub valor_aproximado: Option<Decimal>,
    /// The ICMS of the operation. Element `ICMS`.
    pub icms: Option<GrupoIcms>,
    /// The PIS. Element `PIS`.
    pub pis: Option<GrupoPis>,
    /// The COFINS. Element `COFINS`.
    pub cofins: Option<GrupoCofins>,
}

/// The mathematical value of an [`Imposto`].
pub ghost struct ImpostoV {
    pub valor_aproximado: Option<Decimal>,
    pub icms: Option<GrupoIcmsV>,
    pub pis: Option<GrupoPisV>,
    pub cofins: Option<GrupoCofinsV>,
}

impl View for Imposto {
    type V = ImpostoV;

    open spec fn view(&self) -> ImpostoV {
        ImpostoV {
            valor_aproximado: self.valor_aproximado,
            icms: match self.icms {
                Some(v) => Some(v@),
                None => None,
            },
            pis: match self.pis {
                Some(v) => Some(v@),
                None => None,
            },
            cofins: match self.cofins {
                Some(v) => Some(v@),
                None => None,
            },
        }
    }
}

impl ImpostoV {
    /// Whether the value is one that a document can hold: its texts are
    /// trimmed.
    pub open spec fn valido(self) -> bool {
        &&& (self.icms matches Some(v) ==> v.valido())
        &&& (self.pis matches Some(v) ==> v.valido())
        &&& (self.cofins matches Some(v) ==> v.valido())
    }

    /// `antes` followed by the fields of the value, in the order of the wire.
    #[verifier::opaque]
    pub open spec fn spec_campos(self, antes: Seq<ElementoV>) -> Seq<ElementoV> {
        let f = antes;
        let f = acrescido(f, folha_decimal_opcional("vTotTrib"@, self.valor_aproximado));
        let f = acrescido(f, GrupoIcmsV::spec_serialize_opcional(self.icms));
        let f = acrescido(f, GrupoPisV::spec_serialize_opcional(self.pis));
        let f = acrescido(f, GrupoCofinsV::spec_serialize_opcional(self.cofins));
        f
    }

    /// The element that encodes the value.
    pub open spec fn spec_serialize(self) -> ElementoV {
        ElementoV::grupo("imposto"@, self.spec_campos(Seq::empty()))
    }
}

impl Imposto {
    /// What decoding the fields among the children of `no` gives: the value,
    /// or the error of the first field, in the order of the wire, that has one.
    #[verifier::opaque]
    pub open spec fn spec_parse(no: ElementoV) -> Result<ImpostoV, ErrorV> {
        let valor_aproximado = spec_decimal_opcional(no, "vTotTrib"@);
        let icms = GrupoIcms::spec_parse_opcional_em(no, "ICMS"@);
        let pis = GrupoPis::spec_parse_opcional_em(no, "PIS"@);
        let cofins = GrupoCofins::spec_parse_opcional_em(no, "COFINS"@);
        if valor_aproximado is Err {
            Err(valor_aproximado->Err_0)
        } else if icms is Err {
            Err(icms->Err_0)
        } else if pis is Err {
            Err(pis->Err_0)
        } else if cofins is Err {
            Err(cofins->Err_0)
        } else {
            Ok(
                ImpostoV {
                    valor_aproximado: valor_aproximado->Ok_0,
                    icms: icms->Ok_0,
                    pis: pis->Ok_0,
                    cofins: cofins->Ok_0,
                },
            )
        }
    }

    /// What decoding the mandatory child of `no` named `tag` gives.
    pub open spec fn spec_parse_em(no: ElementoV, tag: Seq<char>) -> Result<ImpostoV, ErrorV> {
        match no.filho(tag) {
            None => Err(ErrorV::CampoAusente(tag)),
            Some(f) => Self::spec_parse(f),
        }
    }

    /// Decodes the value from the children of `no`.
    pub fn parse(no: &Elemento) -> (r: Result<Imposto, Error>)
        ensures
            r matches Ok(v) ==> Self::spec_parse(no@) == Ok::<ImpostoV, ErrorV>(v@),
            r matches Err(e) ==> Self::spec_parse(no@) == Err::<ImpostoV, ErrorV>(e@),
            r matches Ok(v) ==> v@.valido(),
    {
        proof {
            reveal(Imposto::spec_parse);
            Self::lemma_parse_valido(no@);
        }
        let valor_aproximado = ler_decimal_opcional(no, "vTotTrib")?;
        let icms = GrupoIcms::parse_opcional_em(no, "ICMS")?;
        let pis = GrupoPis::parse_opcional_em(no, "PIS")?;
        let cofins = GrupoCofins::parse_opcional_em(no, "COFINS")?;
        Ok(Imposto { valor_aproximado, icms, pis, cofins })
    }

    /// Decodes the value from the mandatory child of `no` named `tag`.
    pub fn parse_em(no: &Elemento, tag: &str) -> (r: Result<Imposto, Error>)
        ensures
            r matches Ok(v) ==> Self::spec_parse_em(no@, tag@) == Ok::<ImpostoV, ErrorV>(v@),
            r matches Err(e) ==> Self::spec_parse_em(no@, tag@) == Err::<ImpostoV, ErrorV>(e@),
            r matches Ok(v) ==> v@.valido(),
    {
        match no.filho(tag) {
            None => Err(Error::CampoAusente(tag.to_owned())),
            Some(f) => Self::parse(f),
        }
    }

    /// Appends the fields of the value to `filhos`, in the order of the wire.
    pub fn por_campos(&self, filhos: &mut Vec<Elemento>)
        ensures
            ver_elementos(final(filhos)@) == self@.spec_campos(ver_elementos(old(filhos)@)),
    {
        proof {
            reveal(ImpostoV::spec_campos);
        }
        por_decimal_opcional(filhos, "vTotTrib", self.valor_aproximado);
        anexar_opcional(filhos, GrupoIcms::serialize_opcional(&self.icms));
        anexar_opcional(filhos, GrupoPis::serialize_opcional(&self.pis));
        anexar_opcional(filhos, GrupoCofins::serialize_opcional(&self.cofins));
    }

    /// Encodes the value as an element.
    pub fn serialize(&self) -> (r: Elemento)
        ensures
            r@ == self@.spec_serialize(),
    {
        let mut filhos: Vec<Elemento> = Vec::new();
        self.por_campos(&mut filhos);
        Elemento::grupo("imposto", filhos)
    }

    /// Whether the value is one that a document can hold.
    pub fn eh_valido(&self) -> (b: bool)
        ensures
            b == self@.valido(),
    {
        GrupoIcms::eh_valido_opcional(&self.icms)
        && GrupoPis::eh_valido_opcional(&self.pis)
        && GrupoCofins::eh_valido_opcional(&self.cofins)
    }

    /// What is decoded is a value that a document can hold.
    pub proof fn lemma_parse_valido(no: ElementoV)
        ensures
            Self::spec_parse(no) matches Ok(v) ==> v.valido(),
    {
        broadcast use lemma_aparado_idempotente;

        reveal(Imposto::spec_parse);

        if no.filho("ICMS"@) is Some {
            GrupoIcms::lemma_parse_valido(no.filho("ICMS"@)->Some_0);
        }
        if no.filho("PIS"@) is Some {
            GrupoPis::lemma_parse_valido(no.filho("PIS"@)->Some_0);
        }
        if no.filho("COFINS"@) is Some {
            GrupoCofins::lemma_parse_valido(no.filho("COFINS"@)->Some_0);
        }
    }

    /// What reading the text `s` gives: what decoding its root element gives,
    /// where the text is a tree of elements.
    pub open spec fn spec_from_str(s: Seq<char>) -> Result<ImpostoV, ErrorV> {
        match arvore_de(s) {
            None => Err(ErrorV::Xml),
            Some(no) => Self::spec_parse(no),
        }
    }

    /// Reads the value from a text, whose root element is the section.
    pub fn from_str(s: &str) -> (r: Result<Imposto, Error>)
        ensures
            r matches Ok(v) ==> Self::spec_from_str(s@) == Ok::<ImpostoV, ErrorV>(v@),
            r matches Err(e) ==> Self::spec_from_str(s@) == Err::<ImpostoV, ErrorV>(e@),
            r matches Ok(v) ==> v@.valido(),
    {
        let no = ler_xml(s)?;
        Self::parse(&no)
    }

    /// Writes the value as text.
    pub fn to_string(&self) -> (r: String)
        ensures
            r@ == texto_xml(self@.spec_serialize()),
    {
        escrever_xml(&self.serialize())
    }

    /// What is found under each tag among the children of what was encoded: the
    /// leaf of the field of that tag.
    proof fn lemma_filhos(v: ImpostoV)
        ensures
            ({
                let no = v.spec_serialize();
                &&& no.filho("vTotTrib"@) == folha_decimal_opcional("vTotTrib"@, v.valor_aproximado)
                &&& no.filho("ICMS"@) == GrupoIcmsV::spec_serialize_opcional(v.icms)
                &&& no.filho("PIS"@) == GrupoPisV::spec_serialize_opcional(v.pis)
                &&& no.filho("COFINS"@) == GrupoCofinsV::spec_serialize_opcional(v.cofins)
            }),
    {
        broadcast use {grupo_busca, lemma_primeiro_acrescido};

        reveal(ImpostoV::spec_campos);
        reveal_strlit("vTotTrib");
        reveal_strlit("ICMS");
        reveal_strlit("PIS");
        reveal_strlit("COFINS");
        assert("vTotTrib"@.len() == 8 && "vTotTrib"@[0] == 'v' && "vTotTrib"@[1] == 'T'
            && "vTotTrib"@[2] == 'o' && "vTotTrib"@[3] == 't' && "vTotTrib"@[4] == 'T'
            && "vTotTrib"@[5] == 'r' && "vTotTrib"@[6] == 'i');
        assert("ICMS"@.len() == 4 && "ICMS"@[0] == 'I' && "ICMS"@[1] == 'C' && "ICMS"@[2] == 'M'
            && "ICMS"@[3] == 'S');
        assert("PIS"@.len() == 3 && "PIS"@[0] == 'P' && "PIS"@[1] == 'I' && "PIS"@[2] == 'S');
        assert("COFINS"@.len() == 6 && "COFINS"@[0] == 'C' && "COFINS"@[1] == 'O'
            && "COFINS"@[2] == 'F' && "COFINS"@[3] == 'I' && "COFINS"@[4] == 'N'
            && "COFINS"@[5] == 'S');
        let f1 = {
            let f = Seq::<ElementoV>::empty();
            let f = acrescido(f, folha_decimal_opcional("vTotTrib"@, v.valor_aproximado));
            let f = acrescido(f, GrupoIcmsV::spec_serialize_opcional(v.icms));
            let f = acrescido(f, GrupoPisV::spec_serialize_opcional(v.pis));
            let f = acrescido(f, GrupoCofinsV::spec_serialize_opcional(v.cofins));
            f
        };
        assert(v.spec_serialize().filhos == f1);
        assert(primeiro(f1, "vTotTrib"@)
            == folha_decimal_opcional("vTotTrib"@, v.valor_aproximado));
        assert(primeiro(f1, "ICMS"@) == GrupoIcmsV::spec_serialize_opcional(v.icms));
        assert(primeiro(f1, "PIS"@) == GrupoPisV::spec_serialize_opcional(v.pis));
        assert(primeiro(f1, "COFINS"@) == GrupoCofinsV::spec_serialize_opcional(v.cofins));
    }

    /// Decoding what was encoded gives the value back.
    pub proof fn lemma_ida_e_volta(v: ImpostoV)
        requires
            v.valido(),
        ensures
            Self::spec_parse(v.spec_serialize()) == Ok::<ImpostoV, ErrorV>(v),
    {
        broadcast use grupo_ida_e_volta;

        reveal(Imposto::spec_parse);
        Self::lemma_filhos(v);
        if v.icms is Some {
            GrupoIcms::lemma_ida_e_volta(v.icms->Some_0);
        }
        if v.pis is Some {
            GrupoPis::lemma_ida_e_volta(v.pis->Some_0);
        }
        if v.cofins is Some {
            GrupoCofins::lemma_ida_e_volta(v.cofins->Some_0);
        }
        let no = v.spec_serialize();
        assert(spec_decimal_opcional(no, "vTotTrib"@)
            == Ok::<Option<Decimal>, ErrorV>(v.valor_aproximado));
        assert(GrupoIcms::spec_parse_opcional_em(no, "ICMS"@)
            == Ok::<Option<GrupoIcmsV>, ErrorV>(v.icms));
        assert(GrupoPis::spec_parse_opcional_em(no, "PIS"@)
            == Ok::<Option<GrupoPisV>, ErrorV>(v.pis));
        assert(GrupoCofins::spec_parse_opcional_em(no, "COFINS"@)
            == Ok::<Option<GrupoCofinsV>, ErrorV>(v.cofins));
    }
}

} // verus!
