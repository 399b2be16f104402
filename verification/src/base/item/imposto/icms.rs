//! The groups of ICMS.

use vstd::prelude::*;
use crate::arvore::{
    anexar, lemma_primeiro_push, lemma_primeiro_vazio, primeiro, ver_elementos, ver_opcional,
    Elemento, ElementoV,
};
use crate::base::{Error, ErrorV};
use crate::campo::{
    folha_codigo, folha_decimal, grupo_busca, grupo_ida_e_volta, ler_codigo, ler_decimal,
    ler_texto, por_codigo, por_decimal, por_texto, spec_codigo, spec_decimal, spec_texto,
    texto_valido,
};
use crate::codigo::Codigo;
use crate::escalar::Decimal;
use crate::texto::{aparado, lemma_aparado_idempotente};
use crate::variante::{lemma_precedencia, lemma_variante_unica, nomes, primeira_presente, resolver};

verus! {

/// The ICMS of a line item: one of the groups that the wire format offers,
/// each an element of its own inside `ICMS`.
#[derive(Debug, PartialEq, Eq, Clone)]
pub enum GrupoIcms {
    /// ICMS of the Simples Nacional, CSOSN 202 or 203. Element `ICMSSN202`.
    IcmsSn202(GrupoIcmsSn202),
    /// ICMS charged before, by tax substitution. Element `ICMS60`.
    Icms60(GrupoIcms60),
}

/// The mathematical value of a [`GrupoIcms`].
pub ghost enum GrupoIcmsV {
    IcmsSn202(GrupoIcmsSn202V),
    Icms60(GrupoIcms60),
}

impl View for GrupoIcms {
    type V = GrupoIcmsV;

    open spec fn view(&self) -> GrupoIcmsV {
        match self {
            GrupoIcms::IcmsSn202(g) => GrupoIcmsV::IcmsSn202(g@),
            GrupoIcms::Icms60(g) => GrupoIcmsV::Icms60(*g),
        }
    }
}

impl GrupoIcmsV {
    /// Whether the value is one that a document can hold: its texts are
    /// trimmed.
    pub open spec fn valido(self) -> bool {
        match self {
            GrupoIcmsV::IcmsSn202(g) => g.valido(),
            GrupoIcmsV::Icms60(g) => true,
        }
    }

    /// The element `ICMS` that encodes the value: it holds the element of the
    /// variant and nothing else.
    pub open spec fn spec_serialize(self) -> ElementoV {
        let f = Seq::<ElementoV>::empty();
        let f = f.push(
            match self {
                GrupoIcmsV::IcmsSn202(g) => g.spec_serialize(),
                GrupoIcmsV::Icms60(g) => g.spec_serialize(),
            },
        );
        ElementoV::grupo("ICMS"@, f)
    }

    /// The element that encodes the value, where there is one.
    pub open spec fn spec_serialize_opcional(v: Option<GrupoIcmsV>) -> Option<ElementoV> {
        match v {
            Some(v) => Some(v.spec_serialize()),
            None => None,
        }
    }
}

impl GrupoIcms {
    /// The names of the elements of the variants, in the order in which they
    /// are looked for.
    pub open spec fn candidatos() -> Seq<Seq<char>> {
        seq!["ICMSSN202"@, "ICMS60"@]
    }

    /// What decoding the element `ICMS` gives: the first variant, in the order of
    /// the candidates, whose element is among the children of `no`, decoded; or
    /// nothing where none is there.
    #[verifier::opaque]
    pub open spec fn spec_parse(no: ElementoV) -> Result<Option<GrupoIcmsV>, ErrorV> {
        match primeira_presente(no, Self::candidatos()) {
            None => Ok(None),
            Some(i) => if i == 0 {
                match GrupoIcmsSn202::spec_parse_em(no, "ICMSSN202"@) {
                    Err(e) => Err(e),
                    Ok(g) => Ok(Some(GrupoIcmsV::IcmsSn202(g))),
                }
            } else {
                match GrupoIcms60::spec_parse_em(no, "ICMS60"@) {
                    Err(e) => Err(e),
                    Ok(g) => Ok(Some(GrupoIcmsV::Icms60(g))),
                }
            },
        }
    }

    /// What decoding the optional child of `no` named `tag` gives.
    pub open spec fn spec_parse_opcional_em(no: ElementoV, tag: Seq<char>) -> Result<
        Option<GrupoIcmsV>,
        ErrorV,
    > {
        match no.filho(tag) {
            None => Ok(None),
            Some(f) => Self::spec_parse(f),
        }
    }

    /// Decodes the value from the element `ICMS`.
    pub fn parse(no: &Elemento) -> (r: Result<Option<GrupoIcms>, Error>)
        ensures
            r matches Ok(Some(v)) ==> Self::spec_parse(no@)
                == Ok::<Option<GrupoIcmsV>, ErrorV>(Some(v@)),
            r matches Ok(None) ==> Self::spec_parse(no@) == Ok::<Option<GrupoIcmsV>, ErrorV>(None),
            r matches Err(e) ==> Self::spec_parse(no@) == Err::<Option<GrupoIcmsV>, ErrorV>(e@),
            r matches Ok(Some(v)) ==> v@.valido(),
    {
        proof {
            reveal(GrupoIcms::spec_parse);
            Self::lemma_parse_valido(no@);
        }
        let candidatos = ["ICMSSN202", "ICMS60"];
        assert(nomes(candidatos@) =~= Self::candidatos());
        match resolver(no, candidatos.as_slice()) {
            None => Ok(None),
            Some((i, e)) => if i == 0 {
                let g = GrupoIcmsSn202::parse(e)?;
                Ok(Some(GrupoIcms::IcmsSn202(g)))
            } else {
                let g = GrupoIcms60::parse(e)?;
                Ok(Some(GrupoIcms::Icms60(g)))
            },
        }
    }

    /// Decodes the value from the optional child of `no` named `tag`.
    pub fn parse_opcional_em(no: &Elemento, tag: &str) -> (r: Result<Option<GrupoIcms>, Error>)
        ensures
            r matches Ok(Some(v)) ==> Self::spec_parse_opcional_em(no@, tag@) == Ok::<
                Option<GrupoIcmsV>,
                ErrorV,
            >(Some(v@)),
            r matches Ok(None) ==> Self::spec_parse_opcional_em(no@, tag@) == Ok::<
                Option<GrupoIcmsV>,
                ErrorV,
            >(None),
            r matches Err(e) ==> Self::spec_parse_opcional_em(no@, tag@) == Err::<
                Option<GrupoIcmsV>,
                ErrorV,
            >(e@),
    {
        match no.filho(tag) {
            None => Ok(None),
            Some(f) => Self::parse(f),
        }
    }

    /// Encodes the value as the element `ICMS`: the element of the variant and
    /// nothing of the others.
    pub fn serialize(&self) -> (r: Elemento)
        ensures
            r@ == self@.spec_serialize(),
    {
        let mut filhos: Vec<Elemento> = Vec::new();
        let e = match self {
            GrupoIcms::IcmsSn202(g) => g.serialize(),
            GrupoIcms::Icms60(g) => g.serialize(),
        };
        anexar(&mut filhos, e);
        Elemento::grupo("ICMS", filhos)
    }

    /// Encodes the value as an element, where there is one.
    pub fn serialize_opcional(v: &Option<GrupoIcms>) -> (r: Option<Elemento>)
        ensures
            ver_opcional(r) == GrupoIcmsV::spec_serialize_opcional(
                match v {
                    Some(v) => Some(v@),
                    None => None,
                },
            ),
    {
        match v {
            Some(v) => Some(v.serialize()),
            None => None,
        }
    }

    /// Whether the value is one that a document can hold.
    pub fn eh_valido(&self) -> (b: bool)
        ensures
            b == self@.valido(),
    {
        match self {
            GrupoIcms::IcmsSn202(g) => g.eh_valido(),
            GrupoIcms::Icms60(_) => true,
        }
    }

    /// Whether the value, where there is one, is one that a document can
    /// hold.
    pub fn eh_valido_opcional(v: &Option<GrupoIcms>) -> (b: bool)
        ensures
            b == (v matches Some(v) ==> v@.valido()),
    {
        match v {
            Some(v) => v.eh_valido(),
            None => true,
        }
    }

    /// What is decoded is a value that a document can hold.
    pub proof fn lemma_parse_valido(no: ElementoV)
        ensures
            Self::spec_parse(no) matches Ok(Some(v)) ==> v.valido(),
    {
        reveal(GrupoIcms::spec_parse);
        if no.filho("ICMSSN202"@) is Some {
            GrupoIcmsSn202::lemma_parse_valido(no.filho("ICMSSN202"@)->Some_0);
        }
    }

    /// Where exactly one of the candidates is among the children of `no`, what is
    /// decoded is the variant of that candidate, or its error; where none is,
    /// nothing is decoded.
    pub proof fn lemma_variante(no: ElementoV)
        ensures
            ({
                &&& no.filho("ICMSSN202"@) is Some
                &&& no.filho("ICMS60"@) is None
            }) ==> Self::spec_parse(no) == (match GrupoIcmsSn202::spec_parse_em(no, "ICMSSN202"@) {
                Err(e) => Err(e),
                Ok(g) => Ok(Some(GrupoIcmsV::IcmsSn202(g))),
            }),
            ({
                &&& no.filho("ICMSSN202"@) is None
                &&& no.filho("ICMS60"@) is Some
            }) ==> Self::spec_parse(no) == (match GrupoIcms60::spec_parse_em(no, "ICMS60"@) {
                Err(e) => Err(e),
                Ok(g) => Ok(Some(GrupoIcmsV::Icms60(g))),
            }),
            ({
                &&& no.filho("ICMSSN202"@) is None
                &&& no.filho("ICMS60"@) is None
            }) ==> Self::spec_parse(no) == Ok::<Option<GrupoIcmsV>, ErrorV>(None),
    {
        reveal(GrupoIcms::spec_parse);
        lemma_precedencia(no, Self::candidatos(), 0);
        assert(Self::candidatos()[0] == "ICMSSN202"@);
        assert(Self::candidatos()[1] == "ICMS60"@);
    }

    /// Decoding what was encoded gives the value back.
    pub proof fn lemma_ida_e_volta(v: GrupoIcmsV)
        requires
            v.valido(),
        ensures
            Self::spec_parse(v.spec_serialize()) == Ok::<Option<GrupoIcmsV>, ErrorV>(Some(v)),
    {
        broadcast use {lemma_primeiro_vazio, lemma_primeiro_push};

        reveal(GrupoIcms::spec_parse);
        reveal_strlit("ICMSSN202");
        reveal_strlit("ICMS60");
        assert("ICMSSN202"@.len() == 9 && "ICMSSN202"@[0] == 'I' && "ICMSSN202"@[1] == 'C'
            && "ICMSSN202"@[2] == 'M' && "ICMSSN202"@[3] == 'S' && "ICMSSN202"@[4] == 'S'
            && "ICMSSN202"@[5] == 'N' && "ICMSSN202"@[6] == '2');
        assert("ICMS60"@.len() == 6 && "ICMS60"@[0] == 'I' && "ICMS60"@[1] == 'C'
            && "ICMS60"@[2] == 'M' && "ICMS60"@[3] == 'S' && "ICMS60"@[4] == '6'
            && "ICMS60"@[5] == '0');
        let no = v.spec_serialize();
        match v {
            GrupoIcmsV::IcmsSn202(g) => {
                GrupoIcmsSn202::lemma_ida_e_volta(g);
                assert(no.filho("ICMSSN202"@) == Some(g.spec_serialize()));
                assert(no.filho("ICMS60"@) is None);
                lemma_variante_unica(no, Self::candidatos(), 0);
            },
            GrupoIcmsV::Icms60(g) => {
                GrupoIcms60::lemma_ida_e_volta(g);
                assert(no.filho("ICMS60"@) == Some(g.spec_serialize()));
                assert(no.filho("ICMSSN202"@) is None);
                lemma_variante_unica(no, Self::candidatos(), 1);
            },
        }
    }
}

/// ICMS 60: ICMS charged before, by tax substitution. The element `ICMS60`.
#[derive(Debug, PartialEq, Eq, Clone, Copy, Structural)]
pub struct GrupoIcms60 {
    /// Origin of the goods. Tag `orig`.
    pub origem: OrigemMercadoria,
    /// Base of the ICMS ST withheld. Tag `vBCSTRet`.
    pub valor_base_calculo: Decimal,
    /// Rate borne by the final consumer. Tag `pST`.
    pub aliquota: Decimal,
    /// ICMS ST withheld. Tag `vICMSSTRet`.
    pub valor: Decimal,
}

impl GrupoIcms60 {
    /// `antes` followed by the fields of the value, in the order of the wire.
    #[verifier::opaque]
    pub open spec fn spec_campos(self, antes: Seq<ElementoV>) -> Seq<ElementoV> {
        let f = antes;
        let f = f.push(folha_codigo("orig"@, self.origem));
        let f = f.push(folha_decimal("vBCSTRet"@, self.valor_base_calculo));
        let f = f.push(folha_decimal("pST"@, self.aliquota));
        let f = f.push(folha_decimal("vICMSSTRet"@, self.valor));
        f
    }

    /// The element that encodes the value.
    pub open spec fn spec_serialize(self) -> ElementoV {
        ElementoV::grupo("ICMS60"@, self.spec_campos(Seq::empty()))
    }

    /// What decoding the fields among the children of `no` gives: the value,
    /// or the error of the first field, in the order of the wire, that has one.
    #[verifier::opaque]
    pub open spec fn spec_parse(no: ElementoV) -> Result<GrupoIcms60, ErrorV> {
        let origem = spec_codigo::<OrigemMercadoria>(no, "orig"@);
        let valor_base_calculo = spec_decimal(no, "vBCSTRet"@);
        let aliquota = spec_decimal(no, "pST"@);
        let valor = spec_decimal(no, "vICMSSTRet"@);
        if origem is Err {
            Err(origem->Err_0)
        } else if valor_base_calculo is Err {
            Err(valor_base_calculo->Err_0)
        } else if aliquota is Err {
            Err(aliquota->Err_0)
        } else if valor is Err {
            Err(valor->Err_0)
        } else {
            Ok(
                GrupoIcms60 {
                    origem: origem->Ok_0,
                    valor_base_calculo: valor_base_calculo->Ok_0,
                    aliquota: aliquota->Ok_0,
                    valor: valor->Ok_0,
                },
            )
        }
    }

    /// What decoding the mandatory child of `no` named `tag` gives.
    pub open spec fn spec_parse_em(no: ElementoV, tag: Seq<char>) -> Result<GrupoIcms60, ErrorV> {
        match no.filho(tag) {
            None => Err(ErrorV::CampoAusente(tag)),
            Some(f) => Self::spec_parse(f),
        }
    }

    /// Decodes the value from the children of `no`.
    pub fn parse(no: &Elemento) -> (r: Result<GrupoIcms60, Error>)
        ensures
            r matches Ok(v) ==> Self::spec_parse(no@) == Ok::<GrupoIcms60, ErrorV>(v),
            r matches Err(e) ==> Self::spec_parse(no@) == Err::<GrupoIcms60, ErrorV>(e@),
    {
        proof {
            reveal(GrupoIcms60::spec_parse);
        }
        let origem = ler_codigo::<OrigemMercadoria>(no, "orig")?;
        let valor_base_calculo = ler_decimal(no, "vBCSTRet")?;
        let aliquota = ler_decimal(no, "pST")?;
        let valor = ler_decimal(no, "vICMSSTRet")?;
        Ok(GrupoIcms60 { origem, valor_base_calculo, aliquota, valor })
    }

    /// Decodes the value from the mandatory child of `no` named `tag`.
    pub fn parse_em(no: &Elemento, tag: &str) -> (r: Result<GrupoIcms60, Error>)
        ensures
            r matches Ok(v) ==> Self::spec_parse_em(no@, tag@) == Ok::<GrupoIcms60, ErrorV>(v),
            r matches Err(e) ==> Self::spec_parse_em(no@, tag@) == Err::<GrupoIcms60, ErrorV>(e@),
    {
        match no.filho(tag) {
            None => Err(Error::CampoAusente(tag.to_owned())),
            Some(f) => Self::parse(f),
        }
    }

    /// Appends the fields of the value to `filhos`, in the order of the wire.
    pub fn por_campos(&self, filhos: &mut Vec<Elemento>)
        ensures
            ver_elementos(final(filhos)@) == self.spec_campos(ver_elementos(old(filhos)@)),
    {
        proof {
            reveal(GrupoIcms60::spec_campos);
        }
        por_codigo(filhos, "orig", &self.origem);
        por_decimal(filhos, "vBCSTRet", self.valor_base_calculo);
        por_decimal(filhos, "pST", self.aliquota);
        por_decimal(filhos, "vICMSSTRet", self.valor);
    }

    /// Encodes the value as an element.
    pub fn serialize(&self) -> (r: Elemento)
        ensures
            r@ == self.spec_serialize(),
    {
        let mut filhos: Vec<Elemento> = Vec::new();
        self.por_campos(&mut filhos);
        Elemento::grupo("ICMS60", filhos)
    }

    /// What is found under each tag among the children of what was encoded: the
    /// leaf of the field of that tag.
    proof fn lemma_filhos(v: GrupoIcms60)
        ensures
            ({
                let no = v.spec_serialize();
                &&& no.filho("orig"@) == Some(folha_codigo("orig"@, v.origem))
                &&& no.filho("vBCSTRet"@) == Some(folha_decimal("vBCSTRet"@, v.valor_base_calculo))
                &&& no.filho("pST"@) == Some(folha_decimal("pST"@, v.aliquota))
                &&& no.filho("vICMSSTRet"@) == Some(folha_decimal("vICMSSTRet"@, v.valor))
            }),
    {
        broadcast use grupo_busca;

        reveal(GrupoIcms60::spec_campos);
        reveal_strlit("orig");
        reveal_strlit("vBCSTRet");
        reveal_strlit("pST");
        reveal_strlit("vICMSSTRet");
        assert("orig"@.len() == 4 && "orig"@[0] == 'o' && "orig"@[1] == 'r' && "orig"@[2] == 'i'
            && "orig"@[3] == 'g');
        assert("vBCSTRet"@.len() == 8 && "vBCSTRet"@[0] == 'v' && "vBCSTRet"@[1] == 'B'
            && "vBCSTRet"@[2] == 'C' && "vBCSTRet"@[3] == 'S' && "vBCSTRet"@[4] == 'T'
            && "vBCSTRet"@[5] == 'R' && "vBCSTRet"@[6] == 'e');
        assert("pST"@.len() == 3 && "pST"@[0] == 'p' && "pST"@[1] == 'S' && "pST"@[2] == 'T');
        assert("vICMSSTRet"@.len() == 10 && "vICMSSTRet"@[0] == 'v' && "vICMSSTRet"@[1] == 'I'
            && "vICMSSTRet"@[2] == 'C' && "vICMSSTRet"@[3] == 'M' && "vICMSSTRet"@[4] == 'S'
            && "vICMSSTRet"@[5] == 'S' && "vICMSSTRet"@[6] == 'T');
        let f1 = {
            let f = Seq::<ElementoV>::empty();
            let f = f.push(folha_codigo("orig"@, v.origem));
            let f = f.push(folha_decimal("vBCSTRet"@, v.valor_base_calculo));
            let f = f.push(folha_decimal("pST"@, v.aliquota));
            let f = f.push(folha_decimal("vICMSSTRet"@, v.valor));
            f
        };
        assert(v.spec_serialize().filhos == f1);
        assert(primeiro(f1, "orig"@) == Some(folha_codigo("orig"@, v.origem)));
        assert(primeiro(f1, "vBCSTRet"@) == Some(folha_decimal("vBCSTRet"@, v.valor_base_calculo)));
        assert(primeiro(f1, "pST"@) == Some(folha_decimal("pST"@, v.aliquota)));
        assert(primeiro(f1, "vICMSSTRet"@) == Some(folha_decimal("vICMSSTRet"@, v.valor)));
    }

    /// Decoding what was encoded gives the value back.
    pub proof fn lemma_ida_e_volta(v: GrupoIcms60)
        ensures
            Self::spec_parse(v.spec_serialize()) == Ok::<GrupoIcms60, ErrorV>(v),
    {
        broadcast use grupo_ida_e_volta;

        reveal(GrupoIcms60::spec_parse);
        Self::lemma_filhos(v);
        let no = v.spec_serialize();
        assert(spec_codigo::<OrigemMercadoria>(no, "orig"@)
            == Ok::<OrigemMercadoria, ErrorV>(v.origem));
        assert(spec_decimal(no, "vBCSTRet"@) == Ok::<Decimal, ErrorV>(v.valor_base_calculo));
        assert(spec_decimal(no, "pST"@) == Ok::<Decimal, ErrorV>(v.aliquota));
        assert(spec_decimal(no, "vICMSSTRet"@) == Ok::<Decimal, ErrorV>(v.valor));
    }
}

/// ICMS of the Simples Nacional, CSOSN 202 or 203. The element `ICMSSN202`.
#[derive(Debug, PartialEq, Eq, Clone)]
pub struct GrupoIcmsSn202 {
    /// Origin of the goods. Tag `orig`.
    pub origem: OrigemMercadoria,
    /// CSOSN, the code of the situation of the operation in the Simples
    /// Nacional. Tag `CSOSN`.
    pub codigo_situacao: String,
    /// How the base of the ICMS ST is determined. Tag `modBCST`.
    pub base_calculo: ModalidadeBaseCalculoIcmsSt,
    /// Base of the ICMS ST. Tag `vBCST`.
    pub valor_base_calculo: Decimal,
    /// Rate of the ICMS ST. Tag `pICMSST`.
    pub aliquota: Decimal,
    /// ICMS ST. Tag `vICMSST`.
    pub valor: Decimal,
}

/// The mathematical value of a [`GrupoIcmsSn202`].
pub ghost struct GrupoIcmsSn202V {
    pub origem: OrigemMercadoria,
    pub codigo_situacao: Seq<char>,
    pub base_calculo: ModalidadeBaseCalculoIcmsSt,
    pub valor_base_calculo: Decimal,
    pub aliquota: Decimal,
    pub valor: Decimal,
}

impl View for GrupoIcmsSn202 {
    type V = GrupoIcmsSn202V;

    open spec fn view(&self) -> GrupoIcmsSn202V {
        GrupoIcmsSn202V {
            origem: self.origem,
            codigo_situacao: self.codigo_situacao@,
            base_calculo: self.base_calculo,
            valor_base_calculo: self.valor_base_calculo,
            aliquota: self.aliquota,
            valor: self.valor,
        }
    }
}

impl GrupoIcmsSn202V {
    /// Whether the value is one that a document can hold: its texts are
    /// trimmed.
    pub open spec fn valido(self) -> bool {
        &&& aparado(self.codigo_situacao) == self.codigo_situacao
    }

    /// `antes` followed by the fields of the value, in the order of the wire.
    #[verifier::opaque]
    pub open spec fn spec_campos(self, antes: Seq<ElementoV>) -> Seq<ElementoV> {
        let f = antes;
        let f = f.push(folha_codigo("orig"@, self.origem));
        let f = f.push(ElementoV::folha("CSOSN"@, self.codigo_situacao));
        let f = f.push(folha_codigo("modBCST"@, self.base_calculo));
        let f = f.push(folha_decimal("vBCST"@, self.valor_base_calculo));
        let f = f.push(folha_decimal("pICMSST"@, self.aliquota));
        let f = f.push(folha_decimal("vICMSST"@, self.valor));
        f
    }

    /// The element that encodes the value.
    pub open spec fn spec_serialize(self) -> ElementoV {
        ElementoV::grupo("ICMSSN202"@, self.spec_campos(Seq::empty()))
    }
}

impl GrupoIcmsSn202 {
    /// What decoding the fields among the children of `no` gives: the value,
    /// or the error of the first field, in the order of the wire, that has one.
    #[verifier::opaque]
    pub open spec fn spec_parse(no: ElementoV) -> Result<GrupoIcmsSn202V, ErrorV> {
        let origem = spec_codigo::<OrigemMercadoria>(no, "orig"@);
        let codigo_situacao = spec_texto(no, "CSOSN"@);
        let base_calculo = spec_codigo::<ModalidadeBaseCalculoIcmsSt>(no, "modBCST"@);
        let valor_base_calculo = spec_decimal(no, "vBCST"@);
        let aliquota = spec_decimal(no, "pICMSST"@);
        let valor = spec_decimal(no, "vICMSST"@);
        if origem is Err {
            Err(origem->Err_0)
        } else if codigo_situacao is Err {
            Err(codigo_situacao->Err_0)
        } else if base_calculo is Err {
            Err(base_calculo->Err_0)
        } else if valor_base_calculo is Err {
            Err(valor_base_calculo->Err_0)
        } else if aliquota is Err {
            Err(aliquota->Err_0)
        } else if valor is Err {
            Err(valor->Err_0)
        } else {
            Ok(
                GrupoIcmsSn202V {
                    origem: origem->Ok_0,
                    codigo_situacao: codigo_situacao->Ok_0,
                    base_calculo: base_calculo->Ok_0,
                    valor_base_calculo: valor_base_calculo->Ok_0,
                    aliquota: aliquota->Ok_0,
                    valor: valor->Ok_0,
                },
            )
        }
    }

    /// What decoding the mandatory child of `no` named `tag` gives.
    pub open spec fn spec_parse_em(no: ElementoV, tag: Seq<char>) -> Result<
        GrupoIcmsSn202V,
        ErrorV,
    > {
        match no.filho(tag) {
            None => Err(ErrorV::CampoAusente(tag)),
            Some(f) => Self::spec_parse(f),
        }
    }

    /// Decodes the value from the children of `no`.
    pub fn parse(no: &Elemento) -> (r: Result<GrupoIcmsSn202, Error>)
        ensures
            r matches Ok(v) ==> Self::spec_parse(no@) == Ok::<GrupoIcmsSn202V, ErrorV>(v@),
            r matches Err(e) ==> Self::spec_parse(no@) == Err::<GrupoIcmsSn202V, ErrorV>(e@),
            r matches Ok(v) ==> v@.valido(),
    {
        proof {
            reveal(GrupoIcmsSn202::spec_parse);
            Self::lemma_parse_valido(no@);
        }
        let origem = ler_codigo::<OrigemMercadoria>(no, "orig")?;
        let codigo_situacao = ler_texto(no, "CSOSN")?;
        let base_calculo = ler_codigo::<ModalidadeBaseCalculoIcmsSt>(no, "modBCST")?;
        let valor_base_calculo = ler_decimal(no, "vBCST")?;
        let aliquota = ler_decimal(no, "pICMSST")?;
        let valor = ler_decimal(no, "vICMSST")?;
        Ok(
            GrupoIcmsSn202 {
                origem,
                codigo_situacao,
                base_calculo,
                valor_base_calculo,
                aliquota,
                valor,
            },
        )
    }

    /// Decodes the value from the mandatory child of `no` named `tag`.
    pub fn parse_em(no: &Elemento, tag: &str) -> (r: Result<GrupoIcmsSn202, Error>)
        ensures
            r matches Ok(v) ==> Self::spec_parse_em(no@, tag@) == Ok::<GrupoIcmsSn202V, ErrorV>(v@),
            r matches Err(e) ==> Self::spec_parse_em(no@, tag@)
                == Err::<GrupoIcmsSn202V, ErrorV>(e@),
            r matches Ok(v) ==> v@.valido(),
    {
        match no.filho(tag) {
            None => Err(Error::CampoAusente(tag.to_owned())),
            Some(f) => Self::parse(f),
        }
    }

    /// Appends the fields of the value to `filhos`, in the order of the wire.
    pub fn por_campos(&self, filhos: &mut Vec<Elemento>)
        ensures
            ver_elementos(final(filhos)@) == self@.spec_campos(ver_elementos(old(filhos)@)),
    {
        proof {
            reveal(GrupoIcmsSn202V::spec_campos);
        }
        por_codigo(filhos, "orig", &self.origem);
        por_texto(filhos, "CSOSN", &self.codigo_situacao);
        por_codigo(filhos, "modBCST", &self.base_calculo);
        por_decimal(filhos, "vBCST", self.valor_base_calculo);
        por_decimal(filhos, "pICMSST", self.aliquota);
        por_decimal(filhos, "vICMSST", self.valor);
    }

    /// Encodes the value as an element.
    pub fn serialize(&self) -> (r: Elemento)
        ensures
            r@ == self@.spec_serialize(),
    {
        let mut filhos: Vec<Elemento> = Vec::new();
        self.por_campos(&mut filhos);
        Elemento::grupo("ICMSSN202", filhos)
    }

    /// Whether the value is one that a document can hold.
    pub fn eh_valido(&self) -> (b: bool)
        ensures
            b == self@.valido(),
    {
        texto_valido(&self.codigo_situacao)
    }

    /// What is decoded is a value that a document can hold.
    pub proof fn lemma_parse_valido(no: ElementoV)
        ensures
            Self::spec_parse(no) matches Ok(v) ==> v.valido(),
    {
        broadcast use lemma_aparado_idempotente;

        reveal(GrupoIcmsSn202::spec_parse);
    }

    /// What is found under each tag among the children of what was encoded: the
    /// leaf of the field of that tag.
    proof fn lemma_filhos(v: GrupoIcmsSn202V)
        ensures
            ({
                let no = v.spec_serialize();
                &&& no.filho("orig"@) == Some(folha_codigo("orig"@, v.origem))
                &&& no.filho("CSOSN"@) == Some(ElementoV::folha("CSOSN"@, v.codigo_situacao))
                &&& no.filho("modBCST"@) == Some(folha_codigo("modBCST"@, v.base_calculo))
                &&& no.filho("vBCST"@) == Some(folha_decimal("vBCST"@, v.valor_base_calculo))
                &&& no.filho("pICMSST"@) == Some(folha_decimal("pICMSST"@, v.aliquota))
                &&& no.filho("vICMSST"@) == Some(folha_decimal("vICMSST"@, v.valor))
            }),
    {
        broadcast use grupo_busca;

        reveal(GrupoIcmsSn202V::spec_campos);
        reveal_strlit("orig");
        reveal_strlit("CSOSN");
        reveal_strlit("modBCST");
        reveal_strlit("vBCST");
        reveal_strlit("pICMSST");
        reveal_strlit("vICMSST");
        assert("orig"@.len() == 4 && "orig"@[0] == 'o' && "orig"@[1] == 'r' && "orig"@[2] == 'i'
            && "orig"@[3] == 'g');
        assert("CSOSN"@.len() == 5 && "CSOSN"@[0] == 'C' && "CSOSN"@[1] == 'S'
            && "CSOSN"@[2] == 'O' && "CSOSN"@[3] == 'S' && "CSOSN"@[4] == 'N');
        assert("modBCST"@.len() == 7 && "modBCST"@[0] == 'm' && "modBCST"@[1] == 'o'
            && "modBCST"@[2] == 'd' && "modBCST"@[3] == 'B' && "modBCST"@[4] == 'C'
            && "modBCST"@[5] == 'S' && "modBCST"@[6] == 'T');
        assert("vBCST"@.len() == 5 && "vBCST"@[0] == 'v' && "vBCST"@[1] == 'B'
            && "vBCST"@[2] == 'C' && "vBCST"@[3] == 'S' && "vBCST"@[4] == 'T');
        assert("pICMSST"@.len() == 7 && "pICMSST"@[0] == 'p' && "pICMSST"@[1] == 'I'
            && "pICMSST"@[2] == 'C' && "pICMSST"@[3] == 'M' && "pICMSST"@[4] == 'S'
            && "pICMSST"@[5] == 'S' && "pICMSST"@[6] == 'T');
        assert("vICMSST"@.len() == 7 && "vICMSST"@[0] == 'v' && "vICMSST"@[1] == 'I'
            && "vICMSST"@[2] == 'C' && "vICMSST"@[3] == 'M' && "vICMSST"@[4] == 'S'
            && "vICMSST"@[5] == 'S' && "vICMSST"@[6] == 'T');
        let f1 = {
            let f = Seq::<ElementoV>::empty();
            let f = f.push(folha_codigo("orig"@, v.origem));
            let f = f.push(ElementoV::folha("CSOSN"@, v.codigo_situacao));
            let f = f.push(folha_codigo("modBCST"@, v.base_calculo));
            let f = f.push(folha_decimal("vBCST"@, v.valor_base_calculo));
            let f = f.push(folha_decimal("pICMSST"@, v.aliquota));
            f
        };
        let f2 = {
            let f = f1;
            let f = f.push(folha_decimal("vICMSST"@, v.valor));
            f
        };
        assert(v.spec_serialize().filhos == f2);
        assert(primeiro(f1, "orig"@) == Some(folha_codigo("orig"@, v.origem)));
        assert(primeiro(f2, "orig"@) == Some(folha_codigo("orig"@, v.origem)));
        assert(primeiro(f1, "CSOSN"@) == Some(ElementoV::folha("CSOSN"@, v.codigo_situacao)));
        assert(primeiro(f2, "CSOSN"@) == Some(ElementoV::folha("CSOSN"@, v.codigo_situacao)));
        assert(primeiro(f1, "modBCST"@) == Some(folha_codigo("modBCST"@, v.base_calculo)));
        assert(primeiro(f2, "modBCST"@) == Some(folha_codigo("modBCST"@, v.base_calculo)));
        assert(primeiro(f1, "vBCST"@) == Some(folha_decimal("vBCST"@, v.valor_base_calculo)));
        assert(primeiro(f2, "vBCST"@) == Some(folha_decimal("vBCST"@, v.valor_base_calculo)));
        assert(primeiro(f1, "pICMSST"@) == Some(folha_decimal("pICMSST"@, v.aliquota)));
        assert(primeiro(f2, "pICMSST"@) == Some(folha_decimal("pICMSST"@, v.aliquota)));
        assert(primeiro(f1, "vICMSST"@) is None);
        assert(primeiro(f2, "vICMSST"@) == Some(folha_decimal("vICMSST"@, v.valor)));
    }

    /// Decoding what was encoded gives the value back.
    pub proof fn lemma_ida_e_volta(v: GrupoIcmsSn202V)
        requires
            v.valido(),
        ensures
            Self::spec_parse(v.spec_serialize()) == Ok::<GrupoIcmsSn202V, ErrorV>(v),
    {
        broadcast use grupo_ida_e_volta;

        reveal(GrupoIcmsSn202::spec_parse);
        Self::lemma_filhos(v);
        let no = v.spec_serialize();
        assert(spec_codigo::<OrigemMercadoria>(no, "orig"@)
            == Ok::<OrigemMercadoria, ErrorV>(v.origem));
        assert(spec_texto(no, "CSOSN"@) == Ok::<Seq<char>, ErrorV>(v.codigo_situacao));
        assert(spec_codigo::<ModalidadeBaseCalculoIcmsSt>(no, "modBCST"@)
            == Ok::<ModalidadeBaseCalculoIcmsSt, ErrorV>(v.base_calculo));
        assert(spec_decimal(no, "vBCST"@) == Ok::<Decimal, ErrorV>(v.valor_base_calculo));
        assert(spec_decimal(no, "pICMSST"@) == Ok::<Decimal, ErrorV>(v.aliquota));
        assert(spec_decimal(no, "vICMSST"@) == Ok::<Decimal, ErrorV>(v.valor));
    }
}

/// The origin of the goods.
#[derive(Debug, Eq, PartialEq, Copy, Clone, Structural)]
pub enum OrigemMercadoria {
    /// National, but for codes 3, 4, 5 and 8. Code 0.
    Nacional,
    /// Foreign, imported directly, but for code 6. Code 1.
    Estrangeira,
    /// Foreign, bought in the home market, but for code 7. Code 2.
    EstrangeiraAdquiridaMercadoInterno,
    /// National, with imported content above 40% and up to 70%. Code 3.
    NacionalComImportacao40a70,
    /// National, made by the basic productive processes of the law. Code 4.
    NacionalProducaoEmConformidade,
    /// National, with imported content up to 40%. Code 5.
    NacionalComImportacaoInferior40,
    /// Foreign, imported directly, without a national equivalent. Code 6.
    EstrangeiraImportacaoDiretaSemSimilarNacional,
    /// Foreign, bought in the home market, without a national equivalent.
    /// Code 7.
    EstrangeiraAdquiridaMercadoInternoSemSimilarNacional,
    /// National, with imported content above 70%. Code 8.
    NacionalComImportacaoSuperior70,
}

impl Codigo for OrigemMercadoria {
    open spec fn codigo_spec(self) -> u8 {
        match self {
            OrigemMercadoria::Nacional => 0,
            OrigemMercadoria::Estrangeira => 1,
            OrigemMercadoria::EstrangeiraAdquiridaMercadoInterno => 2,
            OrigemMercadoria::NacionalComImportacao40a70 => 3,
            OrigemMercadoria::NacionalProducaoEmConformidade => 4,
            OrigemMercadoria::NacionalComImportacaoInferior40 => 5,
            OrigemMercadoria::EstrangeiraImportacaoDiretaSemSimilarNacional => 6,
            OrigemMercadoria::EstrangeiraAdquiridaMercadoInternoSemSimilarNacional => 7,
            OrigemMercadoria::NacionalComImportacaoSuperior70 => 8,
        }
    }

    open spec fn de_codigo_spec(codigo: u8) -> Option<Self> {
        match codigo {
            0 => Some(OrigemMercadoria::Nacional),
            1 => Some(OrigemMercadoria::Estrangeira),
            2 => Some(OrigemMercadoria::EstrangeiraAdquiridaMercadoInterno),
            3 => Some(OrigemMercadoria::NacionalComImportacao40a70),
            4 => Some(OrigemMercadoria::NacionalProducaoEmConformidade),
            5 => Some(OrigemMercadoria::NacionalComImportacaoInferior40),
            6 => Some(OrigemMercadoria::EstrangeiraImportacaoDiretaSemSimilarNacional),
            7 => Some(OrigemMercadoria::EstrangeiraAdquiridaMercadoInternoSemSimilarNacional),
            8 => Some(OrigemMercadoria::NacionalComImportacaoSuperior70),
            _ => None,
        }
    }

    fn codigo(&self) -> (c: u8) {
        match self {
            OrigemMercadoria::Nacional => 0,
            OrigemMercadoria::Estrangeira => 1,
            OrigemMercadoria::EstrangeiraAdquiridaMercadoInterno => 2,
            OrigemMercadoria::NacionalComImportacao40a70 => 3,
            OrigemMercadoria::NacionalProducaoEmConformidade => 4,
            OrigemMercadoria::NacionalComImportacaoInferior40 => 5,
            OrigemMercadoria::EstrangeiraImportacaoDiretaSemSimilarNacional => 6,
            OrigemMercadoria::EstrangeiraAdquiridaMercadoInternoSemSimilarNacional => 7,
            OrigemMercadoria::NacionalComImportacaoSuperior70 => 8,
        }
    }

    fn de_codigo(codigo: u8) -> (v: Option<Self>) {
        match codigo {
            0 => Some(OrigemMercadoria::Nacional),
            1 => Some(OrigemMercadoria::Estrangeira),
            2 => Some(OrigemMercadoria::EstrangeiraAdquiridaMercadoInterno),
            3 => Some(OrigemMercadoria::NacionalComImportacao40a70),
            4 => Some(OrigemMercadoria::NacionalProducaoEmConformidade),
            5 => Some(OrigemMercadoria::NacionalComImportacaoInferior40),
            6 => Some(OrigemMercadoria::EstrangeiraImportacaoDiretaSemSimilarNacional),
            7 => Some(OrigemMercadoria::EstrangeiraAdquiridaMercadoInternoSemSimilarNacional),
            8 => Some(OrigemMercadoria::NacionalComImportacaoSuperior70),
            _ => None,
        }
    }

    proof fn lemma_codigo_ida_e_volta(v: Self) {
    }

    proof fn lemma_codigo_unico(codigo: u8) {
    }
}

/// How the base of the ICMS ST is determined.
#[derive(Debug, Eq, PartialEq, Copy, Clone, Structural)]
pub enum ModalidadeBaseCalculoIcmsSt {
    /// Listed or suggested maximum price. Code 0.
    PrecoTabelado,
    /// Negative list (value). Code 1.
    ListaNegativa,
    /// Positive list (value). Code 2.
    ListaPositiva,
    /// Neutral list (value). Code 3.
    ListaNeutra,
    /// Margin of added value (%). Code 4.
    MargemValorAgregado,
    /// Reference price (value). Code 5.
    Pauta,
}

impl Codigo for ModalidadeBaseCalculoIcmsSt {
    open spec fn codigo_spec(self) -> u8 {
        match self {
            ModalidadeBaseCalculoIcmsSt::PrecoTabelado => 0,
            ModalidadeBaseCalculoIcmsSt::ListaNegativa => 1,
            ModalidadeBaseCalculoIcmsSt::ListaPositiva => 2,
            ModalidadeBaseCalculoIcmsSt::ListaNeutra => 3,
            ModalidadeBaseCalculoIcmsSt::MargemValorAgregado => 4,
            ModalidadeBaseCalculoIcmsSt::Pauta => 5,
        }
    }

    open spec fn de_codigo_spec(codigo: u8) -> Option<Self> {
        match codigo {
            0 => Some(ModalidadeBaseCalculoIcmsSt::PrecoTabelado),
            1 => Some(ModalidadeBaseCalculoIcmsSt::ListaNegativa),
            2 => Some(ModalidadeBaseCalculoIcmsSt::ListaPositiva),
            3 => Some(ModalidadeBaseCalculoIcmsSt::ListaNeutra),
            4 => Some(ModalidadeBaseCalculoIcmsSt::MargemValorAgregado),
            5 => Some(ModalidadeBaseCalculoIcmsSt::Pauta),
            _ => None,
        }
    }

    fn codigo(&self) -> (c: u8) {
        match self {
            ModalidadeBaseCalculoIcmsSt::PrecoTabelado => 0,
            ModalidadeBaseCalculoIcmsSt::ListaNegativa => 1,
            ModalidadeBaseCalculoIcmsSt::ListaPositiva => 2,
            ModalidadeBaseCalculoIcmsSt::ListaNeutra => 3,
            ModalidadeBaseCalculoIcmsSt::MargemValorAgregado => 4,
            ModalidadeBaseCalculoIcmsSt::Pauta => 5,
        }
    }

    fn de_codigo(codigo: u8) -> (v: Option<Self>) {
        match codigo {
            0 => Some(ModalidadeBaseCalculoIcmsSt::PrecoTabelado),
            1 => Some(ModalidadeBaseCalculoIcmsSt::ListaNegativa),
            2 => Some(ModalidadeBaseCalculoIcmsSt::ListaPositiva),
            3 => Some(ModalidadeBaseCalculoIcmsSt::ListaNeutra),
            4 => Some(ModalidadeBaseCalculoIcmsSt::MargemValorAgregado),
            5 => Some(ModalidadeBaseCalculoIcmsSt::Pauta),
            _ => None,
        }
    }

    proof fn lemma_codigo_ida_e_volta(v: Self) {
    }

    proof fn lemma_codigo_unico(codigo: u8) {
    }
}

} // verus!
