//! The groups of PIS.

use vstd::prelude::*;
use crate::arvore::{
    anexar, lemma_primeiro_push, lemma_primeiro_vazio, primeiro, ver_elementos, ver_opcional,
    Elemento, ElementoV,
};
use crate::base::{Error, ErrorV};
use crate::campo::{
    folha_decimal, grupo_busca, grupo_ida_e_volta, ler_decimal, ler_texto, por_decimal, por_texto,
    spec_decimal, spec_texto, texto_valido,
};
use crate::escalar::Decimal;
use crate::texto::{aparado, lemma_aparado_idempotente};
use crate::variante::{lemma_precedencia, lemma_variante_unica, nomes, primeira_presente, resolver};

verus! {

/// The PIS of a line item: one of the groups that the wire format offers,
/// each an element of its own inside `PIS`.
#[derive(Debug, PartialEq, Eq, Clone)]
pub enum GrupoPis {
    /// Other operations. Element `PISOutr`.
    PisOutr(GrupoPisOutr),
    /// Not taxed. Element `PISNT`.
    PisNt(GrupoPisNt),
    /// Taxed by rate. Element `PISAliq`.
    PisAliq(GrupoPisAliq),
}

/// The mathematical value of a [`GrupoPis`].
pub ghost enum GrupoPisV {
    PisOutr(GrupoPisOutrV),
    PisNt(GrupoPisNtV),
    PisAliq(GrupoPisAliqV),
}

impl View for GrupoPis {
    type V = GrupoPisV;

    open spec fn view(&self) -> GrupoPisV {
        match self {
            GrupoPis::PisOutr(g) => GrupoPisV::PisOutr(g@),
            GrupoPis::PisNt(g) => GrupoPisV::PisNt(g@),
            GrupoPis::PisAliq(g) => GrupoPisV::PisAliq(g@),
        }
    }
}

impl GrupoPisV {
    /// Whether the value is one that a document can hold: its texts are
    /// trimmed.
    pub open spec fn valido(self) -> bool {
        match self {
            GrupoPisV::PisOutr(g) => g.valido(),
            GrupoPisV::PisNt(g) => g.valido(),
            GrupoPisV::PisAliq(g) => g.valido(),
        }
    }

    /// The element `PIS` that encodes the value: it holds the element of the
    /// variant and nothing else.
    pub open spec fn spec_serialize(self) -> ElementoV {
        let f = Seq::<ElementoV>::empty();
        let f = f.push(
            match self {
                GrupoPisV::PisOutr(g) => g.spec_serialize(),
                GrupoPisV::PisNt(g) => g.spec_serialize(),
                GrupoPisV::PisAliq(g) => g.spec_serialize(),
            },
        );
        ElementoV::grupo("PIS"@, f)
    }

    /// The element that encodes the value, where there is one.
    pub open spec fn spec_serialize_opcional(v: Option<GrupoPisV>) -> Option<ElementoV> {
        match v {
            Some(v) => Some(v.spec_serialize()),
            None => None,
        }
    }
}

impl GrupoPis {
    /// The names of the elements of the variants, in the order in which they
    /// are looked for.
    pub open spec fn candidatos() -> Seq<Seq<char>> {
        seq!["PISOutr"@, "PISNT"@, "PISAliq"@]
    }

    /// What decoding the element `PIS` gives: the first variant, in the order of
    /// the candidates, whose element is among the children of `no`, decoded; or
    /// nothing where none is there.
    #[verifier::opaque]
    pub open spec fn spec_parse(no: ElementoV) -> Result<Option<GrupoPisV>, ErrorV> {
        match primeira_presente(no, Self::candidatos()) {
            None => Ok(None),
            Some(i) => if i == 0 {
                match GrupoPisOutr::spec_parse_em(no, "PISOutr"@) {
                    Err(e) => Err(e),
                    Ok(g) => Ok(Some(GrupoPisV::PisOutr(g))),
                }
            } else if i == 1 {
                match GrupoPisNt::spec_parse_em(no, "PISNT"@) {
                    Err(e) => Err(e),
                    Ok(g) => Ok(Some(GrupoPisV::PisNt(g))),
                }
            } else {
                match GrupoPisAliq::spec_parse_em(no, "PISAliq"@) {
                    Err(e) => Err(e),
                    Ok(g) => Ok(Some(GrupoPisV::PisAliq(g))),
                }
            },
        }
    }

    /// What decoding the optional child of `no` named `tag` gives.
    pub open spec fn spec_parse_opcional_em(no: ElementoV, tag: Seq<char>) -> Result<
        Option<GrupoPisV>,
        ErrorV,
    > {
        match no.filho(tag) {
            None => Ok(None),
            Some(f) => Self::spec_parse(f),
        }
    }

    /// Decodes the value from the element `PIS`.
    pub fn parse(no: &Elemento) -> (r: Result<Option<GrupoPis>, Error>)
        ensures
            r matches Ok(Some(v)) ==> Self::spec_parse(no@)
                == Ok::<Option<GrupoPisV>, ErrorV>(Some(v@)),
            r matches Ok(None) ==> Self::spec_parse(no@) == Ok::<Option<GrupoPisV>, ErrorV>(None),
            r matches Err(e) ==> Self::spec_parse(no@) == Err::<Option<GrupoPisV>, ErrorV>(e@),
            r matches Ok(Some(v)) ==> v@.valido(),
    {
        proof {
            reveal(GrupoPis::spec_parse);
            Self::lemma_parse_valido(no@);
        }
        let candidatos = ["PISOutr", "PISNT", "PISAliq"];
        assert(nomes(candidatos@) =~= Self::candidatos());
        match resolver(no, candidatos.as_slice()) {
            None => Ok(None),
            Some((i, e)) => if i == 0 {
                let g = GrupoPisOutr::parse(e)?;
                Ok(Some(GrupoPis::PisOutr(g)))
            } else if i == 1 {
                let g = GrupoPisNt::parse(e)?;
                Ok(Some(GrupoPis::PisNt(g)))
            } else {
                let g = GrupoPisAliq::parse(e)?;
                Ok(Some(GrupoPis::PisAliq(g)))
            },
        }
    }

    /// Decodes the value from the optional child of `no` named `tag`.
    pub fn parse_opcional_em(no: &Elemento, tag: &str) -> (r: Result<Option<GrupoPis>, Error>)
        ensures
            r matches Ok(Some(v)) ==> Self::spec_parse_opcional_em(no@, tag@) == Ok::<
                Option<GrupoPisV>,
                ErrorV,
            >(Some(v@)),
            r matches Ok(None) ==> Self::spec_parse_opcional_em(no@, tag@) == Ok::<
                Option<GrupoPisV>,
                ErrorV,
            >(None),
            r matches Err(e) ==> Self::spec_parse_opcional_em(no@, tag@) == Err::<
                Option<GrupoPisV>,
                ErrorV,
            >(e@),
    {
        match no.filho(tag) {
            None => Ok(None),
            Some(f) => Self::parse(f),
        }
    }

    /// Encodes the value as the element `PIS`: the element of the variant and
    /// nothing of the others.
    pub fn serialize(&self) -> (r: Elemento)
        ensures
            r@ == self@.spec_serialize(),
    {
        let mut filhos: Vec<Elemento> = Vec::new();
        let e = match self {
            GrupoPis::PisOutr(g) => g.serialize(),
            GrupoPis::PisNt(g) => g.serialize(),
            GrupoPis::PisAliq(g) => g.serialize(),
        };
        anexar(&mut filhos, e);
        Elemento::grupo("PIS", filhos)
    }

    /// Encodes the value as an element, where there is one.
    pub fn serialize_opcional(v: &Option<GrupoPis>) -> (r: Option<Elemento>)
        ensures
            ver_opcional(r) == GrupoPisV::spec_serialize_opcional(
                match v {
                    Some(v) => Some(v@),
                    None => None,
                },
            ),
    {
        match v {
            Some(v) => Some(v.serialize()),
            None => None,
        }
    }

    /// Whether the value is one that a document can hold.
    pub fn eh_valido(&self) -> (b: bool)
        ensures
            b == self@.valido(),
    {
        match self {
            GrupoPis::PisOutr(g) => g.eh_valido(),
            GrupoPis::PisNt(g) => g.eh_valido(),
            GrupoPis::PisAliq(g) => g.eh_valido(),
        }
    }

    /// Whether the value, where there is one, is one that a document can
    /// hold.
    pub fn eh_valido_opcional(v: &Option<GrupoPis>) -> (b: bool)
        ensures
            b == (v matches Some(v) ==> v@.valido()),
    {
        match v {
            Some(v) => v.eh_valido(),
            None => true,
        }
    }

    /// What is decoded is a value that a document can hold.
    pub proof fn lemma_parse_valido(no: ElementoV)
        ensures
            Self::spec_parse(no) matches Ok(Some(v)) ==> v.valido(),
    {
        reveal(GrupoPis::spec_parse);
        if no.filho("PISOutr"@) is Some {
            GrupoPisOutr::lemma_parse_valido(no.filho("PISOutr"@)->Some_0);
        }
        if no.filho("PISNT"@) is Some {
            GrupoPisNt::lemma_parse_valido(no.filho("PISNT"@)->Some_0);
        }
        if no.filho("PISAliq"@) is Some {
            GrupoPisAliq::lemma_parse_valido(no.filho("PISAliq"@)->Some_0);
        }
    }

    /// Where exactly one of the candidates is among the children of `no`, what is
    /// decoded is the variant of that candidate, or its error; where none is,
    /// nothing is decoded.
    pub proof fn lemma_variante(no: ElementoV)
        ensures
            ({
                &&& no.filho("PISOutr"@) is Some
                &&& no.filho("PISNT"@) is None
                &&& no.filho("PISAliq"@) is None
            }) ==> Self::spec_parse(no) == (match GrupoPisOutr::spec_parse_em(no, "PISOutr"@) {
                Err(e) => Err(e),
                Ok(g) => Ok(Some(GrupoPisV::PisOutr(g))),
            }),
            ({
                &&& no.filho("PISOutr"@) is None
                &&& no.filho("PISNT"@) is Some
                &&& no.filho("PISAliq"@) is None
            }) ==> Self::spec_parse(no) == (match GrupoPisNt::spec_parse_em(no, "PISNT"@) {
                Err(e) => Err(e),
                Ok(g) => Ok(Some(GrupoPisV::PisNt(g))),
            }),
            ({
                &&& no.filho("PISOutr"@) is None
                &&& no.filho("PISNT"@) is None
                &&& no.filho("PISAliq"@) is Some
            }) ==> Self::spec_parse(no) == (match GrupoPisAliq::spec_parse_em(no, "PISAliq"@) {
                Err(e) => Err(e),
                Ok(g) => Ok(Some(GrupoPisV::PisAliq(g))),
            }),
            ({
                &&& no.filho("PISOutr"@) is None
                &&& no.filho("PISNT"@) is None
                &&& no.filho("PISAliq"@) is None
            }) ==> Self::spec_parse(no) == Ok::<Option<GrupoPisV>, ErrorV>(None),
    {
        reveal(GrupoPis::spec_parse);
        lemma_precedencia(no, Self::candidatos(), 0);
        assert(Self::candidatos()[0] == "PISOutr"@);
        assert(Self::candidatos()[1] == "PISNT"@);
        assert(Self::candidatos()[2] == "PISAliq"@);
    }

    /// Decoding what was encoded gives the value back.
    pub proof fn lemma_ida_e_volta(v: GrupoPisV)
        requires
            v.valido(),
        ensures
            Self::spec_parse(v.spec_serialize()) == Ok::<Option<GrupoPisV>, ErrorV>(Some(v)),
    {
        broadcast use {lemma_primeiro_vazio, lemma_primeiro_push};

        reveal(GrupoPis::spec_parse);
        reveal_strlit("PISOutr");
        reveal_strlit("PISNT");
        reveal_strlit("PISAliq");
        assert("PISOutr"@.len() == 7 && "PISOutr"@[0] == 'P' && "PISOutr"@[1] == 'I'
            && "PISOutr"@[2] == 'S' && "PISOutr"@[3] == 'O' && "PISOutr"@[4] == 'u'
            && "PISOutr"@[5] == 't' && "PISOutr"@[6] == 'r');
        assert("PISNT"@.len() == 5 && "PISNT"@[0] == 'P' && "PISNT"@[1] == 'I'
            && "PISNT"@[2] == 'S' && "PISNT"@[3] == 'N' && "PISNT"@[4] == 'T');
        assert("PISAliq"@.len() == 7 && "PISAliq"@[0] == 'P' && "PISAliq"@[1] == 'I'
            && "PISAliq"@[2] == 'S' && "PISAliq"@[3] == 'A' && "PISAliq"@[4] == 'l'
            && "PISAliq"@[5] == 'i' && "PISAliq"@[6] == 'q');
        let no = v.spec_serialize();
        match v {
            GrupoPisV::PisOutr(g) => {
                GrupoPisOutr::lemma_ida_e_volta(g);
                assert(no.filho("PISOutr"@) == Some(g.spec_serialize()));
                assert(no.filho("PISNT"@) is None);
                assert(no.filho("PISAliq"@) is None);
                lemma_variante_unica(no, Self::candidatos(), 0);
            },
            GrupoPisV::PisNt(g) => {
                GrupoPisNt::lemma_ida_e_volta(g);
                assert(no.filho("PISNT"@) == Some(g.spec_serialize()));
                assert(no.filho("PISOutr"@) is None);
                assert(no.filho("PISAliq"@) is None);
                lemma_variante_unica(no, Self::candidatos(), 1);
            },
            GrupoPisV::PisAliq(g) => {
                GrupoPisAliq::lemma_ida_e_volta(g);
                assert(no.filho("PISAliq"@) == Some(g.spec_serialize()));
                assert(no.filho("PISOutr"@) is None);
                assert(no.filho("PISNT"@) is None);
                lemma_variante_unica(no, Self::candidatos(), 2);
            },
        }
    }
}

/// PIS of other operations. The element `PISOutr`.
#[derive(Debug, PartialEq, Eq, Clone)]
pub struct GrupoPisOutr {
    /// CST, the code of the tax situation of the PIS. Tag `CST`.
    pub codigo_situacao: String,
    /// Base of the PIS. Tag `vBC`.
    pub valor_base_calculo: Decimal,
    /// Rate of the PIS, in percent. Tag `pPIS`.
    pub aliquota: Decimal,
}

/// The mathematical value of a [`GrupoPisOutr`].
pub ghost struct GrupoPisOutrV {
    pub codigo_situacao: Seq<char>,
    pub valor_base_calculo: Decimal,
    pub aliquota: Decimal,
}

impl View for GrupoPisOutr {
    type V = GrupoPisOutrV;

    open spec fn view(&self) -> GrupoPisOutrV {
        GrupoPisOutrV {
            codigo_situacao: self.codigo_situacao@,
            valor_base_calculo: self.valor_base_calculo,
            aliquota: self.aliquota,
        }
    }
}

impl GrupoPisOutrV {
    /// Whether the value is one that a document can hold: its texts are
    /// trimmed.
    pub open spec fn valido(self) -> bool {
        &&& aparado(self.codigo_situacao) == self.codigo_situacao
    }

    /// `antes` followed by the fields of the value, in the order of the wire.
    #[verifier::opaque]
    pub open spec fn spec_campos(self, antes: Seq<ElementoV>) -> Seq<ElementoV> {
        let f = antes;
        let f = f.push(ElementoV::folha("CST"@, self.codigo_situacao));
        let f = f.push(folha_decimal("vBC"@, self.valor_base_calculo));
        let f = f.push(folha_decimal("pPIS"@, self.aliquota));
        f
    }

    /// The element that encodes the value.
    pub open spec fn spec_serialize(self) -> ElementoV {
        ElementoV::grupo("PISOutr"@, self.spec_campos(Seq::empty()))
    }
}

impl GrupoPisOutr {
    /// What decoding the fields among the children of `no` gives: the value,
    /// or the error of the first field, in the order of the wire, that has one.
    #[verifier::opaque]
    pub open spec fn spec_parse(no: ElementoV) -> Result<GrupoPisOutrV, ErrorV> {
        let codigo_situacao = spec_texto(no, "CST"@);
        let valor_base_calculo = spec_decimal(no, "vBC"@);
        let aliquota = spec_decimal(no, "pPIS"@);
        if codigo_situacao is Err {
            Err(codigo_situacao->Err_0)
        } else if valor_base_calculo is Err {
            Err(valor_base_calculo->Err_0)
        } else if aliquota is Err {
            Err(aliquota->Err_0)
        } else {
            Ok(
                GrupoPisOutrV {
                    codigo_situacao: codigo_situacao->Ok_0,
                    valor_base_calculo: valor_base_calculo->Ok_0,
                    aliquota: aliquota->Ok_0,
                },
            )
        }
    }

    /// What decoding the mandatory child of `no` named `tag` gives.
    pub open spec fn spec_parse_em(no: ElementoV, tag: Seq<char>) -> Result<GrupoPisOutrV, ErrorV> {
        match no.filho(tag) {
            None => Err(ErrorV::CampoAusente(tag)),
            Some(f) => Self::spec_parse(f),
        }
    }

    /// Decodes the value from the children of `no`.
    pub fn parse(no: &Elemento) -> (r: Result<GrupoPisOutr, Error>)
        ensures
            r matches Ok(v) ==> Self::spec_parse(no@) == Ok::<GrupoPisOutrV, ErrorV>(v@),
            r matches Err(e) ==> Self::spec_parse(no@) == Err::<GrupoPisOutrV, ErrorV>(e@),
            r matches Ok(v) ==> v@.valido(),
    {
        proof {
            reveal(GrupoPisOutr::spec_parse);
            Self::lemma_parse_valido(no@);
        }
        let codigo_situacao = ler_texto(no, "CST")?;
        let valor_base_calculo = ler_decimal(no, "vBC")?;
        let aliquota = ler_decimal(no, "pPIS")?;
        Ok(GrupoPisOutr { codigo_situacao, valor_base_calculo, aliquota })
    }

    /// Decodes the value from the mandatory child of `no` named `tag`.
    pub fn parse_em(no: &Elemento, tag: &str) -> (r: Result<GrupoPisOutr, Error>)
        ensures
            r matches Ok(v) ==> Self::spec_parse_em(no@, tag@) == Ok::<GrupoPisOutrV, ErrorV>(v@),
            r matches Err(e) ==> Self::spec_parse_em(no@, tag@) == Err::<GrupoPisOutrV, ErrorV>(e@),
            r matches Ok(v) ==> v@.valido(),
    {
        match no.filho(tag) {
            None => Err(Error::CampoAusente(tag.to_owned())),
            Some(f) => Self::parse(f),
        }
    }

    /// Appends the fields of the value to `filhos`, in the order of the wire.
    pub fn por_campos(&self, filhos: &mut Vec<Elemento>)
        ensures
            ver_elementos(final(filhos)@) == self@.spec_campos(ver_elementos(old(filhos)@)),
    {
        proof {
            reveal(GrupoPisOutrV::spec_campos);
        }
        por_texto(filhos, "CST", &self.codigo_situacao);
        por_decimal(filhos, "vBC", self.valor_base_calculo);
        por_decimal(filhos, "pPIS", self.aliquota);
    }

    /// Encodes the value as an element.
    pub fn serialize(&self) -> (r: Elemento)
        ensures
            r@ == self@.spec_serialize(),
    {
        let mut filhos: Vec<Elemento> = Vec::new();
        self.por_campos(&mut filhos);
        Elemento::grupo("PISOutr", filhos)
    }

    /// Whether the value is one that a document can hold.
    pub fn eh_valido(&self) -> (b: bool)
        ensures
            b == self@.valido(),
    {
        texto_valido(&self.codigo_situacao)
    }

    /// What is decoded is a value that a document can hold.
    pub proof fn lemma_parse_valido(no: ElementoV)
        ensures
            Self::spec_parse(no) matches Ok(v) ==> v.valido(),
    {
        broadcast use lemma_aparado_idempotente;

        reveal(GrupoPisOutr::spec_parse);
    }

    /// What is found under each tag among the children of what was encoded: the
    /// leaf of the field of that tag.
    proof fn lemma_filhos(v: GrupoPisOutrV)
        ensures
            ({
                let no = v.spec_serialize();
                &&& no.filho("CST"@) == Some(ElementoV::folha("CST"@, v.codigo_situacao))
                &&& no.filho("vBC"@) == Some(folha_decimal("vBC"@, v.valor_base_calculo))
                &&& no.filho("pPIS"@) == Some(folha_decimal("pPIS"@, v.aliquota))
            }),
    {
        broadcast use grupo_busca;

        reveal(GrupoPisOutrV::spec_campos);
        reveal_strlit("CST");
        reveal_strlit("vBC");
        reveal_strlit("pPIS");
        assert("CST"@.len() == 3 && "CST"@[0] == 'C' && "CST"@[1] == 'S' && "CST"@[2] == 'T');
        assert("vBC"@.len() == 3 && "vBC"@[0] == 'v' && "vBC"@[1] == 'B' && "vBC"@[2] == 'C');
        assert("pPIS"@.len() == 4 && "pPIS"@[0] == 'p' && "pPIS"@[1] == 'P' && "pPIS"@[2] == 'I'
            && "pPIS"@[3] == 'S');
        let f1 = {
            let f = Seq::<ElementoV>::empty();
            let f = f.push(ElementoV::folha("CST"@, v.codigo_situacao));
            let f = f.push(folha_decimal("vBC"@, v.valor_base_calculo));
            let f = f.push(folha_decimal("pPIS"@, v.aliquota));
            f
        };
        assert(v.spec_serialize().filhos == f1);
        assert(primeiro(f1, "CST"@) == Some(ElementoV::folha("CST"@, v.codigo_situacao)));
        assert(primeiro(f1, "vBC"@) == Some(folha_decimal("vBC"@, v.valor_base_calculo)));
        assert(primeiro(f1, "pPIS"@) == Some(folha_decimal("pPIS"@, v.aliquota)));
    }

    /// Decoding what was encoded gives the value back.
    pub proof fn lemma_ida_e_volta(v: GrupoPisOutrV)
        requires
            v.valido(),
        ensures
            Self::spec_parse(v.spec_serialize()) == Ok::<GrupoPisOutrV, ErrorV>(v),
    {
        broadcast use grupo_ida_e_volta;

        reveal(GrupoPisOutr::spec_parse);
        Self::lemma_filhos(v);
        let no = v.spec_serialize();
        assert(spec_texto(no, "CST"@) == Ok::<Seq<char>, ErrorV>(v.codigo_situacao));
        assert(spec_decimal(no, "vBC"@) == Ok::<Decimal, ErrorV>(v.valor_base_calculo));
        assert(spec_decimal(no, "pPIS"@) == Ok::<Decimal, ErrorV>(v.aliquota));
    }
}

/// PIS not taxed. The element `PISNT`.
#[derive(Debug, PartialEq, Eq, Clone)]
pub struct GrupoPisNt {
    /// CST, the code of the tax situation of the PIS. Tag `CST`.
    pub codigo_situacao: String,
}

/// The mathematical value of a [`GrupoPisNt`].
pub ghost struct GrupoPisNtV {
    pub codigo_situacao: Seq<char>,
}

impl View for GrupoPisNt {
    type V = GrupoPisNtV;

    open spec fn view(&self) -> GrupoPisNtV {
        GrupoPisNtV {
            codigo_situacao: self.codigo_situacao@,
        }
    }
}

impl GrupoPisNtV {
    /// Whether the value is one that a document can hold: its texts are
    /// trimmed.
    pub open spec fn valido(self) -> bool {
        &&& aparado(self.codigo_situacao) == self.codigo_situacao
    }

    /// `antes` followed by the fields of the value, in the order of the wire.
    #[verifier::opaque]
    pub open spec fn spec_campos(self, antes: Seq<ElementoV>) -> Seq<ElementoV> {
        let f = antes;
        let f = f.push(ElementoV::folha("CST"@, self.codigo_situacao));
        f
    }

    /// The element that encodes the value.
    pub open spec fn spec_serialize(self) -> ElementoV {
        ElementoV::grupo("PISNT"@, self.spec_campos(Seq::empty()))
    }
}

impl GrupoPisNt {
    /// What decoding the fields among the children of `no` gives: the value,
    /// or the error of the first field, in the order of the wire, that has one.
    #[verifier::opaque]
    pub open spec fn spec_parse(no: ElementoV) -> Result<GrupoPisNtV, ErrorV> {
        let codigo_situacao = spec_texto(no, "CST"@);
        if codigo_situacao is Err {
            Err(codigo_situacao->Err_0)
        } else {
            Ok(
                GrupoPisNtV {
                    codigo_situacao: codigo_situacao->Ok_0,
                },
            )
        }
    }

    /// What decoding the mandatory child of `no` named `tag` gives.
    pub open spec fn spec_parse_em(no: ElementoV, tag: Seq<char>) -> Result<GrupoPisNtV, ErrorV> {
        match no.filho(tag) {
            None => Err(ErrorV::CampoAusente(tag)),
            Some(f) => Self::spec_parse(f),
        }
    }

    /// Decodes the value from the children of `no`.
    pub fn parse(no: &Elemento) -> (r: Result<GrupoPisNt, Error>)
        ensures
            r matches Ok(v) ==> Self::spec_parse(no@) == Ok::<GrupoPisNtV, ErrorV>(v@),
            r matches Err(e) ==> Self::spec_parse(no@) == Err::<GrupoPisNtV, ErrorV>(e@),
            r matches Ok(v) ==> v@.valido(),
    {
        proof {
            reveal(GrupoPisNt::spec_parse);
            Self::lemma_parse_valido(no@);
        }
        let codigo_situacao = ler_texto(no, "CST")?;
        Ok(GrupoPisNt { codigo_situacao })
    }

    /// Decodes the value from the mandatory child of `no` named `tag`.
    pub fn parse_em(no: &Elemento, tag: &str) -> (r: Result<GrupoPisNt, Error>)
        ensures
            r matches Ok(v) ==> Self::spec_parse_em(no@, tag@) == Ok::<GrupoPisNtV, ErrorV>(v@),
            r matches Err(e) ==> Self::spec_parse_em(no@, tag@) == Err::<GrupoPisNtV, ErrorV>(e@),
            r matches Ok(v) ==> v@.valido(),
    {
        match no.filho(tag) {
            None => Err(Error::CampoAusente(tag.to_owned())),
            Some(f) => Self::parse(f),
        }
    }

    /// Appends the fields of the value to `filhos`, in the order of the wire.
    pub fn por_campos(&self, filhos: &mut Vec<Elemento>)
        ensures
            ver_elementos(final(filhos)@) == self@.spec_campos(ver_elementos(old(filhos)@)),
    {
        proof {
            reveal(GrupoPisNtV::spec_campos);
        }
        por_texto(filhos, "CST", &self.codigo_situacao);
    }

    /// Encodes the value as an element.
    pub fn serialize(&self) -> (r: Elemento)
        ensures
            r@ == self@.spec_serialize(),
    {
        let mut filhos: Vec<Elemento> = Vec::new();
        self.por_campos(&mut filhos);
        Elemento::grupo("PISNT", filhos)
    }

    /// Whether the value is one that a document can hold.
    pub fn eh_valido(&self) -> (b: bool)
        ensures
            b == self@.valido(),
    {
        texto_valido(&self.codigo_situacao)
    }

    /// What is decoded is a value that a document can hold.
    pub proof fn lemma_parse_valido(no: ElementoV)
        ensures
            Self::spec_parse(no) matches Ok(v) ==> v.valido(),
    {
        broadcast use lemma_aparado_idempotente;

        reveal(GrupoPisNt::spec_parse);
    }

    /// What is found under each tag among the children of what was encoded: the
    /// leaf of the field of that tag.
    proof fn lemma_filhos(v: GrupoPisNtV)
        ensures
            ({
                let no = v.spec_serialize();
                &&& no.filho("CST"@) == Some(ElementoV::folha("CST"@, v.codigo_situacao))
            }),
    {
        broadcast use grupo_busca;

        reveal(GrupoPisNtV::spec_campos);
        reveal_strlit("CST");
        assert("CST"@.len() == 3 && "CST"@[0] == 'C' && "CST"@[1] == 'S' && "CST"@[2] == 'T');
        let f1 = {
            let f = Seq::<ElementoV>::empty();
            let f = f.push(ElementoV::folha("CST"@, v.codigo_situacao));
            f
        };
        assert(v.spec_serialize().filhos == f1);
        assert(primeiro(f1, "CST"@) == Some(ElementoV::folha("CST"@, v.codigo_situacao)));
    }

    /// Decoding what was encoded gives the value back.
    pub proof fn lemma_ida_e_volta(v: GrupoPisNtV)
        requires
            v.valido(),
        ensures
            Self::spec_parse(v.spec_serialize()) == Ok::<GrupoPisNtV, ErrorV>(v),
    {
        broadcast use grupo_ida_e_volta;

        reveal(GrupoPisNt::spec_parse);
        Self::lemma_filhos(v);
        let no = v.spec_serialize();
        assert(spec_texto(no, "CST"@) == Ok::<Seq<char>, ErrorV>(v.codigo_situacao));
    }
}

/// PIS taxed by rate. The element `PISAliq`.
#[derive(Debug, PartialEq, Eq, Clone)]
pub struct GrupoPisAliq {
    /// CST, the code of the tax situation of the PIS. Tag `CST`.
    pub codigo_situacao: String,
    /// Base of the PIS. Tag `vBC`.
    pub valor_base_calculo: Decimal,
    /// Rate of the PIS, in percent. Tag `pPIS`.
    pub aliquota: Decimal,
    /// PIS. Tag `vPIS`.
    pub valor: Decimal,
}

/// The mathematical value of a [`GrupoPisAliq`].
pub ghost struct GrupoPisAliqV {
    pub codigo_situacao: Seq<char>,
    pub valor_base_calculo: Decimal,
    pub aliquota: Decimal,
    pub valor: Decimal,
}

impl View for GrupoPisAliq {
    type V = GrupoPisAliqV;

    open spec fn view(&self) -> GrupoPisAliqV {
        GrupoPisAliqV {
            codigo_situacao: self.codigo_situacao@,
            valor_base_calculo: self.valor_base_calculo,
            aliquota: self.aliquota,
            valor: self.valor,
        }
    }
}

impl GrupoPisAliqV {
    /// Whether the value is one that a document can hold: its texts are
    /// trimmed.
    pub open spec fn valido(self) -> bool {
        &&& aparado(self.codigo_situacao) == self.codigo_situacao
    }

    /// `antes` followed by the fields of the value, in the order of the wire.
    #[verifier::opaque]
    pub open spec fn spec_campos(self, antes: Seq<ElementoV>) -> Seq<ElementoV> {
        let f = antes;
        let f = f.push(ElementoV::folha("CST"@, self.codigo_situacao));
        let f = f.push(folha_decimal("vBC"@, self.valor_base_calculo));
        let f = f.push(folha_decimal("pPIS"@, self.aliquota));
        let f = f.push(folha_decimal("vPIS"@, self.valor));
        f
    }

    /// The element that encodes the value.
    pub open spec fn spec_serialize(self) -> ElementoV {
        ElementoV::grupo("PISAliq"@, self.spec_campos(Seq::empty()))
    }
}

impl GrupoPisAliq {
    /// What decoding the fields among the children of `no` gives: the value,
    /// or the error of the first field, in the order of the wire, that has one.
    #[verifier::opaque]
    pub open spec fn spec_parse(no: ElementoV) -> Result<GrupoPisAliqV, ErrorV> {
        let codigo_situacao = spec_texto(no, "CST"@);
        let valor_base_calculo = spec_decimal(no, "vBC"@);
        let aliquota = spec_decimal(no, "pPIS"@);
        let valor = spec_decimal(no, "vPIS"@);
        if codigo_situacao is Err {
            Err(codigo_situacao->Err_0)
        } else if valor_base_calculo is Err {
            Err(valor_base_calculo->Err_0)
        } else if aliquota is Err {
            Err(aliquota->Err_0)
        } else if valor is Err {
            Err(valor->Err_0)
        } else {
            Ok(
                GrupoPisAliqV {
                    codigo_situacao: codigo_situacao->Ok_0,
                    valor_base_calculo: valor_base_calculo->Ok_0,
                    aliquota: aliquota->Ok_0,
                    valor: valor->Ok_0,
                },
            )
        }
    }

    /// What decoding the mandatory child of `no` named `tag` gives.
    pub open spec fn spec_parse_em(no: ElementoV, tag: Seq<char>) -> Result<GrupoPisAliqV, ErrorV> {
        match no.filho(tag) {
            None => Err(ErrorV::CampoAusente(tag)),
            Some(f) => Self::spec_parse(f),
        }
    }

    /// Decodes the value from the children of `no`.
    pub fn parse(no: &Elemento) -> (r: Result<GrupoPisAliq, Error>)
        ensures
            r matches Ok(v) ==> Self::spec_parse(no@) == Ok::<GrupoPisAliqV, ErrorV>(v@),
            r matches Err(e) ==> Self::spec_parse(no@) == Err::<GrupoPisAliqV, ErrorV>(e@),
            r matches Ok(v) ==> v@.valido(),
    {
        proof {
            reveal(GrupoPisAliq::spec_parse);
            Self::lemma_parse_valido(no@);
        }
        let codigo_situacao = ler_texto(no, "CST")?;
        let valor_base_calculo = ler_decimal(no, "vBC")?;
        let aliquota = ler_decimal(no, "pPIS")?;
        let valor = ler_decimal(no, "vPIS")?;
        Ok(GrupoPisAliq { codigo_situacao, valor_base_calculo, aliquota, valor })
    }

    /// Decodes the value from the mandatory child of `no` named `tag`.
    pub fn parse_em(no: &Elemento, tag: &str) -> (r: Result<GrupoPisAliq, Error>)
        ensures
            r matches Ok(v) ==> Self::spec_parse_em(no@, tag@) == Ok::<GrupoPisAliqV, ErrorV>(v@),
            r matches Err(e) ==> Self::spec_parse_em(no@, tag@) == Err::<GrupoPisAliqV, ErrorV>(e@),
            r matches Ok(v) ==> v@.valido(),
    {
        match no.filho(tag) {
            None => Err(Error::CampoAusente(tag.to_owned())),
            Some(f) => Self::parse(f),
        }
    }

    /// Appends the fields of the value to `filhos`, in the order of the wire.
    pub fn por_campos(&self, filhos: &mut Vec<Elemento>)
        ensures
            ver_elementos(final(filhos)@) == self@.spec_campos(ver_elementos(old(filhos)@)),
    {
        proof {
            reveal(GrupoPisAliqV::spec_campos);
        }
        por_texto(filhos, "CST", &self.codigo_situacao);
        por_decimal(filhos, "vBC", self.valor_base_calculo);
        por_decimal(filhos, "pPIS", self.aliquota);
        por_decimal(filhos, "vPIS", self.valor);
    }

    /// Encodes the value as an element.
    pub fn serialize(&self) -> (r: Elemento)
        ensures
            r@ == self@.spec_serialize(),
    {
        let mut filhos: Vec<Elemento> = Vec::new();
        self.por_campos(&mut filhos);
        Elemento::grupo("PISAliq", filhos)
    }

    /// Whether the value is one that a document can hold.
    pub fn eh_valido(&self) -> (b: bool)
        ensures
            b == self@.valido(),
    {
        texto_valido(&self.codigo_situacao)
    }

    /// What is decoded is a value that a document can hold.
    pub proof fn lemma_parse_valido(no: ElementoV)
        ensures
            Self::spec_parse(no) matches Ok(v) ==> v.valido(),
    {
        broadcast use lemma_aparado_idempotente;

        reveal(GrupoPisAliq::spec_parse);
    }

    /// What is found under each tag among the children of what was encoded: the
    /// leaf of the field of that tag.
    proof fn lemma_filhos(v: GrupoPisAliqV)
        ensures
            ({
                let no = v.spec_serialize();
                &&& no.filho("CST"@) == Some(ElementoV::folha("CST"@, v.codigo_situacao))
                &&& no.filho("vBC"@) == Some(folha_decimal("vBC"@, v.valor_base_calculo))
                &&& no.filho("pPIS"@) == Some(folha_decimal("pPIS"@, v.aliquota))
                &&& no.filho("vPIS"@) == Some(folha_decimal("vPIS"@, v.valor))
            }),
    {
        broadcast use grupo_busca;

        reveal(GrupoPisAliqV::spec_campos);
        reveal_strlit("CST");
        reveal_strlit("vBC");
        reveal_strlit("pPIS");
        reveal_strlit("vPIS");
        assert("CST"@.len() == 3 && "CST"@[0] == 'C' && "CST"@[1] == 'S' && "CST"@[2] == 'T');
        assert("vBC"@.len() == 3 && "vBC"@[0] == 'v' && "vBC"@[1] == 'B' && "vBC"@[2] == 'C');
        assert("pPIS"@.len() == 4 && "pPIS"@[0] == 'p' && "pPIS"@[1] == 'P' && "pPIS"@[2] == 'I'
            && "pPIS"@[3] == 'S');
        assert("vPIS"@.len() == 4 && "vPIS"@[0] == 'v' && "vPIS"@[1] == 'P' && "vPIS"@[2] == 'I'
            && "vPIS"@[3] == 'S');
        let f1 = {
            let f = Seq::<ElementoV>::empty();
            let f = f.push(ElementoV::folha("CST"@, v.codigo_situacao));
            let f = f.push(folha_decimal("vBC"@, v.valor_base_calculo));
            let f = f.push(folha_decimal("pPIS"@, v.aliquota));
            let f = f.push(folha_decimal("vPIS"@, v.valor));
            f
        };
        assert(v.spec_serialize().filhos == f1);
        assert(primeiro(f1, "CST"@) == Some(ElementoV::folha("CST"@, v.codigo_situacao)));
        assert(primeiro(f1, "vBC"@) == Some(folha_decimal("vBC"@, v.valor_base_calculo)));
        assert(primeiro(f1, "pPIS"@) == Some(folha_decimal("pPIS"@, v.aliquota)));
        assert(primeiro(f1, "vPIS"@) == Some(folha_decimal("vPIS"@, v.valor)));
    }

    /// Decoding what was encoded gives the value back.
    pub proof fn lemma_ida_e_volta(v: GrupoPisAliqV)
        requires
            v.valido(),
        ensures
            Self::spec_parse(v.spec_serialize()) == Ok::<GrupoPisAliqV, ErrorV>(v),
    {
        broadcast use grupo_ida_e_volta;

        reveal(GrupoPisAliq::spec_parse);
        Self::lemma_filhos(v);
        let no = v.spec_serialize();
        assert(spec_texto(no, "CST"@) == Ok::<Seq<char>, ErrorV>(v.codigo_situacao));
        assert(spec_decimal(no, "vBC"@) == Ok::<Decimal, ErrorV>(v.valor_base_calculo));
        assert(spec_decimal(no, "pPIS"@) == Ok::<Decimal, ErrorV>(v.aliquota));
        assert(spec_decimal(no, "vPIS"@) == Ok::<Decimal, ErrorV>(v.valor));
    }
}

} // verus!
