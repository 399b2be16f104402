//! The groups of COFINS.

use vstd::prelude::*;
use crate::arvore::{
    anexar, lemma_primeiro_push, lemma_primeiro_vazio, primeiro, ver_elementos, ver_opcional,
    Elemento, ElementoV,
};
use crate::base::{Error, ErrorV};
use crate::campo::{
    folha_decimal, grupo_busca, grupo_ida_e_volta, ler_decimal, ler_texto, por_decimal, por_texto,
    spec_decimal, spec_texto, texto_valido,
};
use crate::escalar::Decimal;
use crate::texto::{aparado, lemma_aparado_idempotente};
use crate::variante::{lemma_precedencia, lemma_variante_unica, nomes, primeira_presente, resolver};

verus! {

/// The COFINS of a line item: one of the groups that the wire format offers,
/// each an element of its own inside `COFINS`.
#[derive(Debug, PartialEq, Eq, Clone)]
pub enum GrupoCofins {
    /// Other operations. Element `COFINSOutr`.
    CofinsOutr(GrupoCofinsOutr),
    /// Not taxed. Element `COFINSNT`.
    CofinsNt(GrupoCofinsNt),
    /// Taxed by rate. Element `COFINSAliq`.
    CofinsAliq(GrupoCofinsAliq),
}

/// The mathematical value of a [`GrupoCofins`].
pub ghost enum GrupoCofinsV {
    CofinsOutr(GrupoCofinsOutrV),
    CofinsNt(GrupoCofinsNtV),
    CofinsAliq(GrupoCofinsAliqV),
}

impl View for GrupoCofins {
    type V = GrupoCofinsV;

    open spec fn view(&self) -> GrupoCofinsV {
        match self {
            GrupoCofins::CofinsOutr(g) => GrupoCofinsV::CofinsOutr(g@),
            GrupoCofins::CofinsNt(g) => GrupoCofinsV::CofinsNt(g@),
            GrupoCofins::CofinsAliq(g) => GrupoCofinsV::CofinsAliq(g@),
        }
    }
}

impl GrupoCofinsV {
    /// Whether the value is one that a document can hold: its texts are
    /// trimmed.
    pub open spec fn valido(self) -> bool {
        match self {
            GrupoCofinsV::CofinsOutr(g) => g.valido(),
            GrupoCofinsV::CofinsNt(g) => g.valido(),
            GrupoCofinsV::CofinsAliq(g) => g.valido(),
        }
    }

    /// The element `COFINS` that encodes the value: it holds the element of the
    /// variant and nothing else.
    pub open spec fn spec_serialize(self) -> ElementoV {
        let f = Seq::<ElementoV>::empty();
        let f = f.push(
            match self {
                GrupoCofinsV::CofinsOutr(g) => g.spec_serialize(),
                GrupoCofinsV::CofinsNt(g) => g.spec_serialize(),
                GrupoCofinsV::CofinsAliq(g) => g.spec_serialize(),
            },
        );
        ElementoV::grupo("COFINS"@, f)
    }

    /// The element that encodes the value, where there is one.
    pub open spec fn spec_serialize_opcional(v: Option<GrupoCofinsV>) -> Option<ElementoV> {
        match v {
            Some(v) => Some(v.spec_serialize()),
            None => None,
        }
    }
}

impl GrupoCofins {
    /// The names of the elements of the variants, in the order in which they
    /// are looked for.
    pub open spec fn candidatos() -> Seq<Seq<char>> {
        seq!["COFINSOutr"@, "COFINSNT"@, "COFINSAliq"@]
    }

    /// What decoding the element `COFINS` gives: the first variant, in the order of
    /// the candidates, whose element is among the children of `no`, decoded; or
    /// nothing where none is there.
    #[verifier::opaque]
    pub open spec fn spec_parse(no: ElementoV) -> Result<Option<GrupoCofinsV>, ErrorV> {
        match primeira_presente(no, Self::candidatos()) {
            None => Ok(None),
            Some(i) => if i == 0 {
                match GrupoCofinsOutr::spec_parse_em(no, "COFINSOutr"@) {
                    Err(e) => Err(e),
                    Ok(g) => Ok(Some(GrupoCofinsV::CofinsOutr(g))),
                }
            } else if i == 1 {
                match GrupoCofinsNt::spec_parse_em(no, "COFINSNT"@) {
                    Err(e) => Err(e),
                    Ok(g) => Ok(Some(GrupoCofinsV::CofinsNt(g))),
                }
            } else {
                match GrupoCofinsAliq::spec_parse_em(no, "COFINSAliq"@) {
                    Err(e) => Err(e),
                    Ok(g) => Ok(Some(GrupoCofinsV::CofinsAliq(g))),
                }
            },
        }
    }

    /// What decoding the optional child of `no` named `tag` gives.
    pub open spec fn spec_parse_opcional_em(no: ElementoV, tag: Seq<char>) -> Result<
        Option<GrupoCofinsV>,
        ErrorV,
    > {
        match no.filho(tag) {
            None => Ok(None),
            Some(f) => Self::spec_parse(f),
        }
    }

    /// Decodes the value from the element `COFINS`.
    pub fn parse(no: &Elemento) -> (r: Result<Option<GrupoCofins>, Error>)
        ensures
            r matches Ok(Some(v)) ==> Self::spec_parse(no@)
                == Ok::<Option<GrupoCofinsV>, ErrorV>(Some(v@)),
            r matches Ok(None) ==> Self::spec_parse(no@)
                == Ok::<Option<GrupoCofinsV>, ErrorV>(None),
            r matches Err(e) ==> Self::spec_parse(no@) == Err::<Option<GrupoCofinsV>, ErrorV>(e@),
            r matches Ok(Some(v)) ==> v@.valido(),
    {
        proof {
            reveal(GrupoCofins::spec_parse);
            Self::lemma_parse_valido(no@);
        }
        let candidatos = ["COFINSOutr", "COFINSNT", "COFINSAliq"];
        assert(nomes(candidatos@) =~= Self::candidatos());
        match resolver(no, candidatos.as_slice()) {
            None => Ok(None),
            Some((i, e)) => if i == 0 {
                let g = GrupoCofinsOutr::parse(e)?;
                Ok(Some(GrupoCofins::CofinsOutr(g)))
            } else if i == 1 {
                let g = GrupoCofinsNt::parse(e)?;
                Ok(Some(GrupoCofins::CofinsNt(g)))
            } else {
                let g = GrupoCofinsAliq::parse(e)?;
                Ok(Some(GrupoCofins::CofinsAliq(g)))
            },
        }
    }

    /// Decodes the value from the optional child of `no` named `tag`.
    pub fn parse_opcional_em(no: &Elemento, tag: &str) -> (r: Result<Option<GrupoCofins>, Error>)
        ensures
            r matches Ok(Some(v)) ==> Self::spec_parse_opcional_em(no@, tag@) == Ok::<
                Option<GrupoCofinsV>,
                ErrorV,
            >(Some(v@)),
            r matches Ok(None) ==> Self::spec_parse_opcional_em(no@, tag@) == Ok::<
                Option<GrupoCofinsV>,
                ErrorV,
            >(None),
            r matches Err(e) ==> Self::spec_parse_opcional_em(no@, tag@) == Err::<
                Option<GrupoCofinsV>,
                ErrorV,
            >(e@),
    {
        match no.filho(tag) {
            None => Ok(None),
            Some(f) => Self::parse(f),
        }
    }

    /// Encodes the value as the element `COFINS`: the element of the variant and
    /// nothing of the others.
    pub fn serialize(&self) -> (r: Elemento)
        ensures
            r@ == self@.spec_serialize(),
    {
        let mut filhos: Vec<Elemento> = Vec::new();
        let e = match self {
            GrupoCofins::CofinsOutr(g) => g.serialize(),
            GrupoCofins::CofinsNt(g) => g.serialize(),
            GrupoCofins::CofinsAliq(g) => g.serialize(),
        };
        anexar(&mut filhos, e);
        Elemento::grupo("COFINS", filhos)
    }

    /// Encodes the value as an element, where there is one.
    pub fn serialize_opcional(v: &Option<GrupoCofins>) -> (r: Option<Elemento>)
        ensures
            ver_opcional(r) == GrupoCofinsV::spec_serialize_opcional(
                match v {
                    Some(v) => Some(v@),
                    None => None,
                },
            ),
    {
        match v {
            Some(v) => Some(v.serialize()),
            None => None,
        }
    }

    /// Whether the value is one that a document can hold.
    pub fn eh_valido(&self) -> (b: bool)
        ensures
            b == self@.valido(),
    {
        match self {
            GrupoCofins::CofinsOutr(g) => g.eh_valido(),
            GrupoCofins::CofinsNt(g) => g.eh_valido(),
            GrupoCofins::CofinsAliq(g) => g.eh_valido(),
        }
    }

    /// Whether the value, where there is one, is one that a document can
    /// hold.
    pub fn eh_valido_opcional(v: &Option<GrupoCofins>) -> (b: bool)
        ensures
            b == (v matches Some(v) ==> v@.valido()),
    {
        match v {
            Some(v) => v.eh_valido(),
            None => true,
        }
    }

    /// What is decoded is a value that a document can hold.
    pub proof fn lemma_parse_valido(no: ElementoV)
        ensures
            Self::spec_parse(no) matches Ok(Some(v)) ==> v.valido(),
    {
        reveal(GrupoCofins::spec_parse);
        if no.filho("COFINSOutr"@) is Some {
            GrupoCofinsOutr::lemma_parse_valido(no.filho("COFINSOutr"@)->Some_0);
        }
        if no.filho("COFINSNT"@) is Some {
            GrupoCofinsNt::lemma_parse_valido(no.filho("COFINSNT"@)->Some_0);
        }
        if no.filho("COFINSAliq"@) is Some {
            GrupoCofinsAliq::lemma_parse_valido(no.filho("COFINSAliq"@)->Some_0);
        }
    }

    /// Where exactly one of the candidates is among the children of `no`, what is
    /// decoded is the variant of that candidate, or its error; where none is,
    /// nothing is decoded.
    pub proof fn lemma_variante(no: ElementoV)
        ensures
            ({
                &&& no.filho("COFINSOutr"@) is Some
                &&& no.filho("COFINSNT"@) is None
                &&& no.filho("COFINSAliq"@) is None
            }) ==> Self::spec_parse(no)
                == (match GrupoCofinsOutr::spec_parse_em(no, "COFINSOutr"@) {
                Err(e) => Err(e),
                Ok(g) => Ok(Some(GrupoCofinsV::CofinsOutr(g))),
            }),
            ({
                &&& no.filho("COFINSOutr"@) is None
                &&& no.filho("COFINSNT"@) is Some
                &&& no.filho("COFINSAliq"@) is None
            }) ==> Self::spec_parse(no) == (match GrupoCofinsNt::spec_parse_em(no, "COFINSNT"@) {
                Err(e) => Err(e),
                Ok(g) => Ok(Some(GrupoCofinsV::CofinsNt(g))),
            }),
            ({
                &&& no.filho("COFINSOutr"@) is None
                &&& no.filho("COFINSNT"@) is None
                &&& no.filho("COFINSAliq"@) is Some
            }) ==> Self::spec_parse(no)
                == (match GrupoCofinsAliq::spec_parse_em(no, "COFINSAliq"@) {
                Err(e) => Err(e),
                Ok(g) => Ok(Some(GrupoCofinsV::CofinsAliq(g))),
            }),
            ({
                &&& no.filho("COFINSOutr"@) is None
                &&& no.filho("COFINSNT"@) is None
                &&& no.filho("COFINSAliq"@) is None
            }) ==> Self::spec_parse(no) == Ok::<Option<GrupoCofinsV>, ErrorV>(None),
    {
        reveal(GrupoCofins::spec_parse);
        lemma_precedencia(no, Self::candidatos(), 0);
        assert(Self::candidatos()[0] == "COFINSOutr"@);
        assert(Self::candidatos()[1] == "COFINSNT"@);
        assert(Self::candidatos()[2] == "COFINSAliq"@);
    }

    /// Decoding what was encoded gives the value back.
    pub proof fn lemma_ida_e_volta(v: GrupoCofinsV)
        requires
            v.valido(),
        ensures
            Self::spec_parse(v.spec_serialize()) == Ok::<Option<GrupoCofinsV>, ErrorV>(Some(v)),
    {
        broadcast use {lemma_primeiro_vazio, lemma_primeiro_push};

        reveal(GrupoCofins::spec_parse);
        reveal_strlit("COFINSOutr");
        reveal_strlit("COFINSNT");
        reveal_strlit("COFINSAliq");
        assert("COFINSOutr"@.len() == 10 && "COFINSOutr"@[0] == 'C' && "COFINSOutr"@[1] == 'O'
            && "COFINSOutr"@[2] == 'F' && "COFINSOutr"@[3] == 'I' && "COFINSOutr"@[4] == 'N'
            && "COFINSOutr"@[5] == 'S' && "COFINSOutr"@[6] == 'O');
        assert("COFINSNT"@.len() == 8 && "COFINSNT"@[0] == 'C' && "COFINSNT"@[1] == 'O'
            && "COFINSNT"@[2] == 'F' && "COFINSNT"@[3] == 'I' && "COFINSNT"@[4] == 'N'
            && "COFINSNT"@[5] == 'S' && "COFINSNT"@[6] == 'N');
        assert("COFINSAliq"@.len() == 10 && "COFINSAliq"@[0] == 'C' && "COFINSAliq"@[1] == 'O'
            && "COFINSAliq"@[2] == 'F' && "COFINSAliq"@[3] == 'I' && "COFINSAliq"@[4] == 'N'
            && "COFINSAliq"@[5] == 'S' && "COFINSAliq"@[6] == 'A');
        let no = v.spec_serialize();
        match v {
            GrupoCofinsV::CofinsOutr(g) => {
                GrupoCofinsOutr::lemma_ida_e_volta(g);
                assert(no.filho("COFINSOutr"@) == Some(g.spec_serialize()));
                assert(no.filho("COFINSNT"@) is None);
                assert(no.filho("COFINSAliq"@) is None);
                lemma_variante_unica(no, Self::candidatos(), 0);
            },
            GrupoCofinsV::CofinsNt(g) => {
                GrupoCofinsNt::lemma_ida_e_volta(g);
                assert(no.filho("COFINSNT"@) == Some(g.spec_serialize()));
                assert(no.filho("COFINSOutr"@) is None);
                assert(no.filho("COFINSAliq"@) is None);
                lemma_variante_unica(no, Self::candidatos(), 1);
            },
            GrupoCofinsV::CofinsAliq(g) => {
                GrupoCofinsAliq::lemma_ida_e_volta(g);
                assert(no.filho("COFINSAliq"@) == Some(g.spec_serialize()));
                assert(no.filho("COFINSOutr"@) is None);
                assert(no.filho("COFINSNT"@) is None);
                lemma_variante_unica(no, Self::candidatos(), 2);
            },
        }
    }
}

/// COFINS of other operations. The element `COFINSOutr`.
#[derive(Debug, PartialEq, Eq, Clone)]
pub struct GrupoCofinsOutr {
    /// CST, the code of the tax situation of the COFINS. Tag `CST`.
    pub codigo_situacao: String,
    /// Base of the COFINS. Tag `vBC`.
    pub valor_base_calculo: Decimal,
    /// Rate of the COFINS, in percent. Tag `pCOFINS`.
    pub aliquota: Decimal,
}

/// The mathematical value of a [`GrupoCofinsOutr`].
pub ghost struct GrupoCofinsOutrV {
    pub codigo_situacao: Seq<char>,
    pub valor_base_calculo: Decimal,
    pub aliquota: Decimal,
}

impl View for GrupoCofinsOutr {
    type V = GrupoCofinsOutrV;

    open spec fn view(&self) -> GrupoCofinsOutrV {
        GrupoCofinsOutrV {
            codigo_situacao: self.codigo_situacao@,
            valor_base_calculo: self.valor_base_calculo,
            aliquota: self.aliquota,
        }
    }
}

impl GrupoCofinsOutrV {
    /// Whether the value is one that a document can hold: its texts are
    /// trimmed.
    pub open spec fn valido(self) -> bool {
        &&& aparado(self.codigo_situacao) == self.codigo_situacao
    }

    /// `antes` followed by the fields of the value, in the order of the wire.
    #[verifier::opaque]
    pub open spec fn spec_campos(self, antes: Seq<ElementoV>) -> Seq<ElementoV> {
        let f = antes;
        let f = f.push(ElementoV::folha("CST"@, self.codigo_situacao));
        let f = f.push(folha_decimal("vBC"@, self.valor_base_calculo));
        let f = f.push(folha_decimal("pCOFINS"@, self.aliquota));
        f
    }

    /// The element that encodes the value.
    pub open spec fn spec_serialize(self) -> ElementoV {
        ElementoV::grupo("COFINSOutr"@, self.spec_campos(Seq::empty()))
    }
}

impl GrupoCofinsOutr {
    /// What decoding the fields among the children of `no` gives: the value,
    /// or the error of the first field, in the order of the wire, that has one.
    #[verifier::opaque]
    pub open spec fn spec_parse(no: ElementoV) -> Result<GrupoCofinsOutrV, ErrorV> {
        let codigo_situacao = spec_texto(no, "CST"@);
        let valor_base_calculo = spec_decimal(no, "vBC"@);
        let aliquota = spec_decimal(no, "pCOFINS"@);
        if codigo_situacao is Err {
            Err(codigo_situacao->Err_0)
        } else if valor_base_calculo is Err {
            Err(valor_base_calculo->Err_0)
        } else if aliquota is Err {
            Err(aliquota->Err_0)
        } else {
            Ok(
                GrupoCofinsOutrV {
                    codigo_situacao: codigo_situacao->Ok_0,
                    valor_base_calculo: valor_base_calculo->Ok_0,
                    aliquota: aliquota->Ok_0,
                },
            )
        }
    }

    /// What decoding the mandatory child of `no` named `tag` gives.
    pub open spec fn spec_parse_em(no: ElementoV, tag: Seq<char>) -> Result<
        GrupoCofinsOutrV,
        ErrorV,
    > {
        match no.filho(tag) {
            None => Err(ErrorV::CampoAusente(tag)),
            Some(f) => Self::spec_parse(f),
        }
    }

    /// Decodes the value from the children of `no`.
    pub fn parse(no: &Elemento) -> (r: Result<GrupoCofinsOutr, Error>)
        ensures
            r matches Ok(v) ==> Self::spec_parse(no@) == Ok::<GrupoCofinsOutrV, ErrorV>(v@),
            r matches Err(e) ==> Self::spec_parse(no@) == Err::<GrupoCofinsOutrV, ErrorV>(e@),
            r matches Ok(v) ==> v@.valido(),
    {
        proof {
            reveal(GrupoCofinsOutr::spec_parse);
            Self::lemma_parse_valido(no@);
        }
        let codigo_situacao = ler_texto(no, "CST")?;
        let valor_base_calculo = ler_decimal(no, "vBC")?;
        let aliquota = ler_decimal(no, "pCOFINS")?;
        Ok(GrupoCofinsOutr { codigo_situacao, valor_base_calculo, aliquota })
    }

    /// Decodes the value from the mandatory child of `no` named `tag`.
    pub fn parse_em(no: &Elemento, tag: &str) -> (r: Result<GrupoCofinsOutr, Error>)
        ensures
            r matches Ok(v) ==> Self::spec_parse_em(no@, tag@)
                == Ok::<GrupoCofinsOutrV, ErrorV>(v@),
            r matches Err(e) ==> Self::spec_parse_em(no@, tag@)
                == Err::<GrupoCofinsOutrV, ErrorV>(e@),
            r matches Ok(v) ==> v@.valido(),
    {
        match no.filho(tag) {
            None => Err(Error::CampoAusente(tag.to_owned())),
            Some(f) => Self::parse(f),
        }
    }

    /// Appends the fields of the value to `filhos`, in the order of the wire.
    pub fn por_campos(&self, filhos: &mut Vec<Elemento>)
        ensures
            ver_elementos(final(filhos)@) == self@.spec_campos(ver_elementos(old(filhos)@)),
    {
        proof {
            reveal(GrupoCofinsOutrV::spec_campos);
        }
        por_texto(filhos, "CST", &self.codigo_situacao);
        por_decimal(filhos, "vBC", self.valor_base_calculo);
        por_decimal(filhos, "pCOFINS", self.aliquota);
    }

    /// Encodes the value as an element.
    pub fn serialize(&self) -> (r: Elemento)
        ensures
            r@ == self@.spec_serialize(),
    {
        let mut filhos: Vec<Elemento> = Vec::new();
        self.por_campos(&mut filhos);
        Elemento::grupo("COFINSOutr", filhos)
    }

    /// Whether the value is one that a document can hold.
    pub fn eh_valido(&self) -> (b: bool)
        ensures
            b == self@.valido(),
    {
        texto_valido(&self.codigo_situacao)
    }

    /// What is decoded is a value that a document can hold.
    pub proof fn lemma_parse_valido(no: ElementoV)
        ensures
            Self::spec_parse(no) matches Ok(v) ==> v.valido(),
    {
        broadcast use lemma_aparado_idempotente;

        reveal(GrupoCofinsOutr::spec_parse);
    }

    /// What is found under each tag among the children of what was encoded: the
    /// leaf of the field of that tag.
    proof fn lemma_filhos(v: GrupoCofinsOutrV)
        ensures
            ({
                let no = v.spec_serialize();
                &&& no.filho("CST"@) == Some(ElementoV::folha("CST"@, v.codigo_situacao))
                &&& no.filho("vBC"@) == Some(folha_decimal("vBC"@, v.valor_base_calculo))
                &&& no.filho("pCOFINS"@) == Some(folha_decimal("pCOFINS"@, v.aliquota))
            }),
    {
        broadcast use grupo_busca;

        reveal(GrupoCofinsOutrV::spec_campos);
        reveal_strlit("CST");
        reveal_strlit("vBC");
        reveal_strlit("pCOFINS");
        assert("CST"@.len() == 3 && "CST"@[0] == 'C' && "CST"@[1] == 'S' && "CST"@[2] == 'T');
        assert("vBC"@.len() == 3 && "vBC"@[0] == 'v' && "vBC"@[1] == 'B' && "vBC"@[2] == 'C');
        assert("pCOFINS"@.len() == 7 && "pCOFINS"@[0] == 'p' && "pCOFINS"@[1] == 'C'
            && "pCOFINS"@[2] == 'O' && "pCOFINS"@[3] == 'F' && "pCOFINS"@[4] == 'I'
            && "pCOFINS"@[5] == 'N' && "pCOFINS"@[6] == 'S');
        let f1 = {
            let f = Seq::<ElementoV>::empty();
            let f = f.push(ElementoV::folha("CST"@, v.codigo_situacao));
            let f = f.push(folha_decimal("vBC"@, v.valor_base_calculo));
            let f = f.push(folha_decimal("pCOFINS"@, v.aliquota));
            f
        };
        assert(v.spec_serialize().filhos == f1);
        assert(primeiro(f1, "CST"@) == Some(ElementoV::folha("CST"@, v.codigo_situacao)));
        assert(primeiro(f1, "vBC"@) == Some(folha_decimal("vBC"@, v.valor_base_calculo)));
        assert(primeiro(f1, "pCOFINS"@) == Some(folha_decimal("pCOFINS"@, v.aliquota)));
    }

    /// Decoding what was encoded gives the value back.
    pub proof fn lemma_ida_e_volta(v: GrupoCofinsOutrV)
        requires
            v.valido(),
        ensures
            Self::spec_parse(v.spec_serialize()) == Ok::<GrupoCofinsOutrV, ErrorV>(v),
    {
        broadcast use grupo_ida_e_volta;

        reveal(GrupoCofinsOutr::spec_parse);
        Self::lemma_filhos(v);
        let no = v.spec_serialize();
        assert(spec_texto(no, "CST"@) == Ok::<Seq<char>, ErrorV>(v.codigo_situacao));
        assert(spec_decimal(no, "vBC"@) == Ok::<Decimal, ErrorV>(v.valor_base_calculo));
        assert(spec_decimal(no, "pCOFINS"@) == Ok::<Decimal, ErrorV>(v.aliquota));
    }
}

/// COFINS not taxed. The element `COFINSNT`.
#[derive(Debug, PartialEq, Eq, Clone)]
pub struct GrupoCofinsNt {
    /// CST, the code of the tax situation of the COFINS. Tag `CST`.
    pub codigo_situacao: String,
}

/// The mathematical value of a [`GrupoCofinsNt`].
pub ghost struct GrupoCofinsNtV {
    pub codigo_situacao: Seq<char>,
}

impl View for GrupoCofinsNt {
    type V = GrupoCofinsNtV;

    open spec fn view(&self) -> GrupoCofinsNtV {
        GrupoCofinsNtV {
            codigo_situacao: self.codigo_situacao@,
        }
    }
}

impl GrupoCofinsNtV {
    /// Whether the value is one that a document can hold: its texts are
    /// trimmed.
    pub open spec fn valido(self) -> bool {
        &&& aparado(self.codigo_situacao) == self.codigo_situacao
    }

    /// `antes` followed by the fields of the value, in the order of the wire.
    #[verifier::opaque]
    pub open spec fn spec_campos(self, antes: Seq<ElementoV>) -> Seq<ElementoV> {
        let f = antes;
        let f = f.push(ElementoV::folha("CST"@, self.codigo_situacao));
        f
    }

    /// The element that encodes the value.
    pub open spec fn spec_serialize(self) -> ElementoV {
        ElementoV::grupo("COFINSNT"@, self.spec_campos(Seq::empty()))
    }
}

impl GrupoCofinsNt {
    /// What decoding the fields among the children of `no` gives: the value,
    /// or the error of the first field, in the order of the wire, that has one.
    #[verifier::opaque]
    pub open spec fn spec_parse(no: ElementoV) -> Result<GrupoCofinsNtV, ErrorV> {
        let codigo_situacao = spec_texto(no, "CST"@);
        if codigo_situacao is Err {
            Err(codigo_situacao->Err_0)
        } else {
            Ok(
                GrupoCofinsNtV {
                    codigo_situacao: codigo_situacao->Ok_0,
                },
            )
        }
    }

    /// What decoding the mandatory child of `no` named `tag` gives.
    pub open spec fn spec_parse_em(no: ElementoV, tag: Seq<char>) -> Result<
        GrupoCofinsNtV,
        ErrorV,
    > {
        match no.filho(tag) {
            None => Err(ErrorV::CampoAusente(tag)),
            Some(f) => Self::spec_parse(f),
        }
    }

    /// Decodes the value from the children of `no`.
    pub fn parse(no: &Elemento) -> (r: Result<GrupoCofinsNt, Error>)
        ensures
            r matches Ok(v) ==> Self::spec_parse(no@) == Ok::<GrupoCofinsNtV, ErrorV>(v@),
            r matches Err(e) ==> Self::spec_parse(no@) == Err::<GrupoCofinsNtV, ErrorV>(e@),
            r matches Ok(v) ==> v@.valido(),
    {
        proof {
            reveal(GrupoCofinsNt::spec_parse);
            Self::lemma_parse_valido(no@);
        }
        let codigo_situacao = ler_texto(no, "CST")?;
        Ok(GrupoCofinsNt { codigo_situacao })
    }

    /// Decodes the value from the mandatory child of `no` named `tag`.
    pub fn parse_em(no: &Elemento, tag: &str) -> (r: Result<GrupoCofinsNt, Error>)
        ensures
            r matches Ok(v) ==> Self::spec_parse_em(no@, tag@) == Ok::<GrupoCofinsNtV, ErrorV>(v@),
            r matches Err(e) ==> Self::spec_parse_em(no@, tag@)
                == Err::<GrupoCofinsNtV, ErrorV>(e@),
            r matches Ok(v) ==> v@.valido(),
    {
        match no.filho(tag) {
            None => Err(Error::CampoAusente(tag.to_owned())),
            Some(f) => Self::parse(f),
        }
    }

    /// Appends the fields of the value to `filhos`, in the order of the wire.
    pub fn por_campos(&self, filhos: &mut Vec<Elemento>)
        ensures
            ver_elementos(final(filhos)@) == self@.spec_campos(ver_elementos(old(filhos)@)),
    {
        proof {
            reveal(GrupoCofinsNtV::spec_campos);
        }
        por_texto(filhos, "CST", &self.codigo_situacao);
    }

    /// Encodes the value as an element.
    pub fn serialize(&self) -> (r: Elemento)
        ensures
            r@ == self@.spec_serialize(),
    {
        let mut filhos: Vec<Elemento> = Vec::new();
        self.por_campos(&mut filhos);
        Elemento::grupo("COFINSNT", filhos)
    }

    /// Whether the value is one that a document can hold.
    pub fn eh_valido(&self) -> (b: bool)
        ensures
            b == self@.valido(),
    {
        texto_valido(&self.codigo_situacao)
    }

    /// What is decoded is a value that a document can hold.
    pub proof fn lemma_parse_valido(no: ElementoV)
        ensures
            Self::spec_parse(no) matches Ok(v) ==> v.valido(),
    {
        broadcast use lemma_aparado_idempotente;

        reveal(GrupoCofinsNt::spec_parse);
    }

    /// What is found under each tag among the children of what was encoded: the
    /// leaf of the field of that tag.
    proof fn lemma_filhos(v: GrupoCofinsNtV)
        ensures
            ({
                let no = v.spec_serialize();
                &&& no.filho("CST"@) == Some(ElementoV::folha("CST"@, v.codigo_situacao))
            }),
    {
        broadcast use grupo_busca;

        reveal(GrupoCofinsNtV::spec_campos);
        reveal_strlit("CST");
        assert("CST"@.len() == 3 && "CST"@[0] == 'C' && "CST"@[1] == 'S' && "CST"@[2] == 'T');
        let f1 = {
            let f = Seq::<ElementoV>::empty();
            let f = f.push(ElementoV::folha("CST"@, v.codigo_situacao));
            f
        };
        assert(v.spec_serialize().filhos == f1);
        assert(primeiro(f1, "CST"@) == Some(ElementoV::folha("CST"@, v.codigo_situacao)));
    }

    /// Decoding what was encoded gives the value back.
    pub proof fn lemma_ida_e_volta(v: GrupoCofinsNtV)
        requires
            v.valido(),
        ensures
            Self::spec_parse(v.spec_serialize()) == Ok::<GrupoCofinsNtV, ErrorV>(v),
    {
        broadcast use grupo_ida_e_volta;

        reveal(GrupoCofinsNt::spec_parse);
        Self::lemma_filhos(v);
        let no = v.spec_serialize();
        assert(spec_texto(no, "CST"@) == Ok::<Seq<char>, ErrorV>(v.codigo_situacao));
    }
}

/// COFINS taxed by rate. The element `COFINSAliq`.
#[derive(Debug, PartialEq, Eq, Clone)]
pub struct GrupoCofinsAliq {
    /// CST, the code of the tax situation of the COFINS. Tag `CST`.
    pub codigo_situacao: String,
    /// Base of the COFINS. Tag `vBC`.
    pub valor_base_calculo: Decimal,
    /// Rate of the COFINS, in percent. Tag `pCOFINS`.
    pub aliquota: Decimal,
    /// COFINS. Tag `vCOFINS`.
    pub valor: Decimal,
}

/// The mathematical value of a [`GrupoCofinsAliq`].
pub ghost struct GrupoCofinsAliqV {
    pub codigo_situacao: Seq<char>,
    pub valor_base_calculo: Decimal,
    pub aliquota: Decimal,
    pub valor: Decimal,
}

impl View for GrupoCofinsAliq {
    type V = GrupoCofinsAliqV;

    open spec fn view(&self) -> GrupoCofinsAliqV {
        GrupoCofinsAliqV {
            codigo_situacao: self.codigo_situacao@,
            valor_base_calculo: self.valor_base_calculo,
            aliquota: self.aliquota,
            valor: self.valor,
        }
    }
}

impl GrupoCofinsAliqV {
    /// Whether the value is one that a document can hold: its texts are
    /// trimmed.
    pub open spec fn valido(self) -> bool {
        &&& aparado(self.codigo_situacao) == self.codigo_situacao
    }

    /// `antes` followed by the fields of the value, in the order of the wire.
    #[verifier::opaque]
    pub open spec fn spec_campos(self, antes: Seq<ElementoV>) -> Seq<ElementoV> {
        let f = antes;
        let f = f.push(ElementoV::folha("CST"@, self.codigo_situacao));
        let f = f.push(folha_decimal("vBC"@, self.valor_base_calculo));
        let f = f.push(folha_decimal("pCOFINS"@, self.aliquota));
        let f = f.push(folha_decimal("vCOFINS"@, self.valor));
        f
    }

    /// The element that encodes the value.
    pub open spec fn spec_serialize(self) -> ElementoV {
        ElementoV::grupo("COFINSAliq"@, self.spec_campos(Seq::empty()))
    }
}

impl GrupoCofinsAliq {
    /// What decoding the fields among the children of `no` gives: the value,
    /// or the error of the first field, in the order of the wire, that has one.
    #[verifier::opaque]
    pub open spec fn spec_parse(no: ElementoV) -> Result<GrupoCofinsAliqV, ErrorV> {
        let codigo_situacao = spec_texto(no, "CST"@);
        let valor_base_calculo = spec_decimal(no, "vBC"@);
        let aliquota = spec_decimal(no, "pCOFINS"@);
        let valor = spec_decimal(no, "vCOFINS"@);
        if codigo_situacao is Err {
            Err(codigo_situacao->Err_0)
        } else if valor_base_calculo is Err {
            Err(valor_base_calculo->Err_0)
        } else if aliquota is Err {
            Err(aliquota->Err_0)
        } else if valor is Err {
            Err(valor->Err_0)
        } else {
            Ok(
                GrupoCofinsAliqV {
                    codigo_situacao: codigo_situacao->Ok_0,
                    valor_base_calculo: valor_base_calculo->Ok_0,
                    aliquota: aliquota->Ok_0,
                    valor: valor->Ok_0,
                },
            )
        }
    }

    /// What decoding the mandatory child of `no` named `tag` gives.
    pub open spec fn spec_parse_em(no: ElementoV, tag: Seq<char>) -> Result<
        GrupoCofinsAliqV,
        ErrorV,
    > {
        match no.filho(tag) {
            None => Err(ErrorV::CampoAusente(tag)),
            Some(f) => Self::spec_parse(f),
        }
    }

    /// Decodes the value from the children of `no`.
    pub fn parse(no: &Elemento) -> (r: Result<GrupoCofinsAliq, Error>)
        ensures
            r matches Ok(v) ==> Self::spec_parse(no@) == Ok::<GrupoCofinsAliqV, ErrorV>(v@),
            r matches Err(e) ==> Self::spec_parse(no@) == Err::<GrupoCofinsAliqV, ErrorV>(e@),
            r matches Ok(v) ==> v@.valido(),
    {
        proof {
            reveal(GrupoCofinsAliq::spec_parse);
            Self::lemma_parse_valido(no@);
        }
        let codigo_situacao = ler_texto(no, "CST")?;
        let valor_base_calculo = ler_decimal(no, "vBC")?;
        let aliquota = ler_decimal(no, "pCOFINS")?;
        let valor = ler_decimal(no, "vCOFINS")?;
        Ok(GrupoCofinsAliq { codigo_situacao, valor_base_calculo, aliquota, valor })
    }

    /// Decodes the value from the mandatory child of `no` named `tag`.
    pub fn parse_em(no: &Elemento, tag: &str) -> (r: Result<GrupoCofinsAliq, Error>)
        ensures
            r matches Ok(v) ==> Self::spec_parse_em(no@, tag@)
                == Ok::<GrupoCofinsAliqV, ErrorV>(v@),
            r matches Err(e) ==> Self::spec_parse_em(no@, tag@)
                == Err::<GrupoCofinsAliqV, ErrorV>(e@),
            r matches Ok(v) ==> v@.valido(),
    {
        match no.filho(tag) {
            None => Err(Error::CampoAusente(tag.to_owned())),
            Some(f) => Self::parse(f),
        }
    }

    /// Appends the fields of the value to `filhos`, in the order of the wire.
    pub fn por_campos(&self, filhos: &mut Vec<Elemento>)
        ensures
            ver_elementos(final(filhos)@) == self@.spec_campos(ver_elementos(old(filhos)@)),
    {
        proof {
            reveal(GrupoCofinsAliqV::spec_campos);
        }
        por_texto(filhos, "CST", &self.codigo_situacao);
        por_decimal(filhos, "vBC", self.valor_base_calculo);
        por_decimal(filhos, "pCOFINS", self.aliquota);
        por_decimal(filhos, "vCOFINS", self.valor);
    }

    /// Encodes the value as an element.
    pub fn serialize(&self) -> (r: Elemento)
        ensures
            r@ == self@.spec_serialize(),
    {
        let mut filhos: Vec<Elemento> = Vec::new();
        self.por_campos(&mut filhos);
        Elemento::grupo("COFINSAliq", filhos)
    }

    /// Whether the value is one that a document can hold.
    pub fn eh_valido(&self) -> (b: bool)
        ensures
            b == self@.valido(),
    {
        texto_valido(&self.codigo_situacao)
    }

    /// What is decoded is a value that a document can hold.
    pub proof fn lemma_parse_valido(no: ElementoV)
        ensures
            Self::spec_parse(no) matches Ok(v) ==> v.valido(),
    {
        broadcast use lemma_aparado_idempotente;

        reveal(GrupoCofinsAliq::spec_parse);
    }

    /// What is found under each tag among the children of what was encoded: the
    /// leaf of the field of that tag.
    proof fn lemma_filhos(v: GrupoCofinsAliqV)
        ensures
            ({
                let no = v.spec_serialize();
                &&& no.filho("CST"@) == Some(ElementoV::folha("CST"@, v.codigo_situacao))
                &&& no.filho("vBC"@) == Some(folha_decimal("vBC"@, v.valor_base_calculo))
                &&& no.filho("pCOFINS"@) == Some(folha_decimal("pCOFINS"@, v.aliquota))
                &&& no.filho("vCOFINS"@) == Some(folha_decimal("vCOFINS"@, v.valor))
            }),
    {
        broadcast use grupo_busca;

        reveal(GrupoCofinsAliqV::spec_campos);
        reveal_strlit("CST");
        reveal_strlit("vBC");
        reveal_strlit("pCOFINS");
        reveal_strlit("vCOFINS");
        assert("CST"@.len() == 3 && "CST"@[0] == 'C' && "CST"@[1] == 'S' && "CST"@[2] == 'T');
        assert("vBC"@.len() == 3 && "vBC"@[0] == 'v' && "vBC"@[1] == 'B' && "vBC"@[2] == 'C');
        assert("pCOFINS"@.len() == 7 && "pCOFINS"@[0] == 'p' && "pCOFINS"@[1] == 'C'
            && "pCOFINS"@[2] == 'O' && "pCOFINS"@[3] == 'F' && "pCOFINS"@[4] == 'I'
            && "pCOFINS"@[5] == 'N' && "pCOFINS"@[6] == 'S');
        assert("vCOFINS"@.len() == 7 && "vCOFINS"@[0] == 'v' && "vCOFINS"@[1] == 'C'
            && "vCOFINS"@[2] == 'O' && "vCOFINS"@[3] == 'F' && "vCOFINS"@[4] == 'I'
            && "vCOFINS"@[5] == 'N' && "vCOFINS"@[6] == 'S');
        let f1 = {
            let f = Seq::<ElementoV>::empty();
            let f = f.push(ElementoV::folha("CST"@, v.codigo_situacao));
            let f = f.push(folha_decimal("vBC"@, v.valor_base_calculo));
            let f = f.push(folha_decimal("pCOFINS"@, v.aliquota));
            let f = f.push(folha_decimal("vCOFINS"@, v.valor));
            f
        };
        assert(v.spec_serialize().filhos == f1);
        assert(primeiro(f1, "CST"@) == Some(ElementoV::folha("CST"@, v.codigo_situacao)));
        assert(primeiro(f1, "vBC"@) == Some(folha_decimal("vBC"@, v.valor_base_calculo)));
        assert(primeiro(f1, "pCOFINS"@) == Some(folha_decimal("pCOFINS"@, v.aliquota)));
        assert(primeiro(f1, "vCOFINS"@) == Some(folha_decimal("vCOFINS"@, v.valor)));
    }

    /// Decoding what was encoded gives the value back.
    pub proof fn lemma_ida_e_volta(v: GrupoCofinsAliqV)
        requires
            v.valido(),
        ensures
            Self::spec_parse(v.spec_serialize()) == Ok::<GrupoCofinsAliqV, ErrorV>(v),
    {
        broadcast use grupo_ida_e_volta;

        reveal(GrupoCofinsAliq::spec_parse);
        Self::lemma_filhos(v);
        let no = v.spec_serialize();
        assert(spec_texto(no, "CST"@) == Ok::<Seq<char>, ErrorV>(v.codigo_situacao));
        assert(spec_decimal(no, "vBC"@) == Ok::<Decimal, ErrorV>(v.valor_base_calculo));
        assert(spec_decimal(no, "pCOFINS"@) == Ok::<Decimal, ErrorV>(v.aliquota));
        assert(spec_decimal(no, "vCOFINS"@) == Ok::<Decimal, ErrorV>(v.valor));
    }
}

} // verus!
