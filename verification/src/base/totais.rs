//! Totals of the document.

use vstd::prelude::*;
use crate::arvore::{
    anexar, lemma_primeiro_push, lemma_primeiro_vazio, primeiro, ver_elementos, Elemento,
    ElementoV,
};
use crate::base::{Error, ErrorV};
use crate::campo::{
    folha_decimal, grupo_busca, grupo_ida_e_volta, ler_decimal, por_decimal, spec_decimal,
};
use crate::escalar::Decimal;
use crate::xml::{arvore_de, escrever_xml, ler_xml, texto_xml};

verus! {

/// The totals of the document: the section `total`, whose values stand in its
/// child `ICMSTot`. They are the declared values; nothing here computes or
/// checks them.
#[derive(Debug, PartialEq, Eq, Clone, Copy, Structural)]
pub struct Totalizacao {
    /// Base of the ICMS. Tag `vBC`.
    pub valor_base_calculo: Decimal,
    /// Total of the ICMS. Tag `vICMS`.
    pub valor_icms: Decimal,
    /// Total of the products and services. Tag `vProd`.
    pub valor_produtos: Decimal,
    /// Total of the freight. Tag `vFrete`.
    pub valor_frete: Decimal,
    /// Total of the insurance. Tag `vSeg`.
    pub valor_seguro: Decimal,
    /// Total of the discounts. Tag `vDesc`.
    pub valor_desconto: Decimal,
    /// Other charges. Tag `vOutro`.
    pub valor_outros: Decimal,
    /// Total of the PIS. Tag `vPIS`.
    pub valor_pis: Decimal,
    /// Total of the COFINS. Tag `vCOFINS`.
    pub valor_cofins: Decimal,
    /// Total of the document. Tag `vNF`.
    pub valor_total: Decimal,
    /// Approximate total of the federal, state and municipal taxes. Tag
    /// `vTotTrib`.
    pub valor_aproximado_tributos: Decimal,
}

impl Totalizacao {
    /// `antes` followed by the fields of the value, in the order of the wire.
    #[verifier::opaque]
    pub open spec fn spec_campos(self, antes: Seq<ElementoV>) -> Seq<ElementoV> {
        let f = antes;
        let f = f.push(folha_decimal("vBC"@, self.valor_base_calculo));
        let f = f.push(folha_decimal("vICMS"@, self.valor_icms));
        let f = f.push(folha_decimal("vProd"@, self.valor_produtos));
        let f = f.push(folha_decimal("vFrete"@, self.valor_frete));
        let f = f.push(folha_decimal("vSeg"@, self.valor_seguro));
        let f = f.push(folha_decimal("vDesc"@, self.valor_desconto));
        let f = f.push(folha_decimal("vOutro"@, self.valor_outros));
        let f = f.push(folha_decimal("vPIS"@, self.valor_pis));
        let f = f.push(folha_decimal("vCOFINS"@, self.valor_cofins));
        let f = f.push(folha_decimal("vNF"@, self.valor_total));
        let f = f.push(folha_decimal("vTotTrib"@, self.valor_aproximado_tributos));
        f
    }

    /// The element `ICMSTot` that holds the values.
    pub open spec fn spec_serialize_icms_tot(self) -> ElementoV {
        ElementoV::grupo("ICMSTot"@, self.spec_campos(Seq::empty()))
    }

    /// What decoding the fields among the children of `no` gives: the value,
    /// or the error of the first field, in the order of the wire, that has one.
    #[verifier::opaque]
    pub open spec fn spec_parse_icms_tot(no: ElementoV) -> Result<Totalizacao, ErrorV> {
        let valor_base_calculo = spec_decimal(no, "vBC"@);
        let valor_icms = spec_decimal(no, "vICMS"@);
        let valor_produtos = spec_decimal(no, "vProd"@);
        let valor_frete = spec_decimal(no, "vFrete"@);
        let valor_seguro = spec_decimal(no, "vSeg"@);
        let valor_desconto = spec_decimal(no, "vDesc"@);
        let valor_outros = spec_decimal(no, "vOutro"@);
        let valor_pis = spec_decimal(no, "vPIS"@);
        let valor_cofins = spec_decimal(no, "vCOFINS"@);
        let valor_total = spec_decimal(no, "vNF"@);
        let valor_aproximado_tributos = spec_decimal(no, "vTotTrib"@);
        if valor_base_calculo is Err {
            Err(valor_base_calculo->Err_0)
        } else if valor_icms is Err {
            Err(valor_icms->Err_0)
        } else if valor_produtos is Err {
            Err(valor_produtos->Err_0)
        } else if valor_frete is Err {
            Err(valor_frete->Err_0)
        } else if valor_seguro is Err {
            Err(valor_seguro->Err_0)
        } else if valor_desconto is Err {
            Err(valor_desconto->Err_0)
        } else if valor_outros is Err {
            Err(valor_outros->Err_0)
        } else if valor_pis is Err {
            Err(valor_pis->Err_0)
        } else if valor_cofins is Err {
            Err(valor_cofins->Err_0)
        } else if valor_total is Err {
            Err(valor_total->Err_0)
        } else if valor_aproximado_tributos is Err {
            Err(valor_aproximado_tributos->Err_0)
        } else {
            Ok(
                Totalizacao {
                    valor_base_calculo: valor_base_calculo->Ok_0,
                    valor_icms: valor_icms->Ok_0,
                    valor_produtos: valor_produtos->Ok_0,
                    valor_frete: valor_frete->Ok_0,
                    valor_seguro: valor_seguro->Ok_0,
                    valor_desconto: valor_desconto->Ok_0,
                    valor_outros: valor_outros->Ok_0,
                    valor_pis: valor_pis->Ok_0,
                    valor_cofins: valor_cofins->Ok_0,
                    valor_total: valor_total->Ok_0,
                    valor_aproximado_tributos: valor_aproximado_tributos->Ok_0,
                },
            )
        }
    }

    /// What decoding the mandatory child of `no` named `tag` gives.
    pub open spec fn spec_parse_em_icms_tot(no: ElementoV, tag: Seq<char>) -> Result<
        Totalizacao,
        ErrorV,
    > {
        match no.filho(tag) {
            None => Err(ErrorV::CampoAusente(tag)),
            Some(f) => Self::spec_parse_icms_tot(f),
        }
    }

    /// Decodes the values from the children of `no`, the element `ICMSTot`.
    pub fn parse_icms_tot(no: &Elemento) -> (r: Result<Totalizacao, Error>)
        ensures
            r matches Ok(v) ==> Self::spec_parse_icms_tot(no@) == Ok::<Totalizacao, ErrorV>(v),
            r matches Err(e) ==> Self::spec_parse_icms_tot(no@) == Err::<Totalizacao, ErrorV>(e@),
    {
        proof {
            reveal(Totalizacao::spec_parse_icms_tot);
        }
        let valor_base_calculo = ler_decimal(no, "vBC")?;
        let valor_icms = ler_decimal(no, "vICMS")?;
        let valor_produtos = ler_decimal(no, "vProd")?;
        let valor_frete = ler_decimal(no, "vFrete")?;
        let valor_seguro = ler_decimal(no, "vSeg")?;
        let valor_desconto = ler_decimal(no, "vDesc")?;
        let valor_outros = ler_decimal(no, "vOutro")?;
        let valor_pis = ler_decimal(no, "vPIS")?;
        let valor_cofins = ler_decimal(no, "vCOFINS")?;
        let valor_total = ler_decimal(no, "vNF")?;
        let valor_aproximado_tributos = ler_decimal(no, "vTotTrib")?;
        Ok(
            Totalizacao {
                valor_base_calculo,
                valor_icms,
                valor_produtos,
                valor_frete,
                valor_seguro,
                valor_desconto,
                valor_outros,
                valor_pis,
                valor_cofins,
                valor_total,
                valor_aproximado_tributos,
            },
        )
    }

    /// Decodes the value from the mandatory child of `no` named `tag`.
    pub fn parse_em_icms_tot(no: &Elemento, tag: &str) -> (r: Result<Totalizacao, Error>)
        ensures
            r matches Ok(v) ==> Self::spec_parse_em_icms_tot(no@, tag@)
                == Ok::<Totalizacao, ErrorV>(v),
            r matches Err(e) ==> Self::spec_parse_em_icms_tot(no@, tag@)
                == Err::<Totalizacao, ErrorV>(e@),
    {
        match no.filho(tag) {
            None => Err(Error::CampoAusente(tag.to_owned())),
            Some(f) => Self::parse_icms_tot(f),
        }
    }

    /// Appends the fields of the value to `filhos`, in the order of the wire.
    pub fn por_campos(&self, filhos: &mut Vec<Elemento>)
        ensures
            ver_elementos(final(filhos)@) == self.spec_campos(ver_elementos(old(filhos)@)),
    {
        proof {
            reveal(Totalizacao::spec_campos);
        }
        por_decimal(filhos, "vBC", self.valor_base_calculo);
        por_decimal(filhos, "vICMS", self.valor_icms);
        por_decimal(filhos, "vProd", self.valor_produtos);
        por_decimal(filhos, "vFrete", self.valor_frete);
        por_decimal(filhos, "vSeg", self.valor_seguro);
        por_decimal(filhos, "vDesc", self.valor_desconto);
        por_decimal(filhos, "vOutro", self.valor_outros);
        por_decimal(filhos, "vPIS", self.valor_pis);
        por_decimal(filhos, "vCOFINS", self.valor_cofins);
        por_decimal(filhos, "vNF", self.valor_total);
        por_decimal(filhos, "vTotTrib", self.valor_aproximado_tributos);
    }

    /// Encodes the values as the element `ICMSTot`.
    pub fn serialize_icms_tot(&self) -> (r: Elemento)
        ensures
            r@ == self.spec_serialize_icms_tot(),
    {
        let mut filhos: Vec<Elemento> = Vec::new();
        self.por_campos(&mut filhos);
        Elemento::grupo("ICMSTot", filhos)
    }

    /// What is found under each tag among the children of what was encoded: the
    /// leaf of the field of that tag.
    proof fn lemma_filhos(v: Totalizacao)
        ensures
            ({
                let no = v.spec_serialize_icms_tot();
                &&& no.filho("vBC"@) == Some(folha_decimal("vBC"@, v.valor_base_calculo))
                &&& no.filho("vICMS"@) == Some(folha_decimal("vICMS"@, v.valor_icms))
                &&& no.filho("vProd"@) == Some(folha_decimal("vProd"@, v.valor_produtos))
                &&& no.filho("vFrete"@) == Some(folha_decimal("vFrete"@, v.valor_frete))
                &&& no.filho("vSeg"@) == Some(folha_decimal("vSeg"@, v.valor_seguro))
                &&& no.filho("vDesc"@) == Some(folha_decimal("vDesc"@, v.valor_desconto))
                &&& no.filho("vOutro"@) == Some(folha_decimal("vOutro"@, v.valor_outros))
                &&& no.filho("vPIS"@) == Some(folha_decimal("vPIS"@, v.valor_pis))
                &&& no.filho("vCOFINS"@) == Some(folha_decimal("vCOFINS"@, v.valor_cofins))
                &&& no.filho("vNF"@) == Some(folha_decimal("vNF"@, v.valor_total))
                &&& no.filho("vTotTrib"@)
                    == Some(folha_decimal("vTotTrib"@, v.valor_aproximado_tributos))
            }),
    {
        broadcast use grupo_busca;

        reveal(Totalizacao::spec_campos);
        reveal_strlit("vBC");
        reveal_strlit("vICMS");
        reveal_strlit("vProd");
        reveal_strlit("vFrete");
        reveal_strlit("vSeg");
        reveal_strlit("vDesc");
        reveal_strlit("vOutro");
        reveal_strlit("vPIS");
        reveal_strlit("vCOFINS");
        reveal_strlit("vNF");
        reveal_strlit("vTotTrib");
        assert("vBC"@.len() == 3 && "vBC"@[0] == 'v' && "vBC"@[1] == 'B' && "vBC"@[2] == 'C');
        assert("vICMS"@.len() == 5 && "vICMS"@[0] == 'v' && "vICMS"@[1] == 'I'
            && "vICMS"@[2] == 'C' && "vICMS"@[3] == 'M' && "vICMS"@[4] == 'S');
        assert("vProd"@.len() == 5 && "vProd"@[0] == 'v' && "vProd"@[1] == 'P'
            && "vProd"@[2] == 'r' && "vProd"@[3] == 'o' && "vProd"@[4] == 'd');
        assert("vFrete"@.len() == 6 && "vFrete"@[0] == 'v' && "vFrete"@[1] == 'F'
            && "vFrete"@[2] == 'r' && "vFrete"@[3] == 'e' && "vFrete"@[4] == 't'
            && "vFrete"@[5] == 'e');
        assert("vSeg"@.len() == 4 && "vSeg"@[0] == 'v' && "vSeg"@[1] == 'S' && "vSeg"@[2] == 'e'
            && "vSeg"@[3] == 'g');
        assert("vDesc"@.len() == 5 && "vDesc"@[0] == 'v' && "vDesc"@[1] == 'D'
            && "vDesc"@[2] == 'e' && "vDesc"@[3] == 's' && "vDesc"@[4] == 'c');
        assert("vOutro"@.len() == 6 && "vOutro"@[0] == 'v' && "vOutro"@[1] == 'O'
            && "vOutro"@[2] == 'u' && "vOutro"@[3] == 't' && "vOutro"@[4] == 'r'
            && "vOutro"@[5] == 'o');
        assert("vPIS"@.len() == 4 && "vPIS"@[0] == 'v' && "vPIS"@[1] == 'P' && "vPIS"@[2] == 'I'
            && "vPIS"@[3] == 'S');
        assert("vCOFINS"@.len() == 7 && "vCOFINS"@[0] == 'v' && "vCOFINS"@[1] == 'C'
            && "vCOFINS"@[2] == 'O' && "vCOFINS"@[3] == 'F' && "vCOFINS"@[4] == 'I'
            && "vCOFINS"@[5] == 'N' && "vCOFINS"@[6] == 'S');
        assert("vNF"@.len() == 3 && "vNF"@[0] == 'v' && "vNF"@[1] == 'N' && "vNF"@[2] == 'F');
        assert("vTotTrib"@.len() == 8 && "vTotTrib"@[0] == 'v' && "vTotTrib"@[1] == 'T'
            && "vTotTrib"@[2] == 'o' && "vTotTrib"@[3] == 't' && "vTotTrib"@[4] == 'T'
            && "vTotTrib"@[5] == 'r' && "vTotTrib"@[6] == 'i');
        let f1 = {
            let f = Seq::<ElementoV>::empty();
            let f = f.push(folha_decimal("vBC"@, v.valor_base_calculo));
            let f = f.push(folha_decimal("vICMS"@, v.valor_icms));
            let f = f.push(folha_decimal("vProd"@, v.valor_produtos));
            let f = f.push(folha_decimal("vFrete"@, v.valor_frete));
            let f = f.push(folha_decimal("vSeg"@, v.valor_seguro));
            f
        };
        let f2 = {
            let f = f1;
            let f = f.push(folha_decimal("vDesc"@, v.valor_desconto));
            let f = f.push(folha_decimal("vOutro"@, v.valor_outros));
            let f = f.push(folha_decimal("vPIS"@, v.valor_pis));
            let f = f.push(folha_decimal("vCOFINS"@, v.valor_cofins));
            let f = f.push(folha_decimal("vNF"@, v.valor_total));
            f
        };
        let f3 = {
            let f = f2;
            let f = f.push(folha_decimal("vTotTrib"@, v.valor_aproximado_tributos));
            f
        };
        assert(v.spec_serialize_icms_tot().filhos == f3);
        assert(primeiro(f1, "vBC"@) == Some(folha_decimal("vBC"@, v.valor_base_calculo)));
        assert(primeiro(f2, "vBC"@) == Some(folha_decimal("vBC"@, v.valor_base_calculo)));
        assert(primeiro(f3, "vBC"@) == Some(folha_decimal("vBC"@, v.valor_base_calculo)));
        assert(primeiro(f1, "vICMS"@) == Some(folha_decimal("vICMS"@, v.valor_icms)));
        assert(primeiro(f2, "vICMS"@) == Some(folha_decimal("vICMS"@, v.valor_icms)));
        assert(primeiro(f3, "vICMS"@) == Some(folha_decimal("vICMS"@, v.valor_icms)));
        assert(primeiro(f1, "vProd"@) == Some(folha_decimal("vProd"@, v.valor_produtos)));
        assert(primeiro(f2, "vProd"@) == Some(folha_decimal("vProd"@, v.valor_produtos)));
        assert(primeiro(f3, "vProd"@) == Some(folha_decimal("vProd"@, v.valor_produtos)));
        assert(primeiro(f1, "vFrete"@) == Some(folha_decimal("vFrete"@, v.valor_frete)));
        assert(primeiro(f2, "vFrete"@) == Some(folha_decimal("vFrete"@, v.valor_frete)));
        assert(primeiro(f3, "vFrete"@) == Some(folha_decimal("vFrete"@, v.valor_frete)));
        assert(primeiro(f1, "vSeg"@) == Some(folha_decimal("vSeg"@, v.valor_seguro)));
        assert(primeiro(f2, "vSeg"@) == Some(folha_decimal("vSeg"@, v.valor_seguro)));
        assert(primeiro(f3, "vSeg"@) == Some(folha_decimal("vSeg"@, v.valor_seguro)));
        assert(primeiro(f1, "vDesc"@) is None);
        assert(primeiro(f2, "vDesc"@) == Some(folha_decimal("vDesc"@, v.valor_desconto)));
        assert(primeiro(f3, "vDesc"@) == Some(folha_decimal("vDesc"@, v.valor_desconto)));
        assert(primeiro(f1, "vOutro"@) is None);
        assert(primeiro(f2, "vOutro"@) == Some(folha_decimal("vOutro"@, v.valor_outros)));
        assert(primeiro(f3, "vOutro"@) == Some(folha_decimal("vOutro"@, v.valor_outros)));
        assert(primeiro(f1, "vPIS"@) is None);
        assert(primeiro(f2, "vPIS"@) == Some(folha_decimal("vPIS"@, v.valor_pis)));
        assert(primeiro(f3, "vPIS"@) == Some(folha_decimal("vPIS"@, v.valor_pis)));
        assert(primeiro(f1, "vCOFINS"@) is None);
        assert(primeiro(f2, "vCOFINS"@) == Some(folha_decimal("vCOFINS"@, v.valor_cofins)));
        assert(primeiro(f3, "vCOFINS"@) == Some(folha_decimal("vCOFINS"@, v.valor_cofins)));
        assert(primeiro(f1, "vNF"@) is None);
        assert(primeiro(f2, "vNF"@) == Some(folha_decimal("vNF"@, v.valor_total)));
        assert(primeiro(f3, "vNF"@) == Some(folha_decimal("vNF"@, v.valor_total)));
        assert(primeiro(f1, "vTotTrib"@) is None);
        assert(primeiro(f2, "vTotTrib"@) is None);
        assert(primeiro(f3, "vTotTrib"@)
            == Some(folha_decimal("vTotTrib"@, v.valor_aproximado_tributos)));
    }

    /// Decoding the element `ICMSTot` of what was encoded gives the value back.
    proof fn lemma_ida_e_volta_icms_tot(v: Totalizacao)
        ensures
            Self::spec_parse_icms_tot(v.spec_serialize_icms_tot()) == Ok::<Totalizacao, ErrorV>(v),
    {
        broadcast use grupo_ida_e_volta;

        reveal(Totalizacao::spec_parse_icms_tot);
        Self::lemma_filhos(v);
        let no = v.spec_serialize_icms_tot();
        assert(spec_decimal(no, "vBC"@) == Ok::<Decimal, ErrorV>(v.valor_base_calculo));
        assert(spec_decimal(no, "vICMS"@) == Ok::<Decimal, ErrorV>(v.valor_icms));
        assert(spec_decimal(no, "vProd"@) == Ok::<Decimal, ErrorV>(v.valor_produtos));
        assert(spec_decimal(no, "vFrete"@) == Ok::<Decimal, ErrorV>(v.valor_frete));
        assert(spec_decimal(no, "vSeg"@) == Ok::<Decimal, ErrorV>(v.valor_seguro));
        assert(spec_decimal(no, "vDesc"@) == Ok::<Decimal, ErrorV>(v.valor_desconto));
        assert(spec_decimal(no, "vOutro"@) == Ok::<Decimal, ErrorV>(v.valor_outros));
        assert(spec_decimal(no, "vPIS"@) == Ok::<Decimal, ErrorV>(v.valor_pis));
        assert(spec_decimal(no, "vCOFINS"@) == Ok::<Decimal, ErrorV>(v.valor_cofins));
        assert(spec_decimal(no, "vNF"@) == Ok::<Decimal, ErrorV>(v.valor_total));
        assert(spec_decimal(no, "vTotTrib"@) == Ok::<Decimal, ErrorV>(v.valor_aproximado_tributos));
    }

    /// The element `total` that encodes the totals: it holds `ICMSTot` and
    /// nothing else.
    pub open spec fn spec_serialize(self) -> ElementoV {
        let f = Seq::<ElementoV>::empty();
        let f = f.push(self.spec_serialize_icms_tot());
        ElementoV::grupo("total"@, f)
    }

    /// What decoding the element `total` gives: what its child `ICMSTot`
    /// holds, which is mandatory.
    pub open spec fn spec_parse(no: ElementoV) -> Result<Totalizacao, ErrorV> {
        Self::spec_parse_em_icms_tot(no, "ICMSTot"@)
    }

    /// What decoding the mandatory child of `no` named `tag` gives.
    pub open spec fn spec_parse_em(no: ElementoV, tag: Seq<char>) -> Result<Totalizacao, ErrorV> {
        match no.filho(tag) {
            None => Err(ErrorV::CampoAusente(tag)),
            Some(f) => Self::spec_parse(f),
        }
    }

    /// Decodes the totals from the element `total`.
    pub fn parse(no: &Elemento) -> (r: Result<Totalizacao, Error>)
        ensures
            r matches Ok(v) ==> Self::spec_parse(no@) == Ok::<Totalizacao, ErrorV>(v),
            r matches Err(e) ==> Self::spec_parse(no@) == Err::<Totalizacao, ErrorV>(e@),
    {
        Self::parse_em_icms_tot(no, "ICMSTot")
    }

    /// Decodes the totals from the mandatory child of `no` named `tag`.
    pub fn parse_em(no: &Elemento, tag: &str) -> (r: Result<Totalizacao, Error>)
        ensures
            r matches Ok(v) ==> Self::spec_parse_em(no@, tag@) == Ok::<Totalizacao, ErrorV>(v),
            r matches Err(e) ==> Self::spec_parse_em(no@, tag@) == Err::<Totalizacao, ErrorV>(e@),
    {
        match no.filho(tag) {
            None => Err(Error::CampoAusente(tag.to_owned())),
            Some(f) => Self::parse(f),
        }
    }

    /// Encodes the totals as the element `total`.
    pub fn serialize(&self) -> (r: Elemento)
        ensures
            r@ == self.spec_serialize(),
    {
        let mut filhos: Vec<Elemento> = Vec::new();
        anexar(&mut filhos, self.serialize_icms_tot());
        Elemento::grupo("total", filhos)
    }

    /// What reading the text `s` gives: what decoding its root element gives,
    /// where the text is a tree of elements.
    pub open spec fn spec_from_str(s: Seq<char>) -> Result<Totalizacao, ErrorV> {
        match arvore_de(s) {
            None => Err(ErrorV::Xml),
            Some(no) => Self::spec_parse(no),
        }
    }

    /// Reads the totals from a text, whose root element is the section.
    pub fn from_str(s: &str) -> (r: Result<Totalizacao, Error>)
        ensures
            r matches Ok(v) ==> Self::spec_from_str(s@) == Ok::<Totalizacao, ErrorV>(v),
            r matches Err(e) ==> Self::spec_from_str(s@) == Err::<Totalizacao, ErrorV>(e@),
    {
        let no = ler_xml(s)?;
        Self::parse(&no)
    }

    /// Writes the totals as text.
    pub fn to_string(&self) -> (r: String)
        ensures
            r@ == texto_xml(self.spec_serialize()),
    {
        escrever_xml(&self.serialize())
    }

    /// Decoding what was encoded gives the totals back.
    pub proof fn lemma_ida_e_volta(v: Totalizacao)
        ensures
            Self::spec_parse(v.spec_serialize()) == Ok::<Totalizacao, ErrorV>(v),
    {
        broadcast use {lemma_primeiro_vazio, lemma_primeiro_push};

        reveal_strlit("ICMSTot");
        assert("ICMSTot"@.len() == 7);
        Self::lemma_ida_e_volta_icms_tot(v);
        assert(v.spec_serialize().filho("ICMSTot"@) == Some(v.spec_serialize_icms_tot()));
    }
}

} // verus!
