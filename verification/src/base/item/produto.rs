//! Product of a line item.

use vstd::prelude::*;
use crate::arvore::{acrescido, primeiro, ver_elementos, Elemento, ElementoV};
use crate::base::{Error, ErrorV};
use crate::campo::{
    folha_booleano, folha_codigo_opcional, folha_decimal, folha_decimal_opcional, folha_gtin,
    folha_opcional, grupo_busca, grupo_ida_e_volta, gtin_valido, ler_booleano, ler_codigo_opcional,
    ler_decimal, ler_decimal_opcional, ler_gtin, ler_texto, ler_texto_opcional, por_booleano,
    por_codigo_opcional, por_decimal, por_decimal_opcional, por_gtin, por_texto,
    por_texto_opcional, spec_booleano, spec_codigo_opcional, spec_decimal, spec_decimal_opcional,
    spec_gtin, spec_texto, spec_texto_opcional, texto_opcional_valido, texto_valido,
};
use crate::codigo::Codigo;
use crate::escalar::{sem_gtin, Decimal};
use crate::texto::{aparado, lemma_aparado_idempotente};
use crate::xml::{arvore_de, escrever_xml, ler_xml, texto_xml};

verus! {

/// The product of a line item: the section `prod`.
#[derive(Debug, PartialEq, Eq, Clone)]
pub struct Produto {
    /// Code of the product. Tag `cProd`.
    pub codigo: String,
    /// GTIN of the product, its barcode. Tag `cEAN`.
    pub gtin: Option<String>,
    /// Description. Tag `xProd`.
    pub descricao: String,
    /// NCM, the fiscal classification of the goods. Tag `NCM`.
    pub ncm: String,
    /// Identifier of the manufacturer. Tag `CNPJFab`.
    pub fabricante_cnpj: Option<String>,
    /// What the taxation needs to know of the product.
    pub tributacao: ProdutoTributacao,
    /// Commercial unit. Tag `uCom`.
    pub unidade: String,
    /// Commercial quantity. Tag `qCom`.
    pub quantidade: Decimal,
    /// Unit price. Tag `vUnCom`.
    pub valor_unitario: Decimal,
    /// Gross value, ICMS included. Tag `vProd`.
    pub valor_bruto: Decimal,
    /// Freight. Tag `vFrete`.
    pub valor_frete: Option<Decimal>,
    /// Insurance. Tag `vSeg`.
    pub valor_seguro: Option<Decimal>,
    /// Discount. Tag `vDesc`.
    pub valor_desconto: Option<Decimal>,
    /// Other charges. Tag `vOutro`.
    pub valor_outros: Option<Decimal>,
    /// Whether the gross value counts in the total of the document. Tag
    /// `indTot`, the digit `1` or `0`.
    pub valor_compoe_total_nota: bool,
}

/// The mathematical value of a [`Produto`].
pub ghost struct ProdutoV {
    pub codigo: Seq<char>,
    pub gtin: Option<Seq<char>>,
    pub descricao: Seq<char>,
    pub ncm: Seq<char>,
    pub fabricante_cnpj: Option<Seq<char>>,
    pub tributacao: ProdutoTributacaoV,
    pub unidade: Seq<char>,
    pub quantidade: Decimal,
    pub valor_unitario: Decimal,
    pub valor_bruto: Decimal,
    pub valor_frete: Option<Decimal>,
    pub valor_seguro: Option<Decimal>,
    pub valor_desconto: Option<Decimal>,
    pub valor_outros: Option<Decimal>,
    pub valor_compoe_total_nota: bool,
}

impl View for Produto {
    type V = ProdutoV;

    open spec fn view(&self) -> ProdutoV {
        ProdutoV {
            codigo: self.codigo@,
            gtin: self.gtin.deep_view(),
            descricao: self.descricao@,
            ncm: self.ncm@,
            fabricante_cnpj: self.fabricante_cnpj.deep_view(),
            tributacao: self.tributacao@,
            unidade: self.unidade@,
            quantidade: self.quantidade,
            valor_unitario: self.valor_unitario,
            valor_bruto: self.valor_bruto,
            valor_frete: self.valor_frete,
            valor_seguro: self.valor_seguro,
            valor_desconto: self.valor_desconto,
            valor_outros: self.valor_outros,
            valor_compoe_total_nota: self.valor_compoe_total_nota,
        }
    }
}

/// What the taxation of a product needs to know of it. On the wire these
/// fields stand among those of the product.
#[derive(Debug, PartialEq, Eq, Clone)]
pub struct ProdutoTributacao {
    /// CEST, the code that specifies the tax substitution. Tag `CEST`.
    pub cest: Option<String>,
    /// Whether the product is made on a relevant scale. Tag `indEscala`.
    pub escala_relevante: Option<EscalaRelevante>,
    /// Code of the tax relief granted by the state. Tag `cBenef`.
    pub codigo_beneficio_fiscal: Option<String>,
    /// Exception code of the IPI table. Tag `EXTIPI`.
    pub codigo_excecao_ipi: Option<String>,
    /// CFOP, the fiscal code of the operation. Tag `CFOP`.
    pub cfop: String,
    /// GTIN of the taxable unit. Tag `cEANTrib`.
    pub gtin: Option<String>,
    /// Taxable unit. Tag `uTrib`.
    pub unidade: String,
    /// Taxable quantity. Tag `qTrib`.
    pub quantidade: Decimal,
    /// Unit price for taxation. Tag `vUnTrib`.
    pub valor_unitario: Decimal,
}

/// The mathematical value of a [`ProdutoTributacao`].
pub ghost struct ProdutoTributacaoV {
    pub cest: Option<Seq<char>>,
    pub escala_relevante: Option<EscalaRelevante>,
    pub codigo_beneficio_fiscal: Option<Seq<char>>,
    pub codigo_excecao_ipi: Option<Seq<char>>,
    pub cfop: Seq<char>,
    pub gtin: Option<Seq<char>>,
    pub unidade: Seq<char>,
    pub quantidade: Decimal,
    pub valor_unitario: Decimal,
}

impl View for ProdutoTributacao {
    type V = ProdutoTributacaoV;

    open spec fn view(&self) -> ProdutoTributacaoV {
        ProdutoTributacaoV {
            cest: self.cest.deep_view(),
            escala_relevante: self.escala_relevante,
            codigo_beneficio_fiscal: self.codigo_beneficio_fiscal.deep_view(),
            codigo_excecao_ipi: self.codigo_excecao_ipi.deep_view(),
            cfop: self.cfop@,
            gtin: self.gtin.deep_view(),
            unidade: self.unidade@,
            quantidade: self.quantidade,
            valor_unitario: self.valor_unitario,
        }
    }
}

/// Whether the product is made on a relevant scale.
#[derive(Debug, Eq, PartialEq, Copy, Clone, Structural)]
pub enum EscalaRelevante {
    /// It is. Code 1.
    Sim,
    /// It is not. Code 2.
    Nao,
}

impl Codigo for EscalaRelevante {
    open spec fn codigo_spec(self) -> u8 {
        match self {
            EscalaRelevante::Sim => 1,
            EscalaRelevante::Nao => 2,
        }
    }

    open spec fn de_codigo_spec(codigo: u8) -> Option<Self> {
        match codigo {
            1 => Some(EscalaRelevante::Sim),
            2 => Some(EscalaRelevante::Nao),
            _ => None,
        }
    }

    fn codigo(&self) -> (c: u8) {
        match self {
            EscalaRelevante::Sim => 1,
            EscalaRelevante::Nao => 2,
        }
    }

    fn de_codigo(codigo: u8) -> (v: Option<Self>) {
        match codigo {
            1 => Some(EscalaRelevante::Sim),
            2 => Some(EscalaRelevante::Nao),
            _ => None,
        }
    }

    proof fn lemma_codigo_ida_e_volta(v: Self) {
    }

    proof fn lemma_codigo_unico(codigo: u8) {
    }
}

impl ProdutoTributacaoV {
    /// Whether the value is one that a document can hold: its texts are
    /// trimmed and a barcode is not the phrase for a missing one.
    pub open spec fn valido(self) -> bool {
        &&& (self.cest matches Some(t) ==> aparado(t) == t)
        &&& (self.codigo_beneficio_fiscal matches Some(t) ==> aparado(t) == t)
        &&& (self.codigo_excecao_ipi matches Some(t) ==> aparado(t) == t)
        &&& aparado(self.cfop) == self.cfop
        &&& (self.gtin matches Some(s) ==> !sem_gtin(s))
        &&& aparado(self.unidade) == self.unidade
    }

    /// `antes` followed by the fields of the value, in the order of the wire.
    #[verifier::opaque]
    pub open spec fn spec_campos(self, antes: Seq<ElementoV>) -> Seq<ElementoV> {
        let f = antes;
        let f = acrescido(f, folha_opcional("CEST"@, self.cest));
        let f = acrescido(f, folha_codigo_opcional("indEscala"@, self.escala_relevante));
        let f = acrescido(f, folha_opcional("cBenef"@, self.codigo_beneficio_fiscal));
        let f = acrescido(f, folha_opcional("EXTIPI"@, self.codigo_excecao_ipi));
        let f = f.push(ElementoV::folha("CFOP"@, self.cfop));
        let f = f.push(folha_gtin("cEANTrib"@, self.gtin));
        let f = f.push(ElementoV::folha("uTrib"@, self.unidade));
        let f = f.push(folha_decimal("qTrib"@, self.quantidade));
        let f = f.push(folha_decimal("vUnTrib"@, self.valor_unitario));
        f
    }
}

impl ProdutoTributacao {
    /// What decoding the fields among the children of `no` gives: the value,
    /// or the error of the first field, in the order of the wire, that has one.
    #[verifier::opaque]
    pub open spec fn spec_parse(no: ElementoV) -> Result<ProdutoTributacaoV, ErrorV> {
        let cest = spec_texto_opcional(no, "CEST"@);
        let escala_relevante = spec_codigo_opcional::<EscalaRelevante>(no, "indEscala"@);
        let codigo_beneficio_fiscal = spec_texto_opcional(no, "cBenef"@);
        let codigo_excecao_ipi = spec_texto_opcional(no, "EXTIPI"@);
        let cfop = spec_texto(no, "CFOP"@);
        let gtin = spec_gtin(no, "cEANTrib"@);
        let unidade = spec_texto(no, "uTrib"@);
        let quantidade = spec_decimal(no, "qTrib"@);
        let valor_unitario = spec_decimal(no, "vUnTrib"@);
        if escala_relevante is Err {
            Err(escala_relevante->Err_0)
        } else if cfop is Err {
            Err(cfop->Err_0)
        } else if gtin is Err {
            Err(gtin->Err_0)
        } else if unidade is Err {
            Err(unidade->Err_0)
        } else if quantidade is Err {
            Err(quantidade->Err_0)
        } else if valor_unitario is Err {
            Err(valor_unitario->Err_0)
        } else {
            Ok(
                ProdutoTributacaoV {
                    cest,
                    escala_relevante: escala_relevante->Ok_0,
                    codigo_beneficio_fiscal,
                    codigo_excecao_ipi,
                    cfop: cfop->Ok_0,
                    gtin: gtin->Ok_0,
                    unidade: unidade->Ok_0,
                    quantidade: quantidade->Ok_0,
                    valor_unitario: valor_unitario->Ok_0,
                },
            )
        }
    }

    /// Decodes the value from the children of `no`.
    pub fn parse(no: &Elemento) -> (r: Result<ProdutoTributacao, Error>)
        ensures
            r matches Ok(v) ==> Self::spec_parse(no@) == Ok::<ProdutoTributacaoV, ErrorV>(v@),
            r matches Err(e) ==> Self::spec_parse(no@) == Err::<ProdutoTributacaoV, ErrorV>(e@),
            r matches Ok(v) ==> v@.valido(),
    {
        proof {
            reveal(ProdutoTributacao::spec_parse);
            Self::lemma_parse_valido(no@);
        }
        let cest = ler_texto_opcional(no, "CEST");
        let escala_relevante = ler_codigo_opcional::<EscalaRelevante>(no, "indEscala")?;
        let codigo_beneficio_fiscal = ler_texto_opcional(no, "cBenef");
        let codigo_excecao_ipi = ler_texto_opcional(no, "EXTIPI");
        let cfop = ler_texto(no, "CFOP")?;
        let gtin = ler_gtin(no, "cEANTrib")?;
        let unidade = ler_texto(no, "uTrib")?;
        let quantidade = ler_decimal(no, "qTrib")?;
        let valor_unitario = ler_decimal(no, "vUnTrib")?;
        Ok(
            ProdutoTributacao {
                cest,
                escala_relevante,
                codigo_beneficio_fiscal,
                codigo_excecao_ipi,
                cfop,
                gtin,
                unidade,
                quantidade,
                valor_unitario,
            },
        )
    }

    /// Appends the fields of the value to `filhos`, in the order of the wire.
    pub fn por_campos(&self, filhos: &mut Vec<Elemento>)
        ensures
            ver_elementos(final(filhos)@) == self@.spec_campos(ver_elementos(old(filhos)@)),
    {
        proof {
            reveal(ProdutoTributacaoV::spec_campos);
        }
        por_texto_opcional(filhos, "CEST", &self.cest);
        por_codigo_opcional(filhos, "indEscala", &self.escala_relevante);
        por_texto_opcional(filhos, "cBenef", &self.codigo_beneficio_fiscal);
        por_texto_opcional(filhos, "EXTIPI", &self.codigo_excecao_ipi);
        por_texto(filhos, "CFOP", &self.cfop);
        por_gtin(filhos, "cEANTrib", &self.gtin);
        por_texto(filhos, "uTrib", &self.unidade);
        por_decimal(filhos, "qTrib", self.quantidade);
        por_decimal(filhos, "vUnTrib", self.valor_unitario);
    }

    /// Whether the value is one that a document can hold.
    pub fn eh_valido(&self) -> (b: bool)
        ensures
            b == self@.valido(),
    {
        texto_opcional_valido(&self.cest)
        && texto_opcional_valido(&self.codigo_beneficio_fiscal)
        && texto_opcional_valido(&self.codigo_excecao_ipi)
        && texto_valido(&self.cfop)
        && gtin_valido(&self.gtin)
        && texto_valido(&self.unidade)
    }

    /// What is decoded is a value that a document can hold.
    pub proof fn lemma_parse_valido(no: ElementoV)
        ensures
            Self::spec_parse(no) matches Ok(v) ==> v.valido(),
    {
        broadcast use lemma_aparado_idempotente;

        reveal(ProdutoTributacao::spec_parse);
    }
}

impl ProdutoV {
    /// Whether the value is one that a document can hold: its texts are
    /// trimmed and a barcode is not the phrase for a missing one.
    pub open spec fn valido(self) -> bool {
        &&& aparado(self.codigo) == self.codigo
        &&& (self.gtin matches Some(s) ==> !sem_gtin(s))
        &&& aparado(self.descricao) == self.descricao
        &&& aparado(self.ncm) == self.ncm
        &&& (self.fabricante_cnpj matches Some(t) ==> aparado(t) == t)
        &&& self.tributacao.valido()
        &&& aparado(self.unidade) == self.unidade
    }

    /// `antes` followed by the fields of the value, in the order of the wire.
    #[verifier::opaque]
    pub open spec fn spec_campos(self, antes: Seq<ElementoV>) -> Seq<ElementoV> {
        let f = antes;
        let f = f.push(ElementoV::folha("cProd"@, self.codigo));
        let f = f.push(folha_gtin("cEAN"@, self.gtin));
        let f = f.push(ElementoV::folha("xProd"@, self.descricao));
        let f = f.push(ElementoV::folha("NCM"@, self.ncm));
        let f = acrescido(f, folha_opcional("CNPJFab"@, self.fabricante_cnpj));
        let f = f.push(ElementoV::folha("uCom"@, self.unidade));
        let f = f.push(folha_decimal("qCom"@, self.quantidade));
        let f = f.push(folha_decimal("vUnCom"@, self.valor_unitario));
        let f = f.push(folha_decimal("vProd"@, self.valor_bruto));
        let f = acrescido(f, folha_decimal_opcional("vFrete"@, self.valor_frete));
        let f = acrescido(f, folha_decimal_opcional("vDesc"@, self.valor_desconto));
        let f = acrescido(f, folha_decimal_opcional("vSeg"@, self.valor_seguro));
        let f = acrescido(f, folha_decimal_opcional("vOutro"@, self.valor_outros));
        let f = f.push(folha_booleano("indTot"@, self.valor_compoe_total_nota));
        let f = self.tributacao.spec_campos(f);
        f
    }

    /// The element that encodes the value.
    pub open spec fn spec_serialize(self) -> ElementoV {
        ElementoV::grupo("prod"@, self.spec_campos(Seq::empty()))
    }
}

impl Produto {
    /// What decoding the fields among the children of `no` gives: the value,
    /// or the error of the first field, in the order of the wire, that has one.
    #[verifier::opaque]
    pub open spec fn spec_parse(no: ElementoV) -> Result<ProdutoV, ErrorV> {
        let codigo = spec_texto(no, "cProd"@);
        let gtin = spec_gtin(no, "cEAN"@);
        let descricao = spec_texto(no, "xProd"@);
        let ncm = spec_texto(no, "NCM"@);
        let fabricante_cnpj = spec_texto_opcional(no, "CNPJFab"@);
        let unidade = spec_texto(no, "uCom"@);
        let quantidade = spec_decimal(no, "qCom"@);
        let valor_unitario = spec_decimal(no, "vUnCom"@);
        let valor_bruto = spec_decimal(no, "vProd"@);
        let valor_frete = spec_decimal_opcional(no, "vFrete"@);
        let valor_desconto = spec_decimal_opcional(no, "vDesc"@);
        let valor_seguro = spec_decimal_opcional(no, "vSeg"@);
        let valor_outros = spec_decimal_opcional(no, "vOutro"@);
        let valor_compoe_total_nota = spec_booleano(no, "indTot"@);
        let tributacao = ProdutoTributacao::spec_parse(no);
        if codigo is Err {
            Err(codigo->Err_0)
        } else if gtin is Err {
            Err(gtin->Err_0)
        } else if descricao is Err {
            Err(descricao->Err_0)
        } else if ncm is Err {
            Err(ncm->Err_0)
        } else if unidade is Err {
            Err(unidade->Err_0)
        } else if quantidade is Err {
            Err(quantidade->Err_0)
        } else if valor_unitario is Err {
            Err(valor_unitario->Err_0)
        } else if valor_bruto is Err {
            Err(valor_bruto->Err_0)
        } else if valor_frete is Err {
            Err(valor_frete->Err_0)
        } else if valor_desconto is Err {
            Err(valor_desconto->Err_0)
        } else if valor_seguro is Err {
            Err(valor_seguro->Err_0)
        } else if valor_outros is Err {
            Err(valor_outros->Err_0)
        } else if valor_compoe_total_nota is Err {
            Err(valor_compoe_total_nota->Err_0)
        } else if tributacao is Err {
            Err(tributacao->Err_0)
        } else {
            Ok(
                ProdutoV {
                    codigo: codigo->Ok_0,
                    gtin: gtin->Ok_0,
                    descricao: descricao->Ok_0,
                    ncm: ncm->Ok_0,
                    fabricante_cnpj,
                    tributacao: tributacao->Ok_0,
                    unidade: unidade->Ok_0,
                    quantidade: quantidade->Ok_0,
                    valor_unitario: valor_unitario->Ok_0,
                    valor_bruto: valor_bruto->Ok_0,
                    valor_frete: valor_frete->Ok_0,
                    valor_seguro: valor_seguro->Ok_0,
                    valor_desconto: valor_desconto->Ok_0,
                    valor_outros: valor_outros->Ok_0,
                    valor_compoe_total_nota: valor_compoe_total_nota->Ok_0,
                },
            )
        }
    }

    /// What decoding the mandatory child of `no` named `tag` gives.
    pub open spec fn spec_parse_em(no: ElementoV, tag: Seq<char>) -> Result<ProdutoV, ErrorV> {
        match no.filho(tag) {
            None => Err(ErrorV::CampoAusente(tag)),
            Some(f) => Self::spec_parse(f),
        }
    }

    /// Decodes the value from the children of `no`.
    pub fn parse(no: &Elemento) -> (r: Result<Produto, Error>)
        ensures
            r matches Ok(v) ==> Self::spec_parse(no@) == Ok::<ProdutoV, ErrorV>(v@),
            r matches Err(e) ==> Self::spec_parse(no@) == Err::<ProdutoV, ErrorV>(e@),
            r matches Ok(v) ==> v@.valido(),
    {
        proof {
            reveal(Produto::spec_parse);
            Self::lemma_parse_valido(no@);
        }
        let codigo = ler_texto(no, "cProd")?;
        let gtin = ler_gtin(no, "cEAN")?;
        let descricao = ler_texto(no, "xProd")?;
        let ncm = ler_texto(no, "NCM")?;
        let fabricante_cnpj = ler_texto_opcional(no, "CNPJFab");
        let unidade = ler_texto(no, "uCom")?;
        let quantidade = ler_decimal(no, "qCom")?;
        let valor_unitario = ler_decimal(no, "vUnCom")?;
        let valor_bruto = ler_decimal(no, "vProd")?;
        let valor_frete = ler_decimal_opcional(no, "vFrete")?;
        let valor_desconto = ler_decimal_opcional(no, "vDesc")?;
        let valor_seguro = ler_decimal_opcional(no, "vSeg")?;
        let valor_outros = ler_decimal_opcional(no, "vOutro")?;
        let valor_compoe_total_nota = ler_booleano(no, "indTot")?;
        let tributacao = ProdutoTributacao::parse(no)?;
        Ok(
            Produto {
                codigo,
                gtin,
                descricao,
                ncm,
                fabricante_cnpj,
                tributacao,
                unidade,
                quantidade,
                valor_unitario,
                valor_bruto,
                valor_frete,
                valor_seguro,
                valor_desconto,
                valor_outros,
                valor_compoe_total_nota,
            },
        )
    }

    /// Decodes the value from the mandatory child of `no` named `tag`.
    pub fn parse_em(no: &Elemento, tag: &str) -> (r: Result<Produto, Error>)
        ensures
            r matches Ok(v) ==> Self::spec_parse_em(no@, tag@) == Ok::<ProdutoV, ErrorV>(v@),
            r matches Err(e) ==> Self::spec_parse_em(no@, tag@) == Err::<ProdutoV, ErrorV>(e@),
            r matches Ok(v) ==> v@.valido(),
    {
        match no.filho(tag) {
            None => Err(Error::CampoAusente(tag.to_owned())),
            Some(f) => Self::parse(f),
        }
    }

    /// Appends the fields of the value to `filhos`, in the order of the wire.
    pub fn por_campos(&self, filhos: &mut Vec<Elemento>)
        ensures
            ver_elementos(final(filhos)@) == self@.spec_campos(ver_elementos(old(filhos)@)),
    {
        proof {
            reveal(ProdutoV::spec_campos);
        }
        por_texto(filhos, "cProd", &self.codigo);
        por_gtin(filhos, "cEAN", &self.gtin);
        por_texto(filhos, "xProd", &self.descricao);
        por_texto(filhos, "NCM", &self.ncm);
        por_texto_opcional(filhos, "CNPJFab", &self.fabricante_cnpj);
        por_texto(filhos, "uCom", &self.unidade);
        por_decimal(filhos, "qCom", self.quantidade);
        por_decimal(filhos, "vUnCom", self.valor_unitario);
        por_decimal(filhos, "vProd", self.valor_bruto);
        por_decimal_opcional(filhos, "vFrete", self.valor_frete);
        por_decimal_opcional(filhos, "vDesc", self.valor_desconto);
        por_decimal_opcional(filhos, "vSeg", self.valor_seguro);
        por_decimal_opcional(filhos, "vOutro", self.valor_outros);
        por_booleano(filhos, "indTot", self.valor_compoe_total_nota);
        self.tributacao.por_campos(filhos);
    }

    /// Encodes the value as an element.
    pub fn serialize(&self) -> (r: Elemento)
        ensures
            r@ == self@.spec_serialize(),
    {
        let mut filhos: Vec<Elemento> = Vec::new();
        self.por_campos(&mut filhos);
        Elemento::grupo("prod", filhos)
    }

    /// Whether the value is one that a document can hold.
    pub fn eh_valido(&self) -> (b: bool)
        ensures
            b == self@.valido(),
    {
        texto_valido(&self.codigo)
        && gtin_valido(&self.gtin)
        && texto_valido(&self.descricao)
        && texto_valido(&self.ncm)
        && texto_opcional_valido(&self.fabricante_cnpj)
        && self.tributacao.eh_valido()
        && texto_valido(&self.unidade)
    }

    /// What is decoded is a value that a document can hold.
    pub proof fn lemma_parse_valido(no: ElementoV)
        ensures
            Self::spec_parse(no) matches Ok(v) ==> v.valido(),
    {
        broadcast use lemma_aparado_idempotente;

        reveal(Produto::spec_parse);

        ProdutoTributacao::lemma_parse_valido(no);
    }

    /// What reading the text `s` gives: what decoding its root element gives,
    /// where the text is a tree of elements.
    pub open spec fn spec_from_str(s: Seq<char>) -> Result<ProdutoV, ErrorV> {
        match arvore_de(s) {
            None => Err(ErrorV::Xml),
            Some(no) => Self::spec_parse(no),
        }
    }

    /// Reads the value from a text, whose root element is the section.
    pub fn from_str(s: &str) -> (r: Result<Produto, Error>)
        ensures
            r matches Ok(v) ==> Self::spec_from_str(s@) == Ok::<ProdutoV, ErrorV>(v@),
            r matches Err(e) ==> Self::spec_from_str(s@) == Err::<ProdutoV, ErrorV>(e@),
            r matches Ok(v) ==> v@.valido(),
    {
        let no = ler_xml(s)?;
        Self::parse(&no)
    }

    /// Writes the value as text.
    pub fn to_string(&self) -> (r: String)
        ensures
            r@ == texto_xml(self@.spec_serialize()),
    {
        escrever_xml(&self.serialize())
    }

    /// What is found under each tag among the children of what was encoded: the
    /// leaf of the field of that tag.
    proof fn lemma_filhos(v: ProdutoV)
        ensures
            ({
                let no = v.spec_serialize();
                &&& no.filho("cProd"@) == Some(ElementoV::folha("cProd"@, v.codigo))
                &&& no.filho("cEAN"@) == Some(folha_gtin("cEAN"@, v.gtin))
                &&& no.filho("xProd"@) == Some(ElementoV::folha("xProd"@, v.descricao))
                &&& no.filho("NCM"@) == Some(ElementoV::folha("NCM"@, v.ncm))
                &&& no.filho("CNPJFab"@) == folha_opcional("CNPJFab"@, v.fabricante_cnpj)
                &&& no.filho("uCom"@) == Some(ElementoV::folha("uCom"@, v.unidade))
                &&& no.filho("qCom"@) == Some(folha_decimal("qCom"@, v.quantidade))
                &&& no.filho("vUnCom"@) == Some(folha_decimal("vUnCom"@, v.valor_unitario))
                &&& no.filho("vProd"@) == Some(folha_decimal("vProd"@, v.valor_bruto))
                &&& no.filho("vFrete"@) == folha_decimal_opcional("vFrete"@, v.valor_frete)
                &&& no.filho("vDesc"@) == folha_decimal_opcional("vDesc"@, v.valor_desconto)
                &&& no.filho("vSeg"@) == folha_decimal_opcional("vSeg"@, v.valor_seguro)
                &&& no.filho("vOutro"@) == folha_decimal_opcional("vOutro"@, v.valor_outros)
                &&& no.filho("indTot"@)
                    == Some(folha_booleano("indTot"@, v.valor_compoe_total_nota))
                &&& no.filho("CEST"@) == folha_opcional("CEST"@, v.tributacao.cest)
                &&& no.filho("indEscala"@)
                    == folha_codigo_opcional("indEscala"@, v.tributacao.escala_relevante)
                &&& no.filho("cBenef"@)
                    == folha_opcional("cBenef"@, v.tributacao.codigo_beneficio_fiscal)
                &&& no.filho("EXTIPI"@)
                    == folha_opcional("EXTIPI"@, v.tributacao.codigo_excecao_ipi)
                &&& no.filho("CFOP"@) == Some(ElementoV::folha("CFOP"@, v.tributacao.cfop))
                &&& no.filho("cEANTrib"@) == Some(folha_gtin("cEANTrib"@, v.tributacao.gtin))
                &&& no.filho("uTrib"@) == Some(ElementoV::folha("uTrib"@, v.tributacao.unidade))
                &&& no.filho("qTrib"@) == Some(folha_decimal("qTrib"@, v.tributacao.quantidade))
                &&& no.filho("vUnTrib"@)
                    == Some(folha_decimal("vUnTrib"@, v.tributacao.valor_unitario))
            }),
    {
        broadcast use grupo_busca;

        reveal(ProdutoV::spec_campos);
        reveal(ProdutoTributacaoV::spec_campos);
        reveal_strlit("cProd");
        reveal_strlit("cEAN");
        reveal_strlit("xProd");
        reveal_strlit("NCM");
        reveal_strlit("CNPJFab");
        reveal_strlit("uCom");
        reveal_strlit("qCom");
        reveal_strlit("vUnCom");
        reveal_strlit("vProd");
        reveal_strlit("vFrete");
        reveal_strlit("vDesc");
        reveal_strlit("vSeg");
        reveal_strlit("vOutro");
        reveal_strlit("indTot");
        reveal_strlit("CEST");
        reveal_strlit("indEscala");
        reveal_strlit("cBenef");
        reveal_strlit("EXTIPI");
        reveal_strlit("CFOP");
        reveal_strlit("cEANTrib");
        reveal_strlit("uTrib");
        reveal_strlit("qTrib");
        reveal_strlit("vUnTrib");
        assert("cProd"@.len() == 5 && "cProd"@[0] == 'c' && "cProd"@[1] == 'P'
            && "cProd"@[2] == 'r' && "cProd"@[3] == 'o' && "cProd"@[4] == 'd');
        assert("cEAN"@.len() == 4 && "cEAN"@[0] == 'c' && "cEAN"@[1] == 'E' && "cEAN"@[2] == 'A'
            && "cEAN"@[3] == 'N');
        assert("xProd"@.len() == 5 && "xProd"@[0] == 'x' && "xProd"@[1] == 'P'
            && "xProd"@[2] == 'r' && "xProd"@[3] == 'o' && "xProd"@[4] == 'd');
        assert("NCM"@.len() == 3 && "NCM"@[0] == 'N' && "NCM"@[1] == 'C' && "NCM"@[2] == 'M');
        assert("CNPJFab"@.len() == 7 && "CNPJFab"@[0] == 'C' && "CNPJFab"@[1] == 'N'
            && "CNPJFab"@[2] == 'P' && "CNPJFab"@[3] == 'J' && "CNPJFab"@[4] == 'F'
            && "CNPJFab"@[5] == 'a' && "CNPJFab"@[6] == 'b');
        assert("uCom"@.len() == 4 && "uCom"@[0] == 'u' && "uCom"@[1] == 'C' && "uCom"@[2] == 'o'
            && "uCom"@[3] == 'm');
        assert("qCom"@.len() == 4 && "qCom"@[0] == 'q' && "qCom"@[1] == 'C' && "qCom"@[2] == 'o'
            && "qCom"@[3] == 'm');
        assert("vUnCom"@.len() == 6 && "vUnCom"@[0] == 'v' && "vUnCom"@[1] == 'U'
            && "vUnCom"@[2] == 'n' && "vUnCom"@[3] == 'C' && "vUnCom"@[4] == 'o'
            && "vUnCom"@[5] == 'm');
        assert("vProd"@.len() == 5 && "vProd"@[0] == 'v' && "vProd"@[1] == 'P'
            && "vProd"@[2] == 'r' && "vProd"@[3] == 'o' && "vProd"@[4] == 'd');
        assert("vFrete"@.len() == 6 && "vFrete"@[0] == 'v' && "vFrete"@[1] == 'F'
            && "vFrete"@[2] == 'r' && "vFrete"@[3] == 'e' && "vFrete"@[4] == 't'
            && "vFrete"@[5] == 'e');
        assert("vDesc"@.len() == 5 && "vDesc"@[0] == 'v' && "vDesc"@[1] == 'D'
            && "vDesc"@[2] == 'e' && "vDesc"@[3] == 's' && "vDesc"@[4] == 'c');
        assert("vSeg"@.len() == 4 && "vSeg"@[0] == 'v' && "vSeg"@[1] == 'S' && "vSeg"@[2] == 'e'
            && "vSeg"@[3] == 'g');
        assert("vOutro"@.len() == 6 && "vOutro"@[0] == 'v' && "vOutro"@[1] == 'O'
            && "vOutro"@[2] == 'u' && "vOutro"@[3] == 't' && "vOutro"@[4] == 'r'
            && "vOutro"@[5] == 'o');
        assert("indTot"@.len() == 6 && "indTot"@[0] == 'i' && "indTot"@[1] == 'n'
            && "indTot"@[2] == 'd' && "indTot"@[3] == 'T' && "indTot"@[4] == 'o'
            && "indTot"@[5] == 't');
        assert("CEST"@.len() == 4 && "CEST"@[0] == 'C' && "CEST"@[1] == 'E' && "CEST"@[2] == 'S'
            && "CEST"@[3] == 'T');
        assert("indEscala"@.len() == 9 && "indEscala"@[0] == 'i' && "indEscala"@[1] == 'n'
            && "indEscala"@[2] == 'd' && "indEscala"@[3] == 'E' && "indEscala"@[4] == 's'
            && "indEscala"@[5] == 'c' && "indEscala"@[6] == 'a');
        assert("cBenef"@.len() == 6 && "cBenef"@[0] == 'c' && "cBenef"@[1] == 'B'
            && "cBenef"@[2] == 'e' && "cBenef"@[3] == 'n' && "cBenef"@[4] == 'e'
            && "cBenef"@[5] == 'f');
        assert("EXTIPI"@.len() == 6 && "EXTIPI"@[0] == 'E' && "EXTIPI"@[1] == 'X'
            && "EXTIPI"@[2] == 'T' && "EXTIPI"@[3] == 'I' && "EXTIPI"@[4] == 'P'
            && "EXTIPI"@[5] == 'I');
        assert("CFOP"@.len() == 4 && "CFOP"@[0] == 'C' && "CFOP"@[1] == 'F' && "CFOP"@[2] == 'O'
            && "CFOP"@[3] == 'P');
        assert("cEANTrib"@.len() == 8 && "cEANTrib"@[0] == 'c' && "cEANTrib"@[1] == 'E'
            && "cEANTrib"@[2] == 'A' && "cEANTrib"@[3] == 'N' && "cEANTrib"@[4] == 'T'
            && "cEANTrib"@[5] == 'r' && "cEANTrib"@[6] == 'i');
        assert("uTrib"@.len() == 5 && "uTrib"@[0] == 'u' && "uTrib"@[1] == 'T'
            && "uTrib"@[2] == 'r' && "uTrib"@[3] == 'i' && "uTrib"@[4] == 'b');
        assert("qTrib"@.len() == 5 && "qTrib"@[0] == 'q' && "qTrib"@[1] == 'T'
            && "qTrib"@[2] == 'r' && "qTrib"@[3] == 'i' && "qTrib"@[4] == 'b');
        assert("vUnTrib"@.len() == 7 && "vUnTrib"@[0] == 'v' && "vUnTrib"@[1] == 'U'
            && "vUnTrib"@[2] == 'n' && "vUnTrib"@[3] == 'T' && "vUnTrib"@[4] == 'r'
            && "vUnTrib"@[5] == 'i' && "vUnTrib"@[6] == 'b');
        let f1 = {
            let f = Seq::<ElementoV>::empty();
            let f = f.push(ElementoV::folha("cProd"@, v.codigo));
            let f = f.push(folha_gtin("cEAN"@, v.gtin));
            let f = f.push(ElementoV::folha("xProd"@, v.descricao));
            let f = f.push(ElementoV::folha("NCM"@, v.ncm));
            let f = acrescido(f, folha_opcional("CNPJFab"@, v.fabricante_cnpj));
            f
        };
        let f2 = {
            let f = f1;
            let f = f.push(ElementoV::folha("uCom"@, v.unidade));
            let f = f.push(folha_decimal("qCom"@, v.quantidade));
            let f = f.push(folha_decimal("vUnCom"@, v.valor_unitario));
            let f = f.push(folha_decimal("vProd"@, v.valor_bruto));
            let f = acrescido(f, folha_decimal_opcional("vFrete"@, v.valor_frete));
            f
        };
        let f3 = {
            let f = f2;
            let f = acrescido(f, folha_decimal_opcional("vDesc"@, v.valor_desconto));
            let f = acrescido(f, folha_decimal_opcional("vSeg"@, v.valor_seguro));
            let f = acrescido(f, folha_decimal_opcional("vOutro"@, v.valor_outros));
            let f = f.push(folha_booleano("indTot"@, v.valor_compoe_total_nota));
            let f = acrescido(f, folha_opcional("CEST"@, v.tributacao.cest));
            f
        };
        let f4 = {
            let f = f3;
            let f = acrescido(
                f,
                folha_codigo_opcional("indEscala"@, v.tributacao.escala_relevante),
            );
            let f = acrescido(f, folha_opcional("cBenef"@, v.tributacao.codigo_beneficio_fiscal));
            let f = acrescido(f, folha_opcional("EXTIPI"@, v.tributacao.codigo_excecao_ipi));
            let f = f.push(ElementoV::folha("CFOP"@, v.tributacao.cfop));
            let f = f.push(folha_gtin("cEANTrib"@, v.tributacao.gtin));
            f
        };
        let f5 = {
            let f = f4;
            let f = f.push(ElementoV::folha("uTrib"@, v.tributacao.unidade));
            let f = f.push(folha_decimal("qTrib"@, v.tributacao.quantidade));
            let f = f.push(folha_decimal("vUnTrib"@, v.tributacao.valor_unitario));
            f
        };
        assert(v.spec_serialize().filhos == f5);
        assert(primeiro(f1, "cProd"@) == Some(ElementoV::folha("cProd"@, v.codigo)));
        assert(primeiro(f2, "cProd"@) == Some(ElementoV::folha("cProd"@, v.codigo)));
        assert(primeiro(f3, "cProd"@) == Some(ElementoV::folha("cProd"@, v.codigo)));
        assert(primeiro(f4, "cProd"@) == Some(ElementoV::folha("cProd"@, v.codigo)));
        assert(primeiro(f5, "cProd"@) == Some(ElementoV::folha("cProd"@, v.codigo)));
        assert(primeiro(f1, "cEAN"@) == Some(folha_gtin("cEAN"@, v.gtin)));
        assert(primeiro(f2, "cEAN"@) == Some(folha_gtin("cEAN"@, v.gtin)));
        assert(primeiro(f3, "cEAN"@) == Some(folha_gtin("cEAN"@, v.gtin)));
        assert(primeiro(f4, "cEAN"@) == Some(folha_gtin("cEAN"@, v.gtin)));
        assert(primeiro(f5, "cEAN"@) == Some(folha_gtin("cEAN"@, v.gtin)));
        assert(primeiro(f1, "xProd"@) == Some(ElementoV::folha("xProd"@, v.descricao)));
        assert(primeiro(f2, "xProd"@) == Some(ElementoV::folha("xProd"@, v.descricao)));
        assert(primeiro(f3, "xProd"@) == Some(ElementoV::folha("xProd"@, v.descricao)));
        assert(primeiro(f4, "xProd"@) == Some(ElementoV::folha("xProd"@, v.descricao)));
        assert(primeiro(f5, "xProd"@) == Some(ElementoV::folha("xProd"@, v.descricao)));
        assert(primeiro(f1, "NCM"@) == Some(ElementoV::folha("NCM"@, v.ncm)));
        assert(primeiro(f2, "NCM"@) == Some(ElementoV::folha("NCM"@, v.ncm)));
        assert(primeiro(f3, "NCM"@) == Some(ElementoV::folha("NCM"@, v.ncm)));
        assert(primeiro(f4, "NCM"@) == Some(ElementoV::folha("NCM"@, v.ncm)));
        assert(primeiro(f5, "NCM"@) == Some(ElementoV::folha("NCM"@, v.ncm)));
        assert(primeiro(f1, "CNPJFab"@) == folha_opcional("CNPJFab"@, v.fabricante_cnpj));
        assert(primeiro(f2, "CNPJFab"@) == folha_opcional("CNPJFab"@, v.fabricante_cnpj));
        assert(primeiro(f3, "CNPJFab"@) == folha_opcional("CNPJFab"@, v.fabricante_cnpj));
        assert(primeiro(f4, "CNPJFab"@) == folha_opcional("CNPJFab"@, v.fabricante_cnpj));
        assert(primeiro(f5, "CNPJFab"@) == folha_opcional("CNPJFab"@, v.fabricante_cnpj));
        assert(primeiro(f1, "uCom"@) is None);
        assert(primeiro(f2, "uCom"@) == Some(ElementoV::folha("uCom"@, v.unidade)));
        assert(primeiro(f3, "uCom"@) == Some(ElementoV::folha("uCom"@, v.unidade)));
        assert(primeiro(f4, "uCom"@) == Some(ElementoV::folha("uCom"@, v.unidade)));
        assert(primeiro(f5, "uCom"@) == Some(ElementoV::folha("uCom"@, v.unidade)));
        assert(primeiro(f1, "qCom"@) is None);
        assert(primeiro(f2, "qCom"@) == Some(folha_decimal("qCom"@, v.quantidade)));
        assert(primeiro(f3, "qCom"@) == Some(folha_decimal("qCom"@, v.quantidade)));
        assert(primeiro(f4, "qCom"@) == Some(folha_decimal("qCom"@, v.quantidade)));
        assert(primeiro(f5, "qCom"@) == Some(folha_decimal("qCom"@, v.quantidade)));
        assert(primeiro(f1, "vUnCom"@) is None);
        assert(primeiro(f2, "vUnCom"@) == Some(folha_decimal("vUnCom"@, v.valor_unitario)));
        assert(primeiro(f3, "vUnCom"@) == Some(folha_decimal("vUnCom"@, v.valor_unitario)));
        assert(primeiro(f4, "vUnCom"@) == Some(folha_decimal("vUnCom"@, v.valor_unitario)));
        assert(primeiro(f5, "vUnCom"@) == Some(folha_decimal("vUnCom"@, v.valor_unitario)));
        assert(primeiro(f1, "vProd"@) is None);
        assert(primeiro(f2, "vProd"@) == Some(folha_decimal("vProd"@, v.valor_bruto)));
        assert(primeiro(f3, "vProd"@) == Some(folha_decimal("vProd"@, v.valor_bruto)));
        assert(primeiro(f4, "vProd"@) == Some(folha_decimal("vProd"@, v.valor_bruto)));
        assert(primeiro(f5, "vProd"@) == Some(folha_decimal("vProd"@, v.valor_bruto)));
        assert(primeiro(f1, "vFrete"@) is None);
        assert(primeiro(f2, "vFrete"@) == folha_decimal_opcional("vFrete"@, v.valor_frete));
        assert(primeiro(f3, "vFrete"@) == folha_decimal_opcional("vFrete"@, v.valor_frete));
        assert(primeiro(f4, "vFrete"@) == folha_decimal_opcional("vFrete"@, v.valor_frete));
        assert(primeiro(f5, "vFrete"@) == folha_decimal_opcional("vFrete"@, v.valor_frete));
        assert(primeiro(f1, "vDesc"@) is None);
        assert(primeiro(f2, "vDesc"@) is None);
        assert(primeiro(f3, "vDesc"@) == folha_decimal_opcional("vDesc"@, v.valor_desconto));
        assert(primeiro(f4, "vDesc"@) == folha_decimal_opcional("vDesc"@, v.valor_desconto));
        assert(primeiro(f5, "vDesc"@) == folha_decimal_opcional("vDesc"@, v.valor_desconto));
        assert(primeiro(f1, "vSeg"@) is None);
        assert(primeiro(f2, "vSeg"@) is None);
        assert(primeiro(f3, "vSeg"@) == folha_decimal_opcional("vSeg"@, v.valor_seguro));
        assert(primeiro(f4, "vSeg"@) == folha_decimal_opcional("vSeg"@, v.valor_seguro));
        assert(primeiro(f5, "vSeg"@) == folha_decimal_opcional("vSeg"@, v.valor_seguro));
        assert(primeiro(f1, "vOutro"@) is None);
        assert(primeiro(f2, "vOutro"@) is None);
        assert(primeiro(f3, "vOutro"@) == folha_decimal_opcional("vOutro"@, v.valor_outros));
        assert(primeiro(f4, "vOutro"@) == folha_decimal_opcional("vOutro"@, v.valor_outros));
        assert(primeiro(f5, "vOutro"@) == folha_decimal_opcional("vOutro"@, v.valor_outros));
        assert(primeiro(f1, "indTot"@) is None);
        assert(primeiro(f2, "indTot"@) is None);
        assert(primeiro(f3, "indTot"@)
            == Some(folha_booleano("indTot"@, v.valor_compoe_total_nota)));
        assert(primeiro(f4, "indTot"@)
            == Some(folha_booleano("indTot"@, v.valor_compoe_total_nota)));
        assert(primeiro(f5, "indTot"@)
            == Some(folha_booleano("indTot"@, v.valor_compoe_total_nota)));
        assert(primeiro(f1, "CEST"@) is None);
        assert(primeiro(f2, "CEST"@) is None);
        assert(primeiro(f3, "CEST"@) == folha_opcional("CEST"@, v.tributacao.cest));
        assert(primeiro(f4, "CEST"@) == folha_opcional("CEST"@, v.tributacao.cest));
        assert(primeiro(f5, "CEST"@) == folha_opcional("CEST"@, v.tributacao.cest));
        assert(primeiro(f1, "indEscala"@) is None);
        assert(primeiro(f2, "indEscala"@) is None);
        assert(primeiro(f3, "indEscala"@) is None);
        assert(primeiro(f4, "indEscala"@)
            == folha_codigo_opcional("indEscala"@, v.tributacao.escala_relevante));
        assert(primeiro(f5, "indEscala"@)
            == folha_codigo_opcional("indEscala"@, v.tributacao.escala_relevante));
        assert(primeiro(f1, "cBenef"@) is None);
        assert(primeiro(f2, "cBenef"@) is None);
        assert(primeiro(f3, "cBenef"@) is None);
        assert(primeiro(f4, "cBenef"@)
            == folha_opcional("cBenef"@, v.tributacao.codigo_beneficio_fiscal));
        assert(primeiro(f5, "cBenef"@)
            == folha_opcional("cBenef"@, v.tributacao.codigo_beneficio_fiscal));
        assert(primeiro(f1, "EXTIPI"@) is None);
        assert(primeiro(f2, "EXTIPI"@) is None);
        assert(primeiro(f3, "EXTIPI"@) is None);
        assert(primeiro(f4, "EXTIPI"@)
            == folha_opcional("EXTIPI"@, v.tributacao.codigo_excecao_ipi));
        assert(primeiro(f5, "EXTIPI"@)
            == folha_opcional("EXTIPI"@, v.tributacao.codigo_excecao_ipi));
        assert(primeiro(f1, "CFOP"@) is None);
        assert(primeiro(f2, "CFOP"@) is None);
        assert(primeiro(f3, "CFOP"@) is None);
        assert(primeiro(f4, "CFOP"@) == Some(ElementoV::folha("CFOP"@, v.tributacao.cfop)));
        assert(primeiro(f5, "CFOP"@) == Some(ElementoV::folha("CFOP"@, v.tributacao.cfop)));
        assert(primeiro(f1, "cEANTrib"@) is None);
        assert(primeiro(f2, "cEANTrib"@) is None);
        assert(primeiro(f3, "cEANTrib"@) is None);
        assert(primeiro(f4, "cEANTrib"@) == Some(folha_gtin("cEANTrib"@, v.tributacao.gtin)));
        assert(primeiro(f5, "cEANTrib"@) == Some(folha_gtin("cEANTrib"@, v.tributacao.gtin)));
        assert(primeiro(f1, "uTrib"@) is None);
        assert(primeiro(f2, "uTrib"@) is None);
        assert(primeiro(f3, "uTrib"@) is None);
        assert(primeiro(f4, "uTrib"@) is None);
        assert(primeiro(f5, "uTrib"@) == Some(ElementoV::folha("uTrib"@, v.tributacao.unidade)));
        assert(primeiro(f1, "qTrib"@) is None);
        assert(primeiro(f2, "qTrib"@) is None);
        assert(primeiro(f3, "qTrib"@) is None);
        assert(primeiro(f4, "qTrib"@) is None);
        assert(primeiro(f5, "qTrib"@) == Some(folha_decimal("qTrib"@, v.tributacao.quantidade)));
        assert(primeiro(f1, "vUnTrib"@) is None);
        assert(primeiro(f2, "vUnTrib"@) is None);
        assert(primeiro(f3, "vUnTrib"@) is None);
        assert(primeiro(f4, "vUnTrib"@) is None);
        assert(primeiro(f5, "vUnTrib"@)
            == Some(folha_decimal("vUnTrib"@, v.tributacao.valor_unitario)));
    }

    /// Decoding what was encoded gives the value back.
    pub proof fn lemma_ida_e_volta(v: ProdutoV)
        requires
            v.valido(),
        ensures
            Self::spec_parse(v.spec_serialize()) == Ok::<ProdutoV, ErrorV>(v),
    {
        broadcast use grupo_ida_e_volta;

        reveal(Produto::spec_parse);
        reveal(ProdutoTributacao::spec_parse);
        Self::lemma_filhos(v);
        let no = v.spec_serialize();
        assert(spec_texto(no, "cProd"@) == Ok::<Seq<char>, ErrorV>(v.codigo));
        assert(spec_gtin(no, "cEAN"@) == Ok::<Option<Seq<char>>, ErrorV>(v.gtin));
        assert(spec_texto(no, "xProd"@) == Ok::<Seq<char>, ErrorV>(v.descricao));
        assert(spec_texto(no, "NCM"@) == Ok::<Seq<char>, ErrorV>(v.ncm));
        assert(spec_texto_opcional(no, "CNPJFab"@) == v.fabricante_cnpj);
        assert(spec_texto(no, "uCom"@) == Ok::<Seq<char>, ErrorV>(v.unidade));
        assert(spec_decimal(no, "qCom"@) == Ok::<Decimal, ErrorV>(v.quantidade));
        assert(spec_decimal(no, "vUnCom"@) == Ok::<Decimal, ErrorV>(v.valor_unitario));
        assert(spec_decimal(no, "vProd"@) == Ok::<Decimal, ErrorV>(v.valor_bruto));
        assert(spec_decimal_opcional(no, "vFrete"@)
            == Ok::<Option<Decimal>, ErrorV>(v.valor_frete));
        assert(spec_decimal_opcional(no, "vDesc"@)
            == Ok::<Option<Decimal>, ErrorV>(v.valor_desconto));
        assert(spec_decimal_opcional(no, "vSeg"@) == Ok::<Option<Decimal>, ErrorV>(v.valor_seguro));
        assert(spec_decimal_opcional(no, "vOutro"@)
            == Ok::<Option<Decimal>, ErrorV>(v.valor_outros));
        assert(spec_booleano(no, "indTot"@) == Ok::<bool, ErrorV>(v.valor_compoe_total_nota));
        assert(spec_texto_opcional(no, "CEST"@) == v.tributacao.cest);
        assert(spec_codigo_opcional::<EscalaRelevante>(no, "indEscala"@)
            == Ok::<Option<EscalaRelevante>, ErrorV>(v.tributacao.escala_relevante));
        assert(spec_texto_opcional(no, "cBenef"@) == v.tributacao.codigo_beneficio_fiscal);
        assert(spec_texto_opcional(no, "EXTIPI"@) == v.tributacao.codigo_excecao_ipi);
        assert(spec_texto(no, "CFOP"@) == Ok::<Seq<char>, ErrorV>(v.tributacao.cfop));
        assert(spec_gtin(no, "cEANTrib"@) == Ok::<Option<Seq<char>>, ErrorV>(v.tributacao.gtin));
        assert(spec_texto(no, "uTrib"@) == Ok::<Seq<char>, ErrorV>(v.tributacao.unidade));
        assert(spec_decimal(no, "qTrib"@) == Ok::<Decimal, ErrorV>(v.tributacao.quantidade));
        assert(spec_decimal(no, "vUnTrib"@) == Ok::<Decimal, ErrorV>(v.tributacao.valor_unitario));
        assert(ProdutoTributacao::spec_parse(no) == Ok::<ProdutoTributacaoV, ErrorV>(v.tributacao));
    }
}

} // verus!
