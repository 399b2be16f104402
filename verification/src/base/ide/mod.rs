//! Identification of the document.

use vstd::prelude::*;
use crate::arvore::{acrescido, primeiro, ver_elementos, Elemento, ElementoV};
use crate::base::{Error, ErrorV};
use crate::campo::{
    folha_codigo, folha_codigo_opcional, folha_data_hora, folha_data_hora_opcional, folha_inteiro,
    grupo_busca, grupo_ida_e_volta, ler_codigo, ler_texto, ler_u16, ler_u32, ler_u8, por_codigo,
    por_inteiro, por_texto, spec_codigo, spec_codigo_opcional, spec_data_hora,
    spec_data_hora_opcional, spec_texto, spec_u16, spec_u32, spec_u8, texto_valido,
};
use crate::codigo::Codigo;
use crate::data_hora::DataHora;
use crate::texto::{aparado, lemma_aparado_idempotente};
use crate::xml::{arvore_de, escrever_xml, ler_xml, texto_xml};

mod emissao;
mod operacao;

pub use emissao::{Emissao, EmissaoV, FinalidadeEmissao, TipoEmissao, TipoProcessoEmissao};
pub use operacao::{
    DestinoOperacao, Operacao, OperacaoV, TipoConsumidor, TipoIntermediador, TipoOperacao,
    TipoPresencaComprador,
};

verus! {

/// The identification of the document: the section `ide`. The wire format has
/// one flat list of tags; the model groups those of the access key, of the
/// emission and of the operation.
#[derive(Debug, PartialEq, Eq, Clone)]
pub struct Identificacao {
    /// Code of the state of the issuer. Tag `cUF`.
    pub codigo_uf: u8,
    /// What the access key is made of.
    pub chave: ComposicaoChaveAcesso,
    /// Number of the document. Tag `nNF`.
    pub numero: u32,
    /// Series of the document. Tag `serie`.
    pub serie: u16,
    /// Fiscal model. Tag `mod`.
    pub modelo: ModeloDocumentoFiscal,
    /// The emission.
    pub emissao: Emissao,
    /// The operation.
    pub operacao: Operacao,
    /// Code of the municipality where the tax is due. Tag `cMunFG`.
    pub codigo_municipio: u32,
    /// Format of the printed document. Tag `tpImp`.
    pub formato_danfe: FormatoImpressaoDanfe,
    /// Environment. Tag `tpAmb`.
    pub ambiente: TipoAmbiente,
}

/// The mathematical value of an [`Identificacao`].
pub ghost struct IdentificacaoV {
    pub codigo_uf: u8,
    pub chave: ComposicaoChaveAcessoV,
    pub numero: u32,
    pub serie: u16,
    pub modelo: ModeloDocumentoFiscal,
    pub emissao: EmissaoV,
    pub operacao: OperacaoV,
    pub codigo_municipio: u32,
    pub formato_danfe: FormatoImpressaoDanfe,
    pub ambiente: TipoAmbiente,
}

impl View for Identificacao {
    type V = IdentificacaoV;

    open spec fn view(&self) -> IdentificacaoV {
        IdentificacaoV {
            codigo_uf: self.codigo_uf,
            chave: self.chave@,
            numero: self.numero,
            serie: self.serie,
            modelo: self.modelo,
            emissao: self.emissao@,
            operacao: self.operacao@,
            codigo_municipio: self.codigo_municipio,
            formato_danfe: self.formato_danfe,
            ambiente: self.ambiente,
        }
    }
}

/// The fiscal model of the document.
#[derive(Debug, Eq, PartialEq, Copy, Clone, Structural)]
pub enum ModeloDocumentoFiscal {
    /// NF-e. Code 55.
    Nfe,
    /// NFC-e. Code 65.
    Nfce,
}

impl Codigo for ModeloDocumentoFiscal {
    open spec fn codigo_spec(self) -> u8 {
        match self {
            ModeloDocumentoFiscal::Nfe => 55,
            ModeloDocumentoFiscal::Nfce => 65,
        }
    }

    open spec fn de_codigo_spec(codigo: u8) -> Option<Self> {
        match codigo {
            55 => Some(ModeloDocumentoFiscal::Nfe),
            65 => Some(ModeloDocumentoFiscal::Nfce),
            _ => None,
        }
    }

    fn codigo(&self) -> (c: u8) {
        match self {
            ModeloDocumentoFiscal::Nfe => 55,
            ModeloDocumentoFiscal::Nfce => 65,
        }
    }

    fn de_codigo(codigo: u8) -> (v: Option<Self>) {
        match codigo {
            55 => Some(ModeloDocumentoFiscal::Nfe),
            65 => Some(ModeloDocumentoFiscal::Nfce),
            _ => None,
        }
    }

    proof fn lemma_codigo_ida_e_volta(v: Self) {
    }

    proof fn lemma_codigo_unico(codigo: u8) {
    }
}

/// The format of the printed document (DANFE).
#[derive(Debug, Eq, PartialEq, Copy, Clone, Structural)]
pub enum FormatoImpressaoDanfe {
    /// None is printed. Code 0.
    SemGeracao,
    /// Normal, portrait. Code 1.
    NormalRetrato,
    /// Normal, landscape. Code 2.
    NormalPaisagem,
    /// Simplified. Code 3.
    Simplificado,
    /// That of the NFC-e. Code 4.
    Nfce,
    /// That of the NFC-e, in an electronic message. Code 5.
    NfceMensagemEletronica,
}

impl Codigo for FormatoImpressaoDanfe {
    open spec fn codigo_spec(self) -> u8 {
        match self {
            FormatoImpressaoDanfe::SemGeracao => 0,
            FormatoImpressaoDanfe::NormalRetrato => 1,
            FormatoImpressaoDanfe::NormalPaisagem => 2,
            FormatoImpressaoDanfe::Simplificado => 3,
            FormatoImpressaoDanfe::Nfce => 4,
            FormatoImpressaoDanfe::NfceMensagemEletronica => 5,
        }
    }

    open spec fn de_codigo_spec(codigo: u8) -> Option<Self> {
        match codigo {
            0 => Some(FormatoImpressaoDanfe::SemGeracao),
            1 => Some(FormatoImpressaoDanfe::NormalRetrato),
            2 => Some(FormatoImpressaoDanfe::NormalPaisagem),
            3 => Some(FormatoImpressaoDanfe::Simplificado),
            4 => Some(FormatoImpressaoDanfe::Nfce),
            5 => Some(FormatoImpressaoDanfe::NfceMensagemEletronica),
            _ => None,
        }
    }

    fn codigo(&self) -> (c: u8) {
        match self {
            FormatoImpressaoDanfe::SemGeracao => 0,
            FormatoImpressaoDanfe::NormalRetrato => 1,
            FormatoImpressaoDanfe::NormalPaisagem => 2,
            FormatoImpressaoDanfe::Simplificado => 3,
            FormatoImpressaoDanfe::Nfce => 4,
            FormatoImpressaoDanfe::NfceMensagemEletronica => 5,
        }
    }

    fn de_codigo(codigo: u8) -> (v: Option<Self>) {
        match codigo {
            0 => Some(FormatoImpressaoDanfe::SemGeracao),
            1 => Some(FormatoImpressaoDanfe::NormalRetrato),
            2 => Some(FormatoImpressaoDanfe::NormalPaisagem),
            3 => Some(FormatoImpressaoDanfe::Simplificado),
            4 => Some(FormatoImpressaoDanfe::Nfce),
            5 => Some(FormatoImpressaoDanfe::NfceMensagemEletronica),
            _ => None,
        }
    }

    proof fn lemma_codigo_ida_e_volta(v: Self) {
    }

    proof fn lemma_codigo_unico(codigo: u8) {
    }
}

/// The environment that the document was issued in.
#[derive(Debug, Eq, PartialEq, Copy, Clone, Structural)]
pub enum TipoAmbiente {
    /// Production. Code 1.
    Producao,
    /// Staging. Code 2.
    Homologacao,
}

impl Codigo for TipoAmbiente {
    open spec fn codigo_spec(self) -> u8 {
        match self {
            TipoAmbiente::Producao => 1,
            TipoAmbiente::Homologacao => 2,
        }
    }

    open spec fn de_codigo_spec(codigo: u8) -> Option<Self> {
        match codigo {
            1 => Some(TipoAmbiente::Producao),
            2 => Some(TipoAmbiente::Homologacao),
            _ => None,
        }
    }

    fn codigo(&self) -> (c: u8) {
        match self {
            TipoAmbiente::Producao => 1,
            TipoAmbiente::Homologacao => 2,
        }
    }

    fn de_codigo(codigo: u8) -> (v: Option<Self>) {
        match codigo {
            1 => Some(TipoAmbiente::Producao),
            2 => Some(TipoAmbiente::Homologacao),
            _ => None,
        }
    }

    proof fn lemma_codigo_ida_e_volta(v: Self) {
    }

    proof fn lemma_codigo_unico(codigo: u8) {
    }
}

/// What the access key is made of, besides what the document says elsewhere.
#[derive(Debug, PartialEq, Eq, Clone)]
pub struct ComposicaoChaveAcesso {
    /// Numeric code that enters the key. Tag `cNF`.
    pub codigo: String,
    /// Check digit of the key. Tag `cDV`.
    pub digito_verificador: u8,
}

/// The mathematical value of a [`ComposicaoChaveAcesso`].
pub ghost struct ComposicaoChaveAcessoV {
    pub codigo: Seq<char>,
    pub digito_verificador: u8,
}

impl View for ComposicaoChaveAcesso {
    type V = ComposicaoChaveAcessoV;

    open spec fn view(&self) -> ComposicaoChaveAcessoV {
        ComposicaoChaveAcessoV {
            codigo: self.codigo@,
            digito_verificador: self.digito_verificador,
        }
    }
}

impl ComposicaoChaveAcessoV {
    /// Whether the value is one that a document can hold: its texts are
    /// trimmed.
    pub open spec fn valido(self) -> bool {
        &&& aparado(self.codigo) == self.codigo
    }

    /// `antes` followed by the fields of the value, in the order of the wire.
    #[verifier::opaque]
    pub open spec fn spec_campos(self, antes: Seq<ElementoV>) -> Seq<ElementoV> {
        let f = antes;
        let f = f.push(ElementoV::folha("cNF"@, self.codigo));
        let f = f.push(folha_inteiro("cDV"@, self.digito_verificador as nat));
        f
    }
}

impl ComposicaoChaveAcesso {
    /// What decoding the fields among the children of `no` gives: the value,
    /// or the error of the first field, in the order of the wire, that has one.
    #[verifier::opaque]
    pub open spec fn spec_parse(no: ElementoV) -> Result<ComposicaoChaveAcessoV, ErrorV> {
        let codigo = spec_texto(no, "cNF"@);
        let digito_verificador = spec_u8(no, "cDV"@);
        if codigo is Err {
            Err(codigo->Err_0)
        } else if digito_verificador is Err {
            Err(digito_verificador->Err_0)
        } else {
            Ok(
                ComposicaoChaveAcessoV {
                    codigo: codigo->Ok_0,
                    digito_verificador: digito_verificador->Ok_0,
                },
            )
        }
    }

    /// Decodes the value from the children of `no`.
    pub fn parse(no: &Elemento) -> (r: Result<ComposicaoChaveAcesso, Error>)
        ensures
            r matches Ok(v) ==> Self::spec_parse(no@) == Ok::<ComposicaoChaveAcessoV, ErrorV>(v@),
            r matches Err(e) ==> Self::spec_parse(no@) == Err::<ComposicaoChaveAcessoV, ErrorV>(e@),
            r matches Ok(v) ==> v@.valido(),
    {
        proof {
            reveal(ComposicaoChaveAcesso::spec_parse);
            Self::lemma_parse_valido(no@);
        }
        let codigo = ler_texto(no, "cNF")?;
        let digito_verificador = ler_u8(no, "cDV")?;
        Ok(ComposicaoChaveAcesso { codigo, digito_verificador })
    }

    /// Appends the fields of the value to `filhos`, in the order of the wire.
    pub fn por_campos(&self, filhos: &mut Vec<Elemento>)
        ensures
            ver_elementos(final(filhos)@) == self@.spec_campos(ver_elementos(old(filhos)@)),
    {
        proof {
            reveal(ComposicaoChaveAcessoV::spec_campos);
        }
        por_texto(filhos, "cNF", &self.codigo);
        por_inteiro(filhos, "cDV", self.digito_verificador as u64);
    }

    /// Whether the value is one that a document can hold.
    pub fn eh_valido(&self) -> (b: bool)
        ensures
            b == self@.valido(),
    {
        texto_valido(&self.codigo)
    }

    /// What is decoded is a value that a document can hold.
    pub proof fn lemma_parse_valido(no: ElementoV)
        ensures
            Self::spec_parse(no) matches Ok(v) ==> v.valido(),
    {
        broadcast use lemma_aparado_idempotente;

        reveal(ComposicaoChaveAcesso::spec_parse);
    }
}

impl IdentificacaoV {
    /// Whether the value is one that a document can hold: its texts are
    /// trimmed and its instants can be written and read back.
    pub open spec fn valido(self) -> bool {
        &&& self.chave.valido()
        &&& self.emissao.valido()
        &&& self.operacao.valido()
    }

    /// `antes` followed by the fields of the value, in the order of the wire.
    #[verifier::opaque]
    pub open spec fn spec_campos(self, antes: Seq<ElementoV>) -> Seq<ElementoV> {
        let f = antes;
        let f = f.push(folha_inteiro("cUF"@, self.codigo_uf as nat));
        let f = f.push(folha_inteiro("nNF"@, self.numero as nat));
        let f = f.push(folha_inteiro("serie"@, self.serie as nat));
        let f = f.push(folha_codigo("mod"@, self.modelo));
        let f = f.push(folha_inteiro("cMunFG"@, self.codigo_municipio as nat));
        let f = f.push(folha_codigo("tpImp"@, self.formato_danfe));
        let f = f.push(folha_codigo("tpAmb"@, self.ambiente));
        let f = self.chave.spec_campos(f);
        let f = self.emissao.spec_campos(f);
        let f = self.operacao.spec_campos(f);
        f
    }

    /// The element that encodes the value.
    pub open spec fn spec_serialize(self) -> ElementoV {
        ElementoV::grupo("ide"@, self.spec_campos(Seq::empty()))
    }
}

impl Identificacao {
    /// What decoding the fields among the children of `no` gives: the value,
    /// or the error of the first field, in the order of the wire, that has one.
    #[verifier::opaque]
    pub open spec fn spec_parse(no: ElementoV) -> Result<IdentificacaoV, ErrorV> {
        let codigo_uf = spec_u8(no, "cUF"@);
        let numero = spec_u32(no, "nNF"@);
        let serie = spec_u16(no, "serie"@);
        let modelo = spec_codigo::<ModeloDocumentoFiscal>(no, "mod"@);
        let codigo_municipio = spec_u32(no, "cMunFG"@);
        let formato_danfe = spec_codigo::<FormatoImpressaoDanfe>(no, "tpImp"@);
        let ambiente = spec_codigo::<TipoAmbiente>(no, "tpAmb"@);
        let chave = ComposicaoChaveAcesso::spec_parse(no);
        let emissao = Emissao::spec_parse(no);
        let operacao = Operacao::spec_parse(no);
        if codigo_uf is Err {
            Err(codigo_uf->Err_0)
        } else if numero is Err {
            Err(numero->Err_0)
        } else if serie is Err {
            Err(serie->Err_0)
        } else if modelo is Err {
            Err(modelo->Err_0)
        } else if codigo_municipio is Err {
            Err(codigo_municipio->Err_0)
        } else if formato_danfe is Err {
            Err(formato_danfe->Err_0)
        } else if ambiente is Err {
            Err(ambiente->Err_0)
        } else if chave is Err {
            Err(chave->Err_0)
        } else if emissao is Err {
            Err(emissao->Err_0)
        } else if operacao is Err {
            Err(operacao->Err_0)
        } else {
            Ok(
                IdentificacaoV {
                    codigo_uf: codigo_uf->Ok_0,
                    chave: chave->Ok_0,
                    numero: numero->Ok_0,
                    serie: serie->Ok_0,
                    modelo: modelo->Ok_0,
                    emissao: emissao->Ok_0,
                    operacao: operacao->Ok_0,
                    codigo_municipio: codigo_municipio->Ok_0,
                    formato_danfe: formato_danfe->Ok_0,
                    ambiente: ambiente->Ok_0,
                },
            )
        }
    }

    /// What decoding the mandatory child of `no` named `tag` gives.
    pub open spec fn spec_parse_em(no: ElementoV, tag: Seq<char>) -> Result<
        IdentificacaoV,
        ErrorV,
    > {
        match no.filho(tag) {
            None => Err(ErrorV::CampoAusente(tag)),
            Some(f) => Self::spec_parse(f),
        }
    }

    /// Decodes the value from the children of `no`.
    pub fn parse(no: &Elemento) -> (r: Result<Identificacao, Error>)
        ensures
            r matches Ok(v) ==> Self::spec_parse(no@) == Ok::<IdentificacaoV, ErrorV>(v@),
            r matches Err(e) ==> Self::spec_parse(no@) == Err::<IdentificacaoV, ErrorV>(e@),
            r matches Ok(v) ==> v@.valido(),
    {
        proof {
            reveal(Identificacao::spec_parse);
            Self::lemma_parse_valido(no@);
        }
        let codigo_uf = ler_u8(no, "cUF")?;
        let numero = ler_u32(no, "nNF")?;
        let serie = ler_u16(no, "serie")?;
        let modelo = ler_codigo::<ModeloDocumentoFiscal>(no, "mod")?;
        let codigo_municipio = ler_u32(no, "cMunFG")?;
        let formato_danfe = ler_codigo::<FormatoImpressaoDanfe>(no, "tpImp")?;
        let ambiente = ler_codigo::<TipoAmbiente>(no, "tpAmb")?;
        let chave = ComposicaoChaveAcesso::parse(no)?;
        let emissao = Emissao::parse(no)?;
        let operacao = Operacao::parse(no)?;
        Ok(
            Identificacao {
                codigo_uf,
                chave,
                numero,
                serie,
                modelo,
                emissao,
                operacao,
                codigo_municipio,
                formato_danfe,
                ambiente,
            },
        )
    }

    /// Decodes the value from the mandatory child of `no` named `tag`.
    pub fn parse_em(no: &Elemento, tag: &str) -> (r: Result<Identificacao, Error>)
        ensures
            r matches Ok(v) ==> Self::spec_parse_em(no@, tag@) == Ok::<IdentificacaoV, ErrorV>(v@),
            r matches Err(e) ==> Self::spec_parse_em(no@, tag@)
                == Err::<IdentificacaoV, ErrorV>(e@),
            r matches Ok(v) ==> v@.valido(),
    {
        match no.filho(tag) {
            None => Err(Error::CampoAusente(tag.to_owned())),
            Some(f) => Self::parse(f),
        }
    }

    /// Appends the fields of the value to `filhos`, in the order of the wire.
    pub fn por_campos(&self, filhos: &mut Vec<Elemento>)
        requires
            self@.valido(),
        ensures
            ver_elementos(final(filhos)@) == self@.spec_campos(ver_elementos(old(filhos)@)),
    {
        proof {
            reveal(IdentificacaoV::spec_campos);
        }
        por_inteiro(filhos, "cUF", self.codigo_uf as u64);
        por_inteiro(filhos, "nNF", self.numero as u64);
        por_inteiro(filhos, "serie", self.serie as u64);
        por_codigo(filhos, "mod", &self.modelo);
        por_inteiro(filhos, "cMunFG", self.codigo_municipio as u64);
        por_codigo(filhos, "tpImp", &self.formato_danfe);
        por_codigo(filhos, "tpAmb", &self.ambiente);
        self.chave.por_campos(filhos);
        self.emissao.por_campos(filhos);
        self.operacao.por_campos(filhos);
    }

    /// Encodes the value as an element.
    pub fn serialize(&self) -> (r: Elemento)
        requires
            self@.valido(),
        ensures
            r@ == self@.spec_serialize(),
    {
        let mut filhos: Vec<Elemento> = Vec::new();
        self.por_campos(&mut filhos);
        Elemento::grupo("ide", filhos)
    }

    /// Whether the value is one that a document can hold.
    pub fn eh_valido(&self) -> (b: bool)
        ensures
            b == self@.valido(),
    {
        self.chave.eh_valido()
        && self.emissao.eh_valido()
        && self.operacao.eh_valido()
    }

    /// What is decoded is a value that a document can hold.
    pub proof fn lemma_parse_valido(no: ElementoV)
        ensures
            Self::spec_parse(no) matches Ok(v) ==> v.valido(),
    {
        broadcast use lemma_aparado_idempotente;

        reveal(Identificacao::spec_parse);

        ComposicaoChaveAcesso::lemma_parse_valido(no);
        Emissao::lemma_parse_valido(no);
        Operacao::lemma_parse_valido(no);
    }

    /// What reading the text `s` gives: what decoding its root element gives,
    /// where the text is a tree of elements.
    pub open spec fn spec_from_str(s: Seq<char>) -> Result<IdentificacaoV, ErrorV> {
        match arvore_de(s) {
            None => Err(ErrorV::Xml),
            Some(no) => Self::spec_parse(no),
        }
    }

    /// Reads the value from a text, whose root element is the section.
    pub fn from_str(s: &str) -> (r: Result<Identificacao, Error>)
        ensures
            r matches Ok(v) ==> Self::spec_from_str(s@) == Ok::<IdentificacaoV, ErrorV>(v@),
            r matches Err(e) ==> Self::spec_from_str(s@) == Err::<IdentificacaoV, ErrorV>(e@),
            r matches Ok(v) ==> v@.valido(),
    {
        let no = ler_xml(s)?;
        Self::parse(&no)
    }

    /// Writes the value as text.
    pub fn to_string(&self) -> (r: String)
        requires
            self@.valido(),
        ensures
            r@ == texto_xml(self@.spec_serialize()),
    {
        escrever_xml(&self.serialize())
    }

    /// Writes the value as text, where it is one that a document can hold.
    pub fn try_to_string(&self) -> (r: Option<String>)
        ensures
            r matches Some(t) ==> self@.valido() && t@ == texto_xml(
                self@.spec_serialize(),
            ),
            r is None ==> !self@.valido(),
    {
        if self.eh_valido() {
            Some(self.to_string())
        } else {
            None
        }
    }

    /// What is found under each tag among the children of what was encoded: the
    /// leaf of the field of that tag.
    proof fn lemma_filhos(v: IdentificacaoV)
        ensures
            ({
                let no = v.spec_serialize();
                &&& no.filho("cUF"@) == Some(folha_inteiro("cUF"@, v.codigo_uf as nat))
                &&& no.filho("nNF"@) == Some(folha_inteiro("nNF"@, v.numero as nat))
                &&& no.filho("serie"@) == Some(folha_inteiro("serie"@, v.serie as nat))
                &&& no.filho("mod"@) == Some(folha_codigo("mod"@, v.modelo))
                &&& no.filho("cMunFG"@) == Some(folha_inteiro("cMunFG"@, v.codigo_municipio as nat))
                &&& no.filho("tpImp"@) == Some(folha_codigo("tpImp"@, v.formato_danfe))
                &&& no.filho("tpAmb"@) == Some(folha_codigo("tpAmb"@, v.ambiente))
                &&& no.filho("cNF"@) == Some(ElementoV::folha("cNF"@, v.chave.codigo))
                &&& no.filho("cDV"@)
                    == Some(folha_inteiro("cDV"@, v.chave.digito_verificador as nat))
                &&& no.filho("dhEmi"@) == Some(folha_data_hora("dhEmi"@, v.emissao.horario))
                &&& no.filho("tpEmis"@) == Some(folha_codigo("tpEmis"@, v.emissao.tipo))
                &&& no.filho("finNFe"@) == Some(folha_codigo("finNFe"@, v.emissao.finalidade))
                &&& no.filho("procEmi"@) == Some(folha_codigo("procEmi"@, v.emissao.processo))
                &&& no.filho("verProc"@)
                    == Some(ElementoV::folha("verProc"@, v.emissao.versao_processo))
                &&& no.filho("dhSaiEnt"@)
                    == folha_data_hora_opcional("dhSaiEnt"@, v.operacao.horario)
                &&& no.filho("tpNF"@) == Some(folha_codigo("tpNF"@, v.operacao.tipo))
                &&& no.filho("idDest"@) == Some(folha_codigo("idDest"@, v.operacao.destino))
                &&& no.filho("natOp"@) == Some(ElementoV::folha("natOp"@, v.operacao.natureza))
                &&& no.filho("indFinal"@) == Some(folha_codigo("indFinal"@, v.operacao.consumidor))
                &&& no.filho("indPres"@) == Some(folha_codigo("indPres"@, v.operacao.presenca))
                &&& no.filho("indIntermed"@)
                    == folha_codigo_opcional("indIntermed"@, v.operacao.intermediador)
            }),
    {
        broadcast use grupo_busca;

        reveal(IdentificacaoV::spec_campos);
        reveal(ComposicaoChaveAcessoV::spec_campos);
        reveal(EmissaoV::spec_campos);
        reveal(OperacaoV::spec_campos);
        reveal_strlit("cUF");
        reveal_strlit("nNF");
        reveal_strlit("serie");
        reveal_strlit("mod");
        reveal_strlit("cMunFG");
        reveal_strlit("tpImp");
        reveal_strlit("tpAmb");
        reveal_strlit("cNF");
        reveal_strlit("cDV");
        reveal_strlit("dhEmi");
        reveal_strlit("tpEmis");
        reveal_strlit("finNFe");
        reveal_strlit("procEmi");
        reveal_strlit("verProc");
        reveal_strlit("dhSaiEnt");
        reveal_strlit("tpNF");
        reveal_strlit("idDest");
        reveal_strlit("natOp");
        reveal_strlit("indFinal");
        reveal_strlit("indPres");
        reveal_strlit("indIntermed");
        assert("cUF"@.len() == 3 && "cUF"@[0] == 'c' && "cUF"@[1] == 'U' && "cUF"@[2] == 'F');
        assert("nNF"@.len() == 3 && "nNF"@[0] == 'n' && "nNF"@[1] == 'N' && "nNF"@[2] == 'F');
        assert("serie"@.len() == 5 && "serie"@[0] == 's' && "serie"@[1] == 'e'
            && "serie"@[2] == 'r' && "serie"@[3] == 'i' && "serie"@[4] == 'e');
        assert("mod"@.len() == 3 && "mod"@[0] == 'm' && "mod"@[1] == 'o' && "mod"@[2] == 'd');
        assert("cMunFG"@.len() == 6 && "cMunFG"@[0] == 'c' && "cMunFG"@[1] == 'M'
            && "cMunFG"@[2] == 'u' && "cMunFG"@[3] == 'n' && "cMunFG"@[4] == 'F'
            && "cMunFG"@[5] == 'G');
        assert("tpImp"@.len() == 5 && "tpImp"@[0] == 't' && "tpImp"@[1] == 'p'
            && "tpImp"@[2] == 'I' && "tpImp"@[3] == 'm' && "tpImp"@[4] == 'p');
        assert("tpAmb"@.len() == 5 && "tpAmb"@[0] == 't' && "tpAmb"@[1] == 'p'
            && "tpAmb"@[2] == 'A' && "tpAmb"@[3] == 'm' && "tpAmb"@[4] == 'b');
        assert("cNF"@.len() == 3 && "cNF"@[0] == 'c' && "cNF"@[1] == 'N' && "cNF"@[2] == 'F');
        assert("cDV"@.len() == 3 && "cDV"@[0] == 'c' && "cDV"@[1] == 'D' && "cDV"@[2] == 'V');
        assert("dhEmi"@.len() == 5 && "dhEmi"@[0] == 'd' && "dhEmi"@[1] == 'h'
            && "dhEmi"@[2] == 'E' && "dhEmi"@[3] == 'm' && "dhEmi"@[4] == 'i');
        assert("tpEmis"@.len() == 6 && "tpEmis"@[0] == 't' && "tpEmis"@[1] == 'p'
            && "tpEmis"@[2] == 'E' && "tpEmis"@[3] == 'm' && "tpEmis"@[4] == 'i'
            && "tpEmis"@[5] == 's');
        assert("finNFe"@.len() == 6 && "finNFe"@[0] == 'f' && "finNFe"@[1] == 'i'
            && "finNFe"@[2] == 'n' && "finNFe"@[3] == 'N' && "finNFe"@[4] == 'F'
            && "finNFe"@[5] == 'e');
        assert("procEmi"@.len() == 7 && "procEmi"@[0] == 'p' && "procEmi"@[1] == 'r'
            && "procEmi"@[2] == 'o' && "procEmi"@[3] == 'c' && "procEmi"@[4] == 'E'
            && "procEmi"@[5] == 'm' && "procEmi"@[6] == 'i');
        assert("verProc"@.len() == 7 && "verProc"@[0] == 'v' && "verProc"@[1] == 'e'
            && "verProc"@[2] == 'r' && "verProc"@[3] == 'P' && "verProc"@[4] == 'r'
            && "verProc"@[5] == 'o' && "verProc"@[6] == 'c');
        assert("dhSaiEnt"@.len() == 8 && "dhSaiEnt"@[0] == 'd' && "dhSaiEnt"@[1] == 'h'
            && "dhSaiEnt"@[2] == 'S' && "dhSaiEnt"@[3] == 'a' && "dhSaiEnt"@[4] == 'i'
            && "dhSaiEnt"@[5] == 'E' && "dhSaiEnt"@[6] == 'n');
        assert("tpNF"@.len() == 4 && "tpNF"@[0] == 't' && "tpNF"@[1] == 'p' && "tpNF"@[2] == 'N'
            && "tpNF"@[3] == 'F');
        assert("idDest"@.len() == 6 && "idDest"@[0] == 'i' && "idDest"@[1] == 'd'
            && "idDest"@[2] == 'D' && "idDest"@[3] == 'e' && "idDest"@[4] == 's'
            && "idDest"@[5] == 't');
        assert("natOp"@.len() == 5 && "natOp"@[0] == 'n' && "natOp"@[1] == 'a'
            && "natOp"@[2] == 't' && "natOp"@[3] == 'O' && "natOp"@[4] == 'p');
        assert("indFinal"@.len() == 8 && "indFinal"@[0] == 'i' && "indFinal"@[1] == 'n'
            && "indFinal"@[2] == 'd' && "indFinal"@[3] == 'F' && "indFinal"@[4] == 'i'
            && "indFinal"@[5] == 'n' && "indFinal"@[6] == 'a');
        assert("indPres"@.len() == 7 && "indPres"@[0] == 'i' && "indPres"@[1] == 'n'
            && "indPres"@[2] == 'd' && "indPres"@[3] == 'P' && "indPres"@[4] == 'r'
            && "indPres"@[5] == 'e' && "indPres"@[6] == 's');
        assert("indIntermed"@.len() == 11 && "indIntermed"@[0] == 'i' && "indIntermed"@[1] == 'n'
            && "indIntermed"@[2] == 'd' && "indIntermed"@[3] == 'I' && "indIntermed"@[4] == 'n'
            && "indIntermed"@[5] == 't' && "indIntermed"@[6] == 'e');
        let f1 = {
            let f = Seq::<ElementoV>::empty();
            let f = f.push(folha_inteiro("cUF"@, v.codigo_uf as nat));
            let f = f.push(folha_inteiro("nNF"@, v.numero as nat));
            let f = f.push(folha_inteiro("serie"@, v.serie as nat));
            let f = f.push(folha_codigo("mod"@, v.modelo));
            let f = f.push(folha_inteiro("cMunFG"@, v.codigo_municipio as nat));
            f
        };
        let f2 = {
            let f = f1;
            let f = f.push(folha_codigo("tpImp"@, v.formato_danfe));
            let f = f.push(folha_codigo("tpAmb"@, v.ambiente));
            let f = f.push(ElementoV::folha("cNF"@, v.chave.codigo));
            let f = f.push(folha_inteiro("cDV"@, v.chave.digito_verificador as nat));
            let f = f.push(folha_data_hora("dhEmi"@, v.emissao.horario));
            f
        };
        let f3 = {
            let f = f2;
            let f = f.push(folha_codigo("tpEmis"@, v.emissao.tipo));
            let f = f.push(folha_codigo("finNFe"@, v.emissao.finalidade));
            let f = f.push(folha_codigo("procEmi"@, v.emissao.processo));
            let f = f.push(ElementoV::folha("verProc"@, v.emissao.versao_processo));
            let f = acrescido(f, folha_data_hora_opcional("dhSaiEnt"@, v.operacao.horario));
            f
        };
        let f4 = {
            let f = f3;
            let f = f.push(folha_codigo("tpNF"@, v.operacao.tipo));
            let f = f.push(folha_codigo("idDest"@, v.operacao.destino));
            let f = f.push(ElementoV::folha("natOp"@, v.operacao.natureza));
            let f = f.push(folha_codigo("indFinal"@, v.operacao.consumidor));
            let f = f.push(folha_codigo("indPres"@, v.operacao.presenca));
            f
        };
        let f5 = {
            let f = f4;
            let f = acrescido(f, folha_codigo_opcional("indIntermed"@, v.operacao.intermediador));
            f
        };
        assert(v.spec_serialize().filhos == f5);
        assert(primeiro(f1, "cUF"@) == Some(folha_inteiro("cUF"@, v.codigo_uf as nat)));
        assert(primeiro(f2, "cUF"@) == Some(folha_inteiro("cUF"@, v.codigo_uf as nat)));
        assert(primeiro(f3, "cUF"@) == Some(folha_inteiro("cUF"@, v.codigo_uf as nat)));
        assert(primeiro(f4, "cUF"@) == Some(folha_inteiro("cUF"@, v.codigo_uf as nat)));
        assert(primeiro(f5, "cUF"@) == Some(folha_inteiro("cUF"@, v.codigo_uf as nat)));
        assert(primeiro(f1, "nNF"@) == Some(folha_inteiro("nNF"@, v.numero as nat)));
        assert(primeiro(f2, "nNF"@) == Some(folha_inteiro("nNF"@, v.numero as nat)));
        assert(primeiro(f3, "nNF"@) == Some(folha_inteiro("nNF"@, v.numero as nat)));
        assert(primeiro(f4, "nNF"@) == Some(folha_inteiro("nNF"@, v.numero as nat)));
        assert(primeiro(f5, "nNF"@) == Some(folha_inteiro("nNF"@, v.numero as nat)));
        assert(primeiro(f1, "serie"@) == Some(folha_inteiro("serie"@, v.serie as nat)));
        assert(primeiro(f2, "serie"@) == Some(folha_inteiro("serie"@, v.serie as nat)));
        assert(primeiro(f3, "serie"@) == Some(folha_inteiro("serie"@, v.serie as nat)));
        assert(primeiro(f4, "serie"@) == Some(folha_inteiro("serie"@, v.serie as nat)));
        assert(primeiro(f5, "serie"@) == Some(folha_inteiro("serie"@, v.serie as nat)));
        assert(primeiro(f1, "mod"@) == Some(folha_codigo("mod"@, v.modelo)));
        assert(primeiro(f2, "mod"@) == Some(folha_codigo("mod"@, v.modelo)));
        assert(primeiro(f3, "mod"@) == Some(folha_codigo("mod"@, v.modelo)));
        assert(primeiro(f4, "mod"@) == Some(folha_codigo("mod"@, v.modelo)));
        assert(primeiro(f5, "mod"@) == Some(folha_codigo("mod"@, v.modelo)));
        assert(primeiro(f1, "cMunFG"@)
            == Some(folha_inteiro("cMunFG"@, v.codigo_municipio as nat)));
        assert(primeiro(f2, "cMunFG"@)
            == Some(folha_inteiro("cMunFG"@, v.codigo_municipio as nat)));
        assert(primeiro(f3, "cMunFG"@)
            == Some(folha_inteiro("cMunFG"@, v.codigo_municipio as nat)));
        assert(primeiro(f4, "cMunFG"@)
            == Some(folha_inteiro("cMunFG"@, v.codigo_municipio as nat)));
        assert(primeiro(f5, "cMunFG"@)
            == Some(folha_inteiro("cMunFG"@, v.codigo_municipio as nat)));
        assert(primeiro(f1, "tpImp"@) is None);
        assert(primeiro(f2, "tpImp"@) == Some(folha_codigo("tpImp"@, v.formato_danfe)));
        assert(primeiro(f3, "tpImp"@) == Some(folha_codigo("tpImp"@, v.formato_danfe)));
        assert(primeiro(f4, "tpImp"@) == Some(folha_codigo("tpImp"@, v.formato_danfe)));
        assert(primeiro(f5, "tpImp"@) == Some(folha_codigo("tpImp"@, v.formato_danfe)));
        assert(primeiro(f1, "tpAmb"@) is None);
        assert(primeiro(f2, "tpAmb"@) == Some(folha_codigo("tpAmb"@, v.ambiente)));
        assert(primeiro(f3, "tpAmb"@) == Some(folha_codigo("tpAmb"@, v.ambiente)));
        assert(primeiro(f4, "tpAmb"@) == Some(folha_codigo("tpAmb"@, v.ambiente)));
        assert(primeiro(f5, "tpAmb"@) == Some(folha_codigo("tpAmb"@, v.ambiente)));
        assert(primeiro(f1, "cNF"@) is None);
        assert(primeiro(f2, "cNF"@) == Some(ElementoV::folha("cNF"@, v.chave.codigo)));
        assert(primeiro(f3, "cNF"@) == Some(ElementoV::folha("cNF"@, v.chave.codigo)));
        assert(primeiro(f4, "cNF"@) == Some(ElementoV::folha("cNF"@, v.chave.codigo)));
        assert(primeiro(f5, "cNF"@) == Some(ElementoV::folha("cNF"@, v.chave.codigo)));
        assert(primeiro(f1, "cDV"@) is None);
        assert(primeiro(f2, "cDV"@)
            == Some(folha_inteiro("cDV"@, v.chave.digito_verificador as nat)));
        assert(primeiro(f3, "cDV"@)
            == Some(folha_inteiro("cDV"@, v.chave.digito_verificador as nat)));
        assert(primeiro(f4, "cDV"@)
            == Some(folha_inteiro("cDV"@, v.chave.digito_verificador as nat)));
        assert(primeiro(f5, "cDV"@)
            == Some(folha_inteiro("cDV"@, v.chave.digito_verificador as nat)));
        assert(primeiro(f1, "dhEmi"@) is None);
        assert(primeiro(f2, "dhEmi"@) == Some(folha_data_hora("dhEmi"@, v.emissao.horario)));
        assert(primeiro(f3, "dhEmi"@) == Some(folha_data_hora("dhEmi"@, v.emissao.horario)));
        assert(primeiro(f4, "dhEmi"@) == Some(folha_data_hora("dhEmi"@, v.emissao.horario)));
        assert(primeiro(f5, "dhEmi"@) == Some(folha_data_hora("dhEmi"@, v.emissao.horario)));
        assert(primeiro(f1, "tpEmis"@) is None);
        assert(primeiro(f2, "tpEmis"@) is None);
        assert(primeiro(f3, "tpEmis"@) == Some(folha_codigo("tpEmis"@, v.emissao.tipo)));
        assert(primeiro(f4, "tpEmis"@) == Some(folha_codigo("tpEmis"@, v.emissao.tipo)));
        assert(primeiro(f5, "tpEmis"@) == Some(folha_codigo("tpEmis"@, v.emissao.tipo)));
        assert(primeiro(f1, "finNFe"@) is None);
        assert(primeiro(f2, "finNFe"@) is None);
        assert(primeiro(f3, "finNFe"@) == Some(folha_codigo("finNFe"@, v.emissao.finalidade)));
        assert(primeiro(f4, "finNFe"@) == Some(folha_codigo("finNFe"@, v.emissao.finalidade)));
        assert(primeiro(f5, "finNFe"@) == Some(folha_codigo("finNFe"@, v.emissao.finalidade)));
        assert(primeiro(f1, "procEmi"@) is None);
        assert(primeiro(f2, "procEmi"@) is None);
        assert(primeiro(f3, "procEmi"@) == Some(folha_codigo("procEmi"@, v.emissao.processo)));
        assert(primeiro(f4, "procEmi"@) == Some(folha_codigo("procEmi"@, v.emissao.processo)));
        assert(primeiro(f5, "procEmi"@) == Some(folha_codigo("procEmi"@, v.emissao.processo)));
        assert(primeiro(f1, "verProc"@) is None);
        assert(primeiro(f2, "verProc"@) is None);
        assert(primeiro(f3, "verProc"@)
            == Some(ElementoV::folha("verProc"@, v.emissao.versao_processo)));
        assert(primeiro(f4, "verProc"@)
            == Some(ElementoV::folha("verProc"@, v.emissao.versao_processo)));
        assert(primeiro(f5, "verProc"@)
            == Some(ElementoV::folha("verProc"@, v.emissao.versao_processo)));
        assert(primeiro(f1, "dhSaiEnt"@) is None);
        assert(primeiro(f2, "dhSaiEnt"@) is None);
        assert(primeiro(f3, "dhSaiEnt"@)
            == folha_data_hora_opcional("dhSaiEnt"@, v.operacao.horario));
        assert(primeiro(f4, "dhSaiEnt"@)
            == folha_data_hora_opcional("dhSaiEnt"@, v.operacao.horario));
        assert(primeiro(f5, "dhSaiEnt"@)
            == folha_data_hora_opcional("dhSaiEnt"@, v.operacao.horario));
        assert(primeiro(f1, "tpNF"@) is None);
        assert(primeiro(f2, "tpNF"@) is None);
        assert(primeiro(f3, "tpNF"@) is None);
        assert(primeiro(f4, "tpNF"@) == Some(folha_codigo("tpNF"@, v.operacao.tipo)));
        assert(primeiro(f5, "tpNF"@) == Some(folha_codigo("tpNF"@, v.operacao.tipo)));
        assert(primeiro(f1, "idDest"@) is None);
        assert(primeiro(f2, "idDest"@) is None);
        assert(primeiro(f3, "idDest"@) is None);
        assert(primeiro(f4, "idDest"@) == Some(folha_codigo("idDest"@, v.operacao.destino)));
        assert(primeiro(f5, "idDest"@) == Some(folha_codigo("idDest"@, v.operacao.destino)));
        assert(primeiro(f1, "natOp"@) is None);
        assert(primeiro(f2, "natOp"@) is None);
        assert(primeiro(f3, "natOp"@) is None);
        assert(primeiro(f4, "natOp"@) == Some(ElementoV::folha("natOp"@, v.operacao.natureza)));
        assert(primeiro(f5, "natOp"@) == Some(ElementoV::folha("natOp"@, v.operacao.natureza)));
        assert(primeiro(f1, "indFinal"@) is None);
        assert(primeiro(f2, "indFinal"@) is None);
        assert(primeiro(f3, "indFinal"@) is None);
        assert(primeiro(f4, "indFinal"@) == Some(folha_codigo("indFinal"@, v.operacao.consumidor)));
        assert(primeiro(f5, "indFinal"@) == Some(folha_codigo("indFinal"@, v.operacao.consumidor)));
        assert(primeiro(f1, "indPres"@) is None);
        assert(primeiro(f2, "indPres"@) is None);
        assert(primeiro(f3, "indPres"@) is None);
        assert(primeiro(f4, "indPres"@) == Some(folha_codigo("indPres"@, v.operacao.presenca)));
        assert(primeiro(f5, "indPres"@) == Some(folha_codigo("indPres"@, v.operacao.presenca)));
        assert(primeiro(f1, "indIntermed"@) is None);
        assert(primeiro(f2, "indIntermed"@) is None);
        assert(primeiro(f3, "indIntermed"@) is None);
        assert(primeiro(f4, "indIntermed"@) is None);
        assert(primeiro(f5, "indIntermed"@)
            == folha_codigo_opcional("indIntermed"@, v.operacao.intermediador));
    }

    /// Decoding what was encoded gives the value back.
    pub proof fn lemma_ida_e_volta(v: IdentificacaoV)
        requires
            v.valido(),
        ensures
            Self::spec_parse(v.spec_serialize()) == Ok::<IdentificacaoV, ErrorV>(v),
    {
        broadcast use grupo_ida_e_volta;

        reveal(Identificacao::spec_parse);
        reveal(ComposicaoChaveAcesso::spec_parse);
        reveal(Emissao::spec_parse);
        reveal(Operacao::spec_parse);
        Self::lemma_filhos(v);
        let no = v.spec_serialize();
        assert(spec_u8(no, "cUF"@) == Ok::<u8, ErrorV>(v.codigo_uf));
        assert(spec_u32(no, "nNF"@) == Ok::<u32, ErrorV>(v.numero));
        assert(spec_u16(no, "serie"@) == Ok::<u16, ErrorV>(v.serie));
        assert(spec_codigo::<ModeloDocumentoFiscal>(no, "mod"@)
            == Ok::<ModeloDocumentoFiscal, ErrorV>(v.modelo));
        assert(spec_u32(no, "cMunFG"@) == Ok::<u32, ErrorV>(v.codigo_municipio));
        assert(spec_codigo::<FormatoImpressaoDanfe>(no, "tpImp"@)
            == Ok::<FormatoImpressaoDanfe, ErrorV>(v.formato_danfe));
        assert(spec_codigo::<TipoAmbiente>(no, "tpAmb"@) == Ok::<TipoAmbiente, ErrorV>(v.ambiente));
        assert(spec_texto(no, "cNF"@) == Ok::<Seq<char>, ErrorV>(v.chave.codigo));
        assert(spec_u8(no, "cDV"@) == Ok::<u8, ErrorV>(v.chave.digito_verificador));
        assert(ComposicaoChaveAcesso::spec_parse(no)
            == Ok::<ComposicaoChaveAcessoV, ErrorV>(v.chave));
        assert(spec_data_hora(no, "dhEmi"@) == Ok::<DataHora, ErrorV>(v.emissao.horario));
        assert(spec_codigo::<TipoEmissao>(no, "tpEmis"@)
            == Ok::<TipoEmissao, ErrorV>(v.emissao.tipo));
        assert(spec_codigo::<FinalidadeEmissao>(no, "finNFe"@)
            == Ok::<FinalidadeEmissao, ErrorV>(v.emissao.finalidade));
        assert(spec_codigo::<TipoProcessoEmissao>(no, "procEmi"@)
            == Ok::<TipoProcessoEmissao, ErrorV>(v.emissao.processo));
        assert(spec_texto(no, "verProc"@) == Ok::<Seq<char>, ErrorV>(v.emissao.versao_processo));
        assert(Emissao::spec_parse(no) == Ok::<EmissaoV, ErrorV>(v.emissao));
        assert(spec_data_hora_opcional(no, "dhSaiEnt"@)
            == Ok::<Option<DataHora>, ErrorV>(v.operacao.horario));
        assert(spec_codigo::<TipoOperacao>(no, "tpNF"@)
            == Ok::<TipoOperacao, ErrorV>(v.operacao.tipo));
        assert(spec_codigo::<DestinoOperacao>(no, "idDest"@)
            == Ok::<DestinoOperacao, ErrorV>(v.operacao.destino));
        assert(spec_texto(no, "natOp"@) == Ok::<Seq<char>, ErrorV>(v.operacao.natureza));
        assert(spec_codigo::<TipoConsumidor>(no, "indFinal"@)
            == Ok::<TipoConsumidor, ErrorV>(v.operacao.consumidor));
        assert(spec_codigo::<TipoPresencaComprador>(no, "indPres"@)
            == Ok::<TipoPresencaComprador, ErrorV>(v.operacao.presenca));
        assert(spec_codigo_opcional::<TipoIntermediador>(no, "indIntermed"@)
            == Ok::<Option<TipoIntermediador>, ErrorV>(v.operacao.intermediador));
        assert(Operacao::spec_parse(no) == Ok::<OperacaoV, ErrorV>(v.operacao));
    }
}

} // verus!
