//! Typed access to the data of a Brazilian electronic invoice (NF-e).
//!
//! A document travels as text that writes a tree of labelled elements. This
//! crate maps that tree to a nested model and back: `base` holds the model
//! shared by every kind of document, `modelos` what each fiscal model asks
//! beyond it. For now only the model 55, the NF-e proper, has an interface of
//! its own; a NFC-e, the model 65, is read through the base.

pub mod arvore;
pub mod base;
pub mod campo;
pub mod codigo;
pub mod data_hora;
pub mod escalar;
pub mod modelos;
pub mod texto;
pub mod variante;
pub mod xml;

pub use crate::modelos::nfe::{
    ComposicaoChaveAcesso, Destinatario, DestinoOperacao, Emissao, Emitente, Endereco, Error,
    EscalaRelevante, FinalidadeEmissao, FormatoImpressaoDanfe, GrupoCofins, GrupoCofinsAliq,
    GrupoCofinsNt, GrupoCofinsOutr, GrupoIcms, GrupoIcms60, GrupoIcmsSn202, GrupoPis,
    GrupoPisAliq, GrupoPisNt, GrupoPisOutr, Identificacao, Imposto, IndicadorContribuicaoIe,
    Item, ModalidadeBaseCalculoIcmsSt, ModalidadeFrete, ModeloDocumentoFiscal, Nfe, Operacao,
    OrigemMercadoria, Produto, ProdutoTributacao, TipoAmbiente, TipoConsumidor, TipoEmissao,
    TipoIntermediador, TipoOperacao, TipoPresencaComprador, TipoProcessoEmissao, Totalizacao,
    Transporte, VersaoLayout,
};
