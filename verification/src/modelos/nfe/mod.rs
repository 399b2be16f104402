//! The model 55: the NF-e proper.

use vstd::prelude::*;
use crate::arvore::{anexar, Elemento};
use crate::base::{
    atributos_do_documento, item_repetido, por_informacao, por_itens, Nfe as NfeBase,
    NfeV as NfeBaseV,
};
use crate::campo::texto_opcional_valido;
use crate::xml::{escrever_xml, texto_xml};

mod dest;
mod error;

pub use crate::base::emit::{Emitente, EmitenteV};
pub use crate::base::endereco::{Endereco, EnderecoV};
pub use crate::base::ide::{
    ComposicaoChaveAcesso, ComposicaoChaveAcessoV, DestinoOperacao, Emissao, EmissaoV,
    FinalidadeEmissao, FormatoImpressaoDanfe, Identificacao, IdentificacaoV,
    ModeloDocumentoFiscal, Operacao, OperacaoV, TipoAmbiente, TipoConsumidor, TipoEmissao,
    TipoIntermediador, TipoOperacao, TipoPresencaComprador, TipoProcessoEmissao,
};
pub use crate::base::item::{
    EscalaRelevante, GrupoCofins, GrupoCofinsAliq, GrupoCofinsAliqV, GrupoCofinsNt,
    GrupoCofinsNtV, GrupoCofinsOutr, GrupoCofinsOutrV, GrupoCofinsV, GrupoIcms, GrupoIcms60,
    GrupoIcmsSn202, GrupoIcmsSn202V, GrupoIcmsV, GrupoPis, GrupoPisAliq, GrupoPisAliqV,
    GrupoPisNt, GrupoPisNtV, GrupoPisOutr, GrupoPisOutrV, GrupoPisV, Imposto, ImpostoV, Item,
    ItemV, ModalidadeBaseCalculoIcmsSt, OrigemMercadoria, Produto, ProdutoTributacao,
    ProdutoTributacaoV, ProdutoV,
};
pub use crate::base::totais::Totalizacao;
pub use crate::base::transporte::{ModalidadeFrete, Transporte};
pub use crate::base::VersaoLayout;
pub use dest::{Destinatario, DestinatarioV, IndicadorContribuicaoIe};
pub use error::{Error, ErrorV};

verus! {

/// A NF-e: a document of the model 55, which always has a recipient with a
/// name and an address.
#[derive(Debug, PartialEq, Eq)]
pub struct Nfe {
    /// Version of the layout.
    pub versao: VersaoLayout,
    /// Access key.
    pub chave_acesso: String,
    /// Identification.
    pub ide: Identificacao,
    /// Issuer.
    pub emit: Emitente,
    /// Recipient.
    pub dest: Destinatario,
    /// Line items, in the order of the document, at least one.
    pub itens: Vec<Item>,
    /// Totals.
    pub totais: Totalizacao,
    /// Transport.
    pub transporte: Transporte,
    /// Remarks of interest to the taxpayer.
    pub informacao_complementar: Option<String>,
}

/// The mathematical value of a [`Nfe`].
pub ghost struct NfeV {
    pub versao: VersaoLayout,
    pub chave_acesso: Seq<char>,
    pub ide: IdentificacaoV,
    pub emit: EmitenteV,
    pub dest: DestinatarioV,
    pub itens: Seq<ItemV>,
    pub totais: Totalizacao,
    pub transporte: Transporte,
    pub informacao_complementar: Option<Seq<char>>,
}

impl View for Nfe {
    type V = NfeV;

    open spec fn view(&self) -> NfeV {
        NfeV {
            versao: self.versao,
            chave_acesso: self.chave_acesso@,
            ide: self.ide@,
            emit: self.emit@,
            dest: self.dest@,
            itens: crate::base::ver_itens(self.itens@),
            totais: self.totais,
            transporte: self.transporte,
            informacao_complementar: self.informacao_complementar.deep_view(),
        }
    }
}

impl NfeV {
    /// The document of the base that holds the same.
    pub open spec fn spec_into_base(self) -> NfeBaseV {
        NfeBaseV {
            versao: self.versao,
            chave_acesso: self.chave_acesso,
            ide: self.ide,
            emit: self.emit,
            dest: Some(self.dest.spec_into_base()),
            itens: self.itens,
            totais: self.totais,
            transporte: self.transporte,
            informacao_complementar: self.informacao_complementar,
        }
    }
}

impl Nfe {
    /// What a document of the base gives as a NF-e: an error where it is of
    /// another model, else where it has no recipient, else where the
    /// recipient lacks its name or its address.
    pub open spec fn spec_try_from(doc: NfeBaseV) -> Result<NfeV, ErrorV> {
        if doc.ide.modelo != ModeloDocumentoFiscal::Nfe {
            Err(ErrorV::ModeloInvalido(doc.ide.modelo))
        } else if doc.dest is None {
            Err(ErrorV::DestinatarioInvalido("Não informado no documento"@))
        } else {
            match Destinatario::spec_try_from(doc.dest->Some_0) {
                Err(e) => Err(e),
                Ok(dest) => Ok(
                    NfeV {
                        versao: doc.versao,
                        chave_acesso: doc.chave_acesso,
                        ide: doc.ide,
                        emit: doc.emit,
                        dest,
                        itens: doc.itens,
                        totais: doc.totais,
                        transporte: doc.transporte,
                        informacao_complementar: doc.informacao_complementar,
                    },
                ),
            }
        }
    }

    /// Takes a document of the base as a NF-e.
    pub fn try_from(doc: NfeBase) -> (r: Result<Nfe, Error>)
        ensures
            r matches Ok(v) ==> Self::spec_try_from(doc@) == Ok::<NfeV, ErrorV>(v@),
            r matches Err(e) ==> Self::spec_try_from(doc@) == Err::<NfeV, ErrorV>(e@),
    {
        if doc.ide.modelo != ModeloDocumentoFiscal::Nfe {
            return Err(Error::ModeloInvalido(doc.ide.modelo));
        }
        let dest = match doc.dest {
            Some(dest) => Destinatario::try_from(dest)?,
            None => {
                return Err(Error::DestinatarioInvalido("Não informado no documento".to_owned()));
            },
        };
        Ok(
            Nfe {
                versao: doc.versao,
                chave_acesso: doc.chave_acesso,
                ide: doc.ide,
                emit: doc.emit,
                dest,
                itens: doc.itens,
                totais: doc.totais,
                transporte: doc.transporte,
                informacao_complementar: doc.informacao_complementar,
            },
        )
    }

    /// The document of the base that holds the same.
    pub fn into_base(self) -> (r: NfeBase)
        ensures
            r@ == self@.spec_into_base(),
    {
        NfeBase {
            versao: self.versao,
            chave_acesso: self.chave_acesso,
            ide: self.ide,
            emit: self.emit,
            dest: Some(self.dest.into_base()),
            itens: self.itens,
            totais: self.totais,
            transporte: self.transporte,
            informacao_complementar: self.informacao_complementar,
        }
    }

    /// What reading the text `s` gives: the document of the base that it
    /// holds, taken as a NF-e.
    pub open spec fn spec_from_str(s: Seq<char>) -> Result<NfeV, ErrorV> {
        match NfeBase::spec_from_str(s) {
            Err(e) => Err(ErrorV::Base(e)),
            Ok(base) => Self::spec_try_from(base),
        }
    }

    /// Reads a NF-e from a text.
    pub fn from_str(s: &str) -> (r: Result<Nfe, Error>)
        ensures
            r matches Ok(v) ==> Self::spec_from_str(s@) == Ok::<NfeV, ErrorV>(v@),
            r matches Err(e) ==> Self::spec_from_str(s@) == Err::<NfeV, ErrorV>(e@),
    {
        match NfeBase::from_str(s) {
            Err(e) => Err(Error::Base(e)),
            Ok(base) => Self::try_from(base),
        }
    }

    /// Whether the NF-e is one that can be encoded.
    pub fn eh_valido(&self) -> (b: bool)
        ensures
            b == self@.spec_into_base().valido(),
    {
        if !(self.ide.eh_valido() && self.emit.eh_valido() && self.dest.eh_valido()
            && self.itens.len() > 0 && texto_opcional_valido(&self.informacao_complementar)) {
            return false;
        }
        let mut i: usize = 0;
        while i < self.itens.len()
            invariant
                i <= self.itens.len(),
                forall|j: int| 0 <= j < i ==> (#[trigger] self@.itens[j]).valido(),
            decreases self.itens.len() - i,
        {
            if !self.itens[i].eh_valido() {
                assert(!self@.spec_into_base().itens[i as int].valido());
                return false;
            }
            i += 1;
        }
        item_repetido(&self.itens).is_none()
    }

    /// Encodes a NF-e as the element `NFe`, as the base does.
    pub fn serialize(&self) -> (r: Elemento)
        requires
            self@.spec_into_base().valido(),
        ensures
            r@ == self@.spec_into_base().spec_serialize(),
    {
        let atributos = atributos_do_documento(self.versao, &self.chave_acesso);
        let mut filhos: Vec<Elemento> = Vec::new();
        anexar(&mut filhos, self.ide.serialize());
        anexar(&mut filhos, self.emit.serialize());
        anexar(&mut filhos, self.dest.serialize());
        por_itens(&mut filhos, &self.itens);
        anexar(&mut filhos, self.totais.serialize());
        anexar(&mut filhos, self.transporte.serialize());
        por_informacao(&mut filhos, &self.informacao_complementar);
        let mut raiz: Vec<Elemento> = Vec::new();
        anexar(&mut raiz, Elemento::novo("infNFe", atributos, filhos));
        Elemento::grupo("NFe", raiz)
    }

    /// Writes a NF-e as text.
    pub fn to_string(&self) -> (r: String)
        requires
            self@.spec_into_base().valido(),
        ensures
            r@ == texto_xml(self@.spec_into_base().spec_serialize()),
    {
        escrever_xml(&self.serialize())
    }

    /// Writes a NF-e as text, where it is one that can be encoded.
    pub fn try_to_string(&self) -> (r: Option<String>)
        ensures
            r matches Some(t) ==> self@.spec_into_base().valido() && t@ == texto_xml(
                self@.spec_into_base().spec_serialize(),
            ),
            r is None ==> !self@.spec_into_base().valido(),
    {
        if self.eh_valido() {
            Some(self.to_string())
        } else {
            None
        }
    }

    /// A NF-e written as a document of the base and taken back is the same.
    pub proof fn lemma_ida_e_volta(v: NfeV)
        requires
            v.ide.modelo == ModeloDocumentoFiscal::Nfe,
        ensures
            Self::spec_try_from(v.spec_into_base()) == Ok::<NfeV, ErrorV>(v),
    {
    }
}

} // verus!
