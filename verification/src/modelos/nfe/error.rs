//! Errors of the model 55.

use vstd::prelude::*;
use vstd::string::StringExecFns;
use crate::base::ide::ModeloDocumentoFiscal;
use crate::base::{Error as ErrorBase, ErrorV as ErrorBaseV};

verus! {

/// Why a document could not be read as a NF-e.
#[derive(Debug, Clone, PartialEq, Eq)]
pub enum Error {
    /// The document is of another fiscal model.
    ModeloInvalido(ModeloDocumentoFiscal),
    /// The recipient, or a part of it that a NF-e cannot do without, is
    /// missing. The text says which.
    DestinatarioInvalido(String),
    /// The document could not be decoded at all.
    Base(ErrorBase),
}

/// The mathematical value of an [`Error`].
pub ghost enum ErrorV {
    ModeloInvalido(ModeloDocumentoFiscal),
    DestinatarioInvalido(Seq<char>),
    Base(ErrorBaseV),
}

impl View for Error {
    type V = ErrorV;

    open spec fn view(&self) -> ErrorV {
        match self {
            Error::ModeloInvalido(modelo) => ErrorV::ModeloInvalido(*modelo),
            Error::DestinatarioInvalido(motivo) => ErrorV::DestinatarioInvalido(motivo@),
            Error::Base(e) => ErrorV::Base(e@),
        }
    }
}

impl ErrorV {
    /// The message of the error.
    pub open spec fn mensagem(self) -> Seq<char> {
        match self {
            ErrorV::ModeloInvalido(modelo) => "Modelo do documento não suportado: "@ + (
            match modelo {
                ModeloDocumentoFiscal::Nfe => "Nfe"@,
                ModeloDocumentoFiscal::Nfce => "Nfce"@,
            }),
            ErrorV::DestinatarioInvalido(motivo) => "Destinatário inválido. "@ + motivo,
            ErrorV::Base(e) => e.mensagem(),
        }
    }
}

impl Error {
    /// A message for the user, in the language of the documents.
    pub fn to_string(&self) -> (r: String)
        ensures
            r@ == self@.mensagem(),
    {
        let mut r = String::new();
        match self {
            Error::ModeloInvalido(modelo) => {
                r.append("Modelo do documento não suportado: ");
                match modelo {
                    ModeloDocumentoFiscal::Nfe => r.append("Nfe"),
                    ModeloDocumentoFiscal::Nfce => r.append("Nfce"),
                }
            },
            Error::DestinatarioInvalido(motivo) => {
                r.append("Destinatário inválido. ");
                r.append(motivo.as_str());
            },
            Error::Base(e) => {
                let texto = e.to_string();
                r.append(texto.as_str());
            },
        }
        assert(r@ =~= self@.mensagem());
        r
    }
}

} // verus!
