//! Decoding errors.

use vstd::prelude::*;
use vstd::string::StringExecFns;
use crate::escalar::{codificar_inteiro, texto_inteiro};

verus! {

/// The kind of scalar that a text was expected to hold.
#[derive(Debug, Clone, Copy, PartialEq, Eq, Structural)]
pub enum TipoEscalar {
    /// An unsigned integer of a declared width.
    Inteiro,
    /// A non-negative decimal number.
    Decimal,
    /// A boolean written as the digit `0` or `1`.
    Booleano,
    /// A date and time with an offset from UTC.
    DataHora,
}

/// Why a document could not be decoded. The first problem met ends the
/// decoding; no partial result is returned.
#[derive(Debug, Clone, PartialEq, Eq)]
pub enum Error {
    /// The text is not a well-formed tree of elements.
    Xml,
    /// A mandatory tag or attribute, named here, is absent.
    CampoAusente(String),
    /// The text of the named tag does not hold a scalar of the expected kind.
    TipoInvalido(String, TipoEscalar),
    /// The named code table has no entry for the code found.
    CodigoDesconhecido(String, String),
    /// The document declares a layout version other than the supported one.
    VersaoNaoSuportada(String),
    /// Two line items of the document have the number given here.
    ItemRepetido(u8),
}

/// The mathematical value of an [`Error`].
pub ghost enum ErrorV {
    Xml,
    CampoAusente(Seq<char>),
    TipoInvalido(Seq<char>, TipoEscalar),
    CodigoDesconhecido(Seq<char>, Seq<char>),
    VersaoNaoSuportada(Seq<char>),
    ItemRepetido(u8),
}

impl View for Error {
    type V = ErrorV;

    open spec fn view(&self) -> ErrorV {
        match self {
            Error::Xml => ErrorV::Xml,
            Error::CampoAusente(tag) => ErrorV::CampoAusente(tag@),
            Error::TipoInvalido(tag, tipo) => ErrorV::TipoInvalido(tag@, *tipo),
            Error::CodigoDesconhecido(tabela, codigo) => ErrorV::CodigoDesconhecido(
                tabela@,
                codigo@,
            ),
            Error::VersaoNaoSuportada(versao) => ErrorV::VersaoNaoSuportada(versao@),
            Error::ItemRepetido(numero) => ErrorV::ItemRepetido(*numero),
        }
    }
}

impl ErrorV {
    /// The message of the error.
    pub open spec fn mensagem(self) -> Seq<char> {
        match self {
            ErrorV::Xml => "Falha no parse: documento malformado"@,
            ErrorV::CampoAusente(tag) => "Tag <"@ + tag + "> não encontrada"@,
            ErrorV::TipoInvalido(tag, _) => "Valor inválido na tag <"@ + tag + ">"@,
            ErrorV::CodigoDesconhecido(tabela, codigo) => "Código '"@ + codigo
                + "' desconhecido na tag <"@ + tabela + ">"@,
            ErrorV::VersaoNaoSuportada(versao) => "Versão do layout não suportada: "@ + versao,
            ErrorV::ItemRepetido(numero) => "Número de item repetido: "@ + texto_inteiro(
                numero as nat,
            ),
        }
    }
}

impl Error {
    /// A message for the user, in the language of the documents.
    pub fn to_string(&self) -> (r: String)
        ensures
            r@ == self@.mensagem(),
    {
        let mut r = String::new();
        match self {
            Error::Xml => {
                r.append("Falha no parse: documento malformado");
            },
            Error::CampoAusente(tag) => {
                r.append("Tag <");
                r.append(tag.as_str());
                r.append("> não encontrada");
            },
            Error::TipoInvalido(tag, _) => {
                r.append("Valor inválido na tag <");
                r.append(tag.as_str());
                r.append(">");
            },
            Error::CodigoDesconhecido(tabela, codigo) => {
                r.append("Código '");
                r.append(codigo.as_str());
                r.append("' desconhecido na tag <");
                r.append(tabela.as_str());
                r.append(">");
            },
            Error::VersaoNaoSuportada(versao) => {
                r.append("Versão do layout não suportada: ");
                r.append(versao.as_str());
            },
            Error::ItemRepetido(numero) => {
                r.append("Número de item repetido: ");
                r.append(codificar_inteiro(*numero as u64).as_str());
            },
        }
        assert(r@ =~= self@.mensagem());
        r
    }
}

} // verus!
