//! Fields: the scalars of a section, looked up by tag among the children of
//! its element and decoded, or encoded and appended to them.
//!
//! A mandatory field that is absent is an error; an optional one is simply
//! absent, and is written as no tag at all.

use vstd::prelude::*;
use crate::arvore::{
    acrescido, anexar, lemma_primeiro_atributo_push, lemma_primeiro_atributo_vazio,
    lemma_primeiro_push, lemma_primeiro_vazio, primeiro, ver_elementos, Elemento, ElementoV,
};
use crate::base::{Error, ErrorV, TipoEscalar};
use crate::codigo::Codigo;
use crate::data_hora::{
    codificar_data_hora, data_hora_de, decodificar_data_hora, texto_data_hora, DataHora,
};
use crate::escalar::{
    booleano_de, codificar_booleano, codificar_decimal, codificar_gtin, codificar_inteiro,
    decimal_de, decodificar_booleano, decodificar_decimal, decodificar_gtin, decodificar_inteiro,
    gtin_de, inteiro_de, sem_gtin, texto_booleano, texto_decimal, texto_gtin, texto_inteiro,
    Decimal,
};
use crate::texto::{aparado, iguais, mesmo_texto};

verus! {

/// The text of a mandatory field, trimmed.
pub open spec fn spec_texto(no: ElementoV, tag: Seq<char>) -> Result<Seq<char>, ErrorV> {
    match no.filho(tag) {
        None => Err(ErrorV::CampoAusente(tag)),
        Some(f) => Ok(aparado(f.texto)),
    }
}

/// The text of an optional field, trimmed.
pub open spec fn spec_texto_opcional(no: ElementoV, tag: Seq<char>) -> Option<Seq<char>> {
    match no.filho(tag) {
        None => None,
        Some(f) => Some(aparado(f.texto)),
    }
}

/// The unsigned integer, at most `max`, that `texto` holds.
pub open spec fn escalar_inteiro(texto: Seq<char>, tag: Seq<char>, max: nat) -> Result<
    nat,
    ErrorV,
> {
    match inteiro_de(texto, max) {
        None => Err(ErrorV::TipoInvalido(tag, TipoEscalar::Inteiro)),
        Some(n) => Ok(n),
    }
}

/// A mandatory integer of 8 bits.
pub open spec fn spec_u8(no: ElementoV, tag: Seq<char>) -> Result<u8, ErrorV> {
    match no.filho(tag) {
        None => Err(ErrorV::CampoAusente(tag)),
        Some(f) => match escalar_inteiro(f.texto, tag, u8::MAX as nat) {
            Err(e) => Err(e),
            Ok(n) => Ok(n as u8),
        },
    }
}

/// A mandatory integer of 16 bits.
pub open spec fn spec_u16(no: ElementoV, tag: Seq<char>) -> Result<u16, ErrorV> {
    match no.filho(tag) {
        None => Err(ErrorV::CampoAusente(tag)),
        Some(f) => match escalar_inteiro(f.texto, tag, u16::MAX as nat) {
            Err(e) => Err(e),
            Ok(n) => Ok(n as u16),
        },
    }
}

/// A mandatory integer of 32 bits.
pub open spec fn spec_u32(no: ElementoV, tag: Seq<char>) -> Result<u32, ErrorV> {
    match no.filho(tag) {
        None => Err(ErrorV::CampoAusente(tag)),
        Some(f) => match escalar_inteiro(f.texto, tag, u32::MAX as nat) {
            Err(e) => Err(e),
            Ok(n) => Ok(n as u32),
        },
    }
}

/// An optional integer of 32 bits.
pub open spec fn spec_u32_opcional(no: ElementoV, tag: Seq<char>) -> Result<Option<u32>, ErrorV> {
    match no.filho(tag) {
        None => Ok(None),
        Some(f) => match escalar_inteiro(f.texto, tag, u32::MAX as nat) {
            Err(e) => Err(e),
            Ok(n) => Ok(Some(n as u32)),
        },
    }
}

/// The decimal that `texto` holds.
pub open spec fn escalar_decimal(texto: Seq<char>, tag: Seq<char>) -> Result<Decimal, ErrorV> {
    match decimal_de(texto) {
        None => Err(ErrorV::TipoInvalido(tag, TipoEscalar::Decimal)),
        Some(d) => Ok(d),
    }
}

/// A mandatory decimal.
pub open spec fn spec_decimal(no: ElementoV, tag: Seq<char>) -> Result<Decimal, ErrorV> {
    match no.filho(tag) {
        None => Err(ErrorV::CampoAusente(tag)),
        Some(f) => escalar_decimal(f.texto, tag),
    }
}

/// An optional decimal.
pub open spec fn spec_decimal_opcional(no: ElementoV, tag: Seq<char>) -> Result<
    Option<Decimal>,
    ErrorV,
> {
    match no.filho(tag) {
        None => Ok(None),
        Some(f) => match escalar_decimal(f.texto, tag) {
            Err(e) => Err(e),
            Ok(d) => Ok(Some(d)),
        },
    }
}

/// A mandatory boolean, written as a digit.
pub open spec fn spec_booleano(no: ElementoV, tag: Seq<char>) -> Result<bool, ErrorV> {
    match no.filho(tag) {
        None => Err(ErrorV::CampoAusente(tag)),
        Some(f) => match booleano_de(f.texto) {
            None => Err(ErrorV::TipoInvalido(tag, TipoEscalar::Booleano)),
            Some(b) => Ok(b),
        },
    }
}

/// A barcode: the tag is mandatory, its text may say that there is none.
pub open spec fn spec_gtin(no: ElementoV, tag: Seq<char>) -> Result<Option<Seq<char>>, ErrorV> {
    match no.filho(tag) {
        None => Err(ErrorV::CampoAusente(tag)),
        Some(f) => Ok(gtin_de(f.texto)),
    }
}

/// The variant of the table `T` that `texto` holds: the text is an integer
/// of 8 bits and the table documents it. An undocumented code is an error,
/// never a default.
pub open spec fn escalar_codigo<T: Codigo>(texto: Seq<char>, tag: Seq<char>) -> Result<T, ErrorV> {
    match inteiro_de(texto, u8::MAX as nat) {
        None => Err(ErrorV::TipoInvalido(tag, TipoEscalar::Inteiro)),
        Some(n) => match T::de_codigo_spec(n as u8) {
            None => Err(ErrorV::CodigoDesconhecido(tag, texto)),
            Some(v) => Ok(v),
        },
    }
}

/// A mandatory code of the table `T`.
pub open spec fn spec_codigo<T: Codigo>(no: ElementoV, tag: Seq<char>) -> Result<T, ErrorV> {
    match no.filho(tag) {
        None => Err(ErrorV::CampoAusente(tag)),
        Some(f) => escalar_codigo::<T>(f.texto, tag),
    }
}

/// An optional code of the table `T`.
pub open spec fn spec_codigo_opcional<T: Codigo>(no: ElementoV, tag: Seq<char>) -> Result<
    Option<T>,
    ErrorV,
> {
    match no.filho(tag) {
        None => Ok(None),
        Some(f) => match escalar_codigo::<T>(f.texto, tag) {
            Err(e) => Err(e),
            Ok(v) => Ok(Some(v)),
        },
    }
}

/// The date and time that `texto` holds.
pub open spec fn escalar_data_hora(texto: Seq<char>, tag: Seq<char>) -> Result<DataHora, ErrorV> {
    match data_hora_de(texto) {
        None => Err(ErrorV::TipoInvalido(tag, TipoEscalar::DataHora)),
        Some(d) => Ok(d),
    }
}

/// A mandatory date and time.
pub open spec fn spec_data_hora(no: ElementoV, tag: Seq<char>) -> Result<DataHora, ErrorV> {
    match no.filho(tag) {
        None => Err(ErrorV::CampoAusente(tag)),
        Some(f) => escalar_data_hora(f.texto, tag),
    }
}

/// An optional date and time.
pub open spec fn spec_data_hora_opcional(no: ElementoV, tag: Seq<char>) -> Result<
    Option<DataHora>,
    ErrorV,
> {
    match no.filho(tag) {
        None => Ok(None),
        Some(f) => match escalar_data_hora(f.texto, tag) {
            Err(e) => Err(e),
            Ok(d) => Ok(Some(d)),
        },
    }
}

/// The value of a mandatory attribute.
pub open spec fn spec_atributo(no: ElementoV, nome: Seq<char>) -> Result<Seq<char>, ErrorV> {
    match no.atributo(nome) {
        None => Err(ErrorV::CampoAusente(nome)),
        Some(valor) => Ok(valor),
    }
}

/// A mandatory attribute that holds an integer of 8 bits.
pub open spec fn spec_atributo_u8(no: ElementoV, nome: Seq<char>) -> Result<u8, ErrorV> {
    match no.atributo(nome) {
        None => Err(ErrorV::CampoAusente(nome)),
        Some(valor) => match escalar_inteiro(valor, nome, u8::MAX as nat) {
            Err(e) => Err(e),
            Ok(n) => Ok(n as u8),
        },
    }
}

/// A mandatory child element.
pub open spec fn spec_secao(no: ElementoV, tag: Seq<char>) -> Result<ElementoV, ErrorV> {
    match no.filho(tag) {
        None => Err(ErrorV::CampoAusente(tag)),
        Some(f) => Ok(f),
    }
}

/// The leaf that holds a text where there is one.
pub open spec fn folha_opcional(tag: Seq<char>, texto: Option<Seq<char>>) -> Option<ElementoV> {
    match texto {
        Some(t) => Some(ElementoV::folha(tag, t)),
        None => None,
    }
}

/// The leaf that holds an integer.
#[verifier::inline]
pub open spec fn folha_inteiro(tag: Seq<char>, n: nat) -> ElementoV {
    ElementoV::folha(tag, texto_inteiro(n))
}

/// The text of an integer of 32 bits where there is one.
pub open spec fn texto_u32_opcional(n: Option<u32>) -> Option<Seq<char>> {
    match n {
        Some(n) => Some(texto_inteiro(n as nat)),
        None => None,
    }
}

/// The leaf that holds an integer of 32 bits where there is one.
#[verifier::inline]
pub open spec fn folha_u32_opcional(tag: Seq<char>, n: Option<u32>) -> Option<ElementoV> {
    folha_opcional(tag, texto_u32_opcional(n))
}

/// The leaf that holds a decimal.
#[verifier::inline]
pub open spec fn folha_decimal(tag: Seq<char>, d: Decimal) -> ElementoV {
    ElementoV::folha(tag, texto_decimal(d))
}

/// The text of a decimal where there is one.
pub open spec fn texto_decimal_opcional(d: Option<Decimal>) -> Option<Seq<char>> {
    match d {
        Some(d) => Some(texto_decimal(d)),
        None => None,
    }
}

/// The leaf that holds a decimal where there is one.
#[verifier::inline]
pub open spec fn folha_decimal_opcional(tag: Seq<char>, d: Option<Decimal>) -> Option<ElementoV> {
    folha_opcional(tag, texto_decimal_opcional(d))
}

/// The leaf that holds a boolean.
#[verifier::inline]
pub open spec fn folha_booleano(tag: Seq<char>, b: bool) -> ElementoV {
    ElementoV::folha(tag, texto_booleano(b))
}

/// The leaf that holds a barcode, or the phrase for a missing one.
#[verifier::inline]
pub open spec fn folha_gtin(tag: Seq<char>, gtin: Option<Seq<char>>) -> ElementoV {
    ElementoV::folha(tag, texto_gtin(gtin))
}

/// The leaf that holds the code of a variant.
#[verifier::inline]
pub open spec fn folha_codigo<T: Codigo>(tag: Seq<char>, v: T) -> ElementoV {
    folha_inteiro(tag, v.codigo_spec() as nat)
}

/// The text of the code of a variant where there is one.
pub open spec fn texto_codigo_opcional<T: Codigo>(v: Option<T>) -> Option<Seq<char>> {
    match v {
        Some(v) => Some(texto_inteiro(v.codigo_spec() as nat)),
        None => None,
    }
}

/// The leaf that holds the code of a variant where there is one.
#[verifier::inline]
pub open spec fn folha_codigo_opcional<T: Codigo>(tag: Seq<char>, v: Option<T>) -> Option<
    ElementoV,
> {
    folha_opcional(tag, texto_codigo_opcional(v))
}

/// The leaf that holds a date and time.
#[verifier::inline]
pub open spec fn folha_data_hora(tag: Seq<char>, d: DataHora) -> ElementoV {
    ElementoV::folha(tag, texto_data_hora(d))
}

/// The text of a date and time where there is one.
pub open spec fn texto_data_hora_opcional(d: Option<DataHora>) -> Option<Seq<char>> {
    match d {
        Some(d) => Some(texto_data_hora(d)),
        None => None,
    }
}

/// The leaf that holds a date and time where there is one.
#[verifier::inline]
pub open spec fn folha_data_hora_opcional(tag: Seq<char>, d: Option<DataHora>) -> Option<
    ElementoV,
> {
    folha_opcional(tag, texto_data_hora_opcional(d))
}

/// What `primeiro` finds after an element was appended, where there was one
/// to append.
pub broadcast proof fn lemma_primeiro_acrescido(
    es: Seq<ElementoV>,
    e: Option<ElementoV>,
    nome: Seq<char>,
)
    ensures
        #[trigger] primeiro(acrescido(es, e), nome) == if primeiro(es, nome) is Some {
            primeiro(es, nome)
        } else if e is Some && mesmo_texto(e->Some_0.nome, nome) {
            e
        } else {
            None
        },
{
    if e is Some {
        lemma_primeiro_push(es, e->Some_0, nome);
    }
}

/// What `primeiro` finds after the leaf of an optional field was appended:
/// whether the leaf is the one looked for is a matter of its tag alone.
pub broadcast proof fn lemma_primeiro_folha_opcional(
    es: Seq<ElementoV>,
    tag: Seq<char>,
    texto: Option<Seq<char>>,
    nome: Seq<char>,
)
    ensures
        #[trigger] primeiro(acrescido(es, folha_opcional(tag, texto)), nome) == if primeiro(
            es,
            nome,
        ) is Some {
            primeiro(es, nome)
        } else if mesmo_texto(tag, nome) {
            folha_opcional(tag, texto)
        } else {
            None
        },
{
    lemma_primeiro_acrescido(es, folha_opcional(tag, texto), nome);
}

/// What is found among children, or among attributes, that were appended one
/// by one.
pub broadcast group grupo_busca {
    lemma_primeiro_vazio,
    lemma_primeiro_push,
    lemma_primeiro_folha_opcional,
    lemma_primeiro_atributo_vazio,
    lemma_primeiro_atributo_push,
}

/// That each kind of scalar is read back from its text.
pub broadcast group grupo_ida_e_volta {
    lemma_codigo_ida_e_volta,
    crate::escalar::lemma_inteiro_ida_e_volta,
    crate::escalar::lemma_decimal_ida_e_volta,
    crate::escalar::lemma_booleano_ida_e_volta,
    crate::escalar::lemma_gtin_ida_e_volta,
    crate::data_hora::lemma_data_hora_ida_e_volta,
}

/// Decoding the encoded code of a variant gives the variant back.
pub broadcast proof fn lemma_codigo_ida_e_volta<T: Codigo>(v: T, tag: Seq<char>)
    ensures
        #[trigger] escalar_codigo::<T>(texto_inteiro(v.codigo_spec() as nat), tag)
            == Ok::<T, ErrorV>(v),
{
    broadcast use crate::escalar::lemma_inteiro_ida_e_volta;

    T::lemma_codigo_ida_e_volta(v);
}

/// A code that the table `T` documents is decoded as the variant that the
/// table gives it, however the text writes the number.
pub proof fn lemma_codigo_documentado<T: Codigo>(texto: Seq<char>, tag: Seq<char>, v: T)
    requires
        inteiro_de(texto, u8::MAX as nat) == Some(v.codigo_spec() as nat),
    ensures
        escalar_codigo::<T>(texto, tag) == Ok::<T, ErrorV>(v),
{
    T::lemma_codigo_ida_e_volta(v);
}

/// A code that the table `T` does not document is an error that names the
/// table and the code: there is no default to fall back on.
pub proof fn lemma_codigo_desconhecido<T: Codigo>(texto: Seq<char>, tag: Seq<char>)
    requires
        inteiro_de(texto, u8::MAX as nat) matches Some(n) && T::de_codigo_spec(n as u8) is None,
    ensures
        escalar_codigo::<T>(texto, tag) == Err::<T, ErrorV>(
            ErrorV::CodigoDesconhecido(tag, texto),
        ),
{
}

/// The mandatory child named `tag`.
pub fn ler_secao<'a>(no: &'a Elemento, tag: &str) -> (r: Result<&'a Elemento, Error>)
    ensures
        r matches Ok(f) ==> spec_secao(no@, tag@) == Ok::<ElementoV, ErrorV>(f@),
        r matches Err(e) ==> spec_secao(no@, tag@) == Err::<ElementoV, ErrorV>(e@),
{
    match no.filho(tag) {
        None => Err(Error::CampoAusente(tag.to_owned())),
        Some(f) => Ok(f),
    }
}

/// Reads a mandatory attribute.
pub fn ler_atributo<'a>(no: &'a Elemento, nome: &str) -> (r: Result<&'a String, Error>)
    ensures
        r matches Ok(v) ==> spec_atributo(no@, nome@) == Ok::<Seq<char>, ErrorV>(v@),
        r matches Err(e) ==> spec_atributo(no@, nome@) == Err::<Seq<char>, ErrorV>(e@),
{
    match no.atributo(nome) {
        None => Err(Error::CampoAusente(nome.to_owned())),
        Some(valor) => Ok(valor),
    }
}

/// Reads a mandatory text.
pub fn ler_texto(no: &Elemento, tag: &str) -> (r: Result<String, Error>)
    ensures
        r matches Ok(v) ==> spec_texto(no@, tag@) == Ok::<Seq<char>, ErrorV>(v@),
        r matches Err(e) ==> spec_texto(no@, tag@) == Err::<Seq<char>, ErrorV>(e@),
{
    let f = ler_secao(no, tag)?;
    Ok(f.texto.as_str().trim().to_owned())
}

/// Reads an optional text.
pub fn ler_texto_opcional(no: &Elemento, tag: &str) -> (r: Option<String>)
    ensures
        r.deep_view() == spec_texto_opcional(no@, tag@),
{
    match no.filho(tag) {
        None => None,
        Some(f) => Some(f.texto.as_str().trim().to_owned()),
    }
}

/// Decodes an unsigned integer that is at most `max`, for the field `tag`.
fn ler_escalar_inteiro(texto: &str, tag: &str, max: u64) -> (r: Result<u64, Error>)
    ensures
        r matches Ok(n) ==> escalar_inteiro(texto@, tag@, max as nat) == Ok::<nat, ErrorV>(
            n as nat,
        ),
        r matches Err(e) ==> escalar_inteiro(texto@, tag@, max as nat) == Err::<nat, ErrorV>(e@),
{
    match decodificar_inteiro(texto, max) {
        None => Err(Error::TipoInvalido(tag.to_owned(), TipoEscalar::Inteiro)),
        Some(n) => Ok(n),
    }
}

/// Reads a mandatory integer of 8 bits.
pub fn ler_u8(no: &Elemento, tag: &str) -> (r: Result<u8, Error>)
    ensures
        r matches Ok(n) ==> spec_u8(no@, tag@) == Ok::<u8, ErrorV>(n),
        r matches Err(e) ==> spec_u8(no@, tag@) == Err::<u8, ErrorV>(e@),
{
    let f = ler_secao(no, tag)?;
    let n = ler_escalar_inteiro(f.texto.as_str(), tag, 0xFF)?;
    Ok(n as u8)
}

/// Reads a mandatory attribute that holds an integer of 8 bits.
pub fn ler_atributo_u8(no: &Elemento, nome: &str) -> (r: Result<u8, Error>)
    ensures
        r matches Ok(n) ==> spec_atributo_u8(no@, nome@) == Ok::<u8, ErrorV>(n),
        r matches Err(e) ==> spec_atributo_u8(no@, nome@) == Err::<u8, ErrorV>(e@),
{
    let valor = ler_atributo(no, nome)?;
    let n = ler_escalar_inteiro(valor.as_str(), nome, 0xFF)?;
    Ok(n as u8)
}

/// Reads a mandatory integer of 16 bits.
pub fn ler_u16(no: &Elemento, tag: &str) -> (r: Result<u16, Error>)
    ensures
        r matches Ok(n) ==> spec_u16(no@, tag@) == Ok::<u16, ErrorV>(n),
        r matches Err(e) ==> spec_u16(no@, tag@) == Err::<u16, ErrorV>(e@),
{
    let f = ler_secao(no, tag)?;
    let n = ler_escalar_inteiro(f.texto.as_str(), tag, 0xFFFF)?;
    Ok(n as u16)
}

/// Reads a mandatory integer of 32 bits.
pub fn ler_u32(no: &Elemento, tag: &str) -> (r: Result<u32, Error>)
    ensures
        r matches Ok(n) ==> spec_u32(no@, tag@) == Ok::<u32, ErrorV>(n),
        r matches Err(e) ==> spec_u32(no@, tag@) == Err::<u32, ErrorV>(e@),
{
    let f = ler_secao(no, tag)?;
    let n = ler_escalar_inteiro(f.texto.as_str(), tag, 0xFFFF_FFFF)?;
    Ok(n as u32)
}

/// Reads an optional integer of 32 bits.
pub fn ler_u32_opcional(no: &Elemento, tag: &str) -> (r: Result<Option<u32>, Error>)
    ensures
        r matches Ok(n) ==> spec_u32_opcional(no@, tag@) == Ok::<Option<u32>, ErrorV>(n),
        r matches Err(e) ==> spec_u32_opcional(no@, tag@) == Err::<Option<u32>, ErrorV>(e@),
{
    match no.filho(tag) {
        None => Ok(None),
        Some(f) => {
            let n = ler_escalar_inteiro(f.texto.as_str(), tag, 0xFFFF_FFFF)?;
            Ok(Some(n as u32))
        },
    }
}

/// Decodes a decimal, for the field `tag`.
fn ler_escalar_decimal(texto: &str, tag: &str) -> (r: Result<Decimal, Error>)
    ensures
        r matches Ok(d) ==> escalar_decimal(texto@, tag@) == Ok::<Decimal, ErrorV>(d),
        r matches Err(e) ==> escalar_decimal(texto@, tag@) == Err::<Decimal, ErrorV>(e@),
{
    match decodificar_decimal(texto) {
        None => Err(Error::TipoInvalido(tag.to_owned(), TipoEscalar::Decimal)),
        Some(d) => Ok(d),
    }
}

/// Reads a mandatory decimal.
pub fn ler_decimal(no: &Elemento, tag: &str) -> (r: Result<Decimal, Error>)
    ensures
        r matches Ok(d) ==> spec_decimal(no@, tag@) == Ok::<Decimal, ErrorV>(d),
        r matches Err(e) ==> spec_decimal(no@, tag@) == Err::<Decimal, ErrorV>(e@),
{
    let f = ler_secao(no, tag)?;
    ler_escalar_decimal(f.texto.as_str(), tag)
}

/// Reads an optional decimal.
pub fn ler_decimal_opcional(no: &Elemento, tag: &str) -> (r: Result<Option<Decimal>, Error>)
    ensures
        r matches Ok(d) ==> spec_decimal_opcional(no@, tag@) == Ok::<Option<Decimal>, ErrorV>(d),
        r matches Err(e) ==> spec_decimal_opcional(no@, tag@) == Err::<Option<Decimal>, ErrorV>(
            e@,
        ),
{
    match no.filho(tag) {
        None => Ok(None),
        Some(f) => {
            let d = ler_escalar_decimal(f.texto.as_str(), tag)?;
            Ok(Some(d))
        },
    }
}

/// Reads a mandatory boolean.
pub fn ler_booleano(no: &Elemento, tag: &str) -> (r: Result<bool, Error>)
    ensures
        r matches Ok(b) ==> spec_booleano(no@, tag@) == Ok::<bool, ErrorV>(b),
        r matches Err(e) ==> spec_booleano(no@, tag@) == Err::<bool, ErrorV>(e@),
{
    let f = ler_secao(no, tag)?;
    match decodificar_booleano(f.texto.as_str()) {
        None => Err(Error::TipoInvalido(tag.to_owned(), TipoEscalar::Booleano)),
        Some(b) => Ok(b),
    }
}

/// Reads a barcode.
pub fn ler_gtin(no: &Elemento, tag: &str) -> (r: Result<Option<String>, Error>)
    ensures
        r matches Ok(v) ==> spec_gtin(no@, tag@) == Ok::<Option<Seq<char>>, ErrorV>(
            v.deep_view(),
        ),
        r matches Err(e) ==> spec_gtin(no@, tag@) == Err::<Option<Seq<char>>, ErrorV>(e@),
{
    let f = ler_secao(no, tag)?;
    Ok(decodificar_gtin(f.texto.as_str()))
}

/// Decodes a code of the table `T`, for the field `tag`.
pub fn decodificar_codigo<T: Codigo>(texto: &str, tag: &str) -> (r: Result<T, Error>)
    ensures
        r matches Ok(v) ==> escalar_codigo::<T>(texto@, tag@) == Ok::<T, ErrorV>(v),
        r matches Err(e) ==> escalar_codigo::<T>(texto@, tag@) == Err::<T, ErrorV>(e@),
{
    match decodificar_inteiro(texto, 0xFF) {
        None => Err(Error::TipoInvalido(tag.to_owned(), TipoEscalar::Inteiro)),
        Some(n) => match T::de_codigo(n as u8) {
            None => Err(Error::CodigoDesconhecido(tag.to_owned(), texto.to_owned())),
            Some(v) => Ok(v),
        },
    }
}

/// Encodes a variant of the table `T` as its code.
pub fn codificar_codigo<T: Codigo>(v: &T) -> (r: String)
    ensures
        r@ == texto_inteiro(v.codigo_spec() as nat),
{
    codificar_inteiro(v.codigo() as u64)
}

/// Reads a mandatory code of the table `T`.
pub fn ler_codigo<T: Codigo>(no: &Elemento, tag: &str) -> (r: Result<T, Error>)
    ensures
        r matches Ok(v) ==> spec_codigo::<T>(no@, tag@) == Ok::<T, ErrorV>(v),
        r matches Err(e) ==> spec_codigo::<T>(no@, tag@) == Err::<T, ErrorV>(e@),
{
    let f = ler_secao(no, tag)?;
    decodificar_codigo::<T>(f.texto.as_str(), tag)
}

/// Reads an optional code of the table `T`.
pub fn ler_codigo_opcional<T: Codigo>(no: &Elemento, tag: &str) -> (r: Result<Option<T>, Error>)
    ensures
        r matches Ok(v) ==> spec_codigo_opcional::<T>(no@, tag@) == Ok::<Option<T>, ErrorV>(v),
        r matches Err(e) ==> spec_codigo_opcional::<T>(no@, tag@) == Err::<Option<T>, ErrorV>(e@),
{
    match no.filho(tag) {
        None => Ok(None),
        Some(f) => {
            let v = decodificar_codigo::<T>(f.texto.as_str(), tag)?;
            Ok(Some(v))
        },
    }
}

/// Decodes a date and time, for the field `tag`.
fn ler_escalar_data_hora(texto: &str, tag: &str) -> (r: Result<DataHora, Error>)
    ensures
        r matches Ok(d) ==> escalar_data_hora(texto@, tag@) == Ok::<DataHora, ErrorV>(d),
        r matches Err(e) ==> escalar_data_hora(texto@, tag@) == Err::<DataHora, ErrorV>(e@),
{
    match decodificar_data_hora(texto) {
        None => Err(Error::TipoInvalido(tag.to_owned(), TipoEscalar::DataHora)),
        Some(d) => Ok(d),
    }
}

/// Reads a mandatory date and time.
pub fn ler_data_hora(no: &Elemento, tag: &str) -> (r: Result<DataHora, Error>)
    ensures
        r matches Ok(d) ==> spec_data_hora(no@, tag@) == Ok::<DataHora, ErrorV>(d),
        r matches Err(e) ==> spec_data_hora(no@, tag@) == Err::<DataHora, ErrorV>(e@),
{
    let f = ler_secao(no, tag)?;
    ler_escalar_data_hora(f.texto.as_str(), tag)
}

/// Reads an optional date and time.
pub fn ler_data_hora_opcional(no: &Elemento, tag: &str) -> (r: Result<Option<DataHora>, Error>)
    ensures
        r matches Ok(d) ==> spec_data_hora_opcional(no@, tag@) == Ok::<Option<DataHora>, ErrorV>(
            d,
        ),
        r matches Err(e) ==> spec_data_hora_opcional(no@, tag@) == Err::<Option<DataHora>, ErrorV>(
            e@,
        ),
{
    match no.filho(tag) {
        None => Ok(None),
        Some(f) => {
            let d = ler_escalar_data_hora(f.texto.as_str(), tag)?;
            Ok(Some(d))
        },
    }
}

/// Whether a text is trimmed, as the texts of a document are.
pub fn texto_valido(texto: &String) -> (b: bool)
    ensures
        b == (aparado(texto@) == texto@),
{
    iguais(texto.as_str().trim(), texto.as_str())
}

/// Whether a text, where there is one, is trimmed.
pub fn texto_opcional_valido(texto: &Option<String>) -> (b: bool)
    ensures
        b == (texto.deep_view() matches Some(t) ==> aparado(t) == t),
{
    match texto {
        Some(t) => texto_valido(t),
        None => true,
    }
}

/// Whether a barcode, where there is one, is read as a barcode and not as
/// the phrase for a missing one.
pub fn gtin_valido(gtin: &Option<String>) -> (b: bool)
    ensures
        b == (gtin.deep_view() matches Some(s) ==> !sem_gtin(s)),
{
    match gtin {
        Some(s) => decodificar_gtin(s.as_str()).is_some(),
        None => true,
    }
}

/// Whether an instant can be written and read back.
pub fn data_hora_valida(d: DataHora) -> (b: bool)
    ensures
        b == d.estavel(),
{
    DataHora::new(d.segundos, d.nanos).is_some()
}

/// Whether an instant, where there is one, can be written and read back.
pub fn data_hora_opcional_valida(d: Option<DataHora>) -> (b: bool)
    ensures
        b == (d matches Some(d) ==> d.estavel()),
{
    match d {
        Some(d) => data_hora_valida(d),
        None => true,
    }
}

/// Appends the leaf that holds a text.
pub fn por_texto(filhos: &mut Vec<Elemento>, tag: &str, texto: &String)
    ensures
        ver_elementos(final(filhos)@) == ver_elementos(old(filhos)@).push(
            ElementoV::folha(tag@, texto@),
        ),
{
    anexar(filhos, Elemento::folha(tag, texto.clone()));
}

/// Appends the leaf that holds a text, where there is one.
pub fn por_texto_opcional(filhos: &mut Vec<Elemento>, tag: &str, texto: &Option<String>)
    ensures
        ver_elementos(final(filhos)@) == acrescido(
            ver_elementos(old(filhos)@),
            folha_opcional(tag@, texto.deep_view()),
        ),
{
    match texto {
        Some(t) => por_texto(filhos, tag, t),
        None => {},
    }
}

/// Appends the leaf that holds an integer.
pub fn por_inteiro(filhos: &mut Vec<Elemento>, tag: &str, n: u64)
    ensures
        ver_elementos(final(filhos)@) == ver_elementos(old(filhos)@).push(
            folha_inteiro(tag@, n as nat),
        ),
{
    anexar(filhos, Elemento::folha(tag, codificar_inteiro(n)));
}

/// Appends the leaf that holds an integer of 32 bits, where there is one.
pub fn por_u32_opcional(filhos: &mut Vec<Elemento>, tag: &str, n: Option<u32>)
    ensures
        ver_elementos(final(filhos)@) == acrescido(
            ver_elementos(old(filhos)@),
            folha_u32_opcional(tag@, n),
        ),
{
    match n {
        Some(n) => por_inteiro(filhos, tag, n as u64),
        None => {},
    }
}

/// Appends the leaf that holds a decimal.
pub fn por_decimal(filhos: &mut Vec<Elemento>, tag: &str, d: Decimal)
    ensures
        ver_elementos(final(filhos)@) == ver_elementos(old(filhos)@).push(folha_decimal(tag@, d)),
{
    anexar(filhos, Elemento::folha(tag, codificar_decimal(d)));
}

/// Appends the leaf that holds a decimal, where there is one.
pub fn por_decimal_opcional(filhos: &mut Vec<Elemento>, tag: &str, d: Option<Decimal>)
    ensures
        ver_elementos(final(filhos)@) == acrescido(
            ver_elementos(old(filhos)@),
            folha_decimal_opcional(tag@, d),
        ),
{
    match d {
        Some(d) => por_decimal(filhos, tag, d),
        None => {},
    }
}

/// Appends the leaf that holds a boolean.
pub fn por_booleano(filhos: &mut Vec<Elemento>, tag: &str, b: bool)
    ensures
        ver_elementos(final(filhos)@) == ver_elementos(old(filhos)@).push(
            folha_booleano(tag@, b),
        ),
{
    anexar(filhos, Elemento::folha(tag, codificar_booleano(b)));
}

/// Appends the leaf that holds a barcode, or the phrase for a missing one.
pub fn por_gtin(filhos: &mut Vec<Elemento>, tag: &str, gtin: &Option<String>)
    ensures
        ver_elementos(final(filhos)@) == ver_elementos(old(filhos)@).push(
            folha_gtin(tag@, gtin.deep_view()),
        ),
{
    anexar(filhos, Elemento::folha(tag, codificar_gtin(gtin)));
}

/// Appends the leaf that holds the code of a variant.
pub fn por_codigo<T: Codigo>(filhos: &mut Vec<Elemento>, tag: &str, v: &T)
    ensures
        ver_elementos(final(filhos)@) == ver_elementos(old(filhos)@).push(
            folha_codigo::<T>(tag@, *v),
        ),
{
    anexar(filhos, Elemento::folha(tag, codificar_codigo::<T>(v)));
}

/// Appends the leaf that holds the code of a variant, where there is one.
pub fn por_codigo_opcional<T: Codigo>(filhos: &mut Vec<Elemento>, tag: &str, v: &Option<T>)
    ensures
        ver_elementos(final(filhos)@) == acrescido(
            ver_elementos(old(filhos)@),
            folha_codigo_opcional::<T>(tag@, *v),
        ),
{
    match v {
        Some(v) => por_codigo::<T>(filhos, tag, v),
        None => {},
    }
}

/// Appends the leaf that holds a date and time.
pub fn por_data_hora(filhos: &mut Vec<Elemento>, tag: &str, d: DataHora)
    requires
        d.estavel(),
    ensures
        ver_elementos(final(filhos)@) == ver_elementos(old(filhos)@).push(
            folha_data_hora(tag@, d),
        ),
{
    anexar(filhos, Elemento::folha(tag, codificar_data_hora(d)));
}

/// Appends the leaf that holds a date and time, where there is one.
pub fn por_data_hora_opcional(filhos: &mut Vec<Elemento>, tag: &str, d: Option<DataHora>)
    requires
        d matches Some(d) ==> d.estavel(),
    ensures
        ver_elementos(final(filhos)@) == acrescido(
            ver_elementos(old(filhos)@),
            folha_data_hora_opcional(tag@, d),
        ),
{
    match d {
        Some(d) => por_data_hora(filhos, tag, d),
        None => {},
    }
}

} // verus!
