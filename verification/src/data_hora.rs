//! Date and time values, read and written through `chrono`.

use vstd::prelude::*;

verus! {

/// An instant: the seconds since 1970-01-01 00:00:00 UTC, leap seconds not
/// counted, and the nanoseconds since the last whole second.
#[derive(Debug, Clone, Copy, PartialEq, Eq, Structural)]
pub struct DataHora {
    pub segundos: i64,
    pub nanos: u32,
}

/// What `chrono` reads in a text as a `DateTime<Utc>`: the seconds and the
/// nanoseconds of the instant, or nothing where the text is no date and time.
pub uninterp spec fn data_hora_lida(texto: Seq<char>) -> Option<(i64, u32)>;

/// The RFC 3339 text that `chrono` writes for the instant at `segundos` and
/// `nanos`, or nothing where `chrono` has no such instant.
pub uninterp spec fn data_hora_escrita(segundos: i64, nanos: u32) -> Option<Seq<char>>;

/// Calls `str::parse::<chrono::DateTime<chrono::Utc>>`, which accepts a
/// relaxed form of RFC 3339 with any offset and converts to UTC, and then
/// `DateTime::timestamp` and `DateTime::timestamp_subsec_nanos`. The result
/// is a function of the text alone.
#[verifier::external_body]
fn ler_data_hora(texto: &str) -> (r: Option<(i64, u32)>)
    ensures
        r == data_hora_lida(texto@),
{
    texto.parse::<chrono::DateTime<chrono::Utc>>().ok().map(
        |d| (d.timestamp(), d.timestamp_subsec_nanos()),
    )
}

/// Calls `chrono::DateTime::<Utc>::from_timestamp`, which returns nothing for
/// an instant out of range, and then `DateTime::to_rfc3339`. The result is a
/// function of the two numbers alone.
#[verifier::external_body]
fn escrever_data_hora(segundos: i64, nanos: u32) -> (r: Option<String>)
    ensures
        r matches Some(t) ==> data_hora_escrita(segundos, nanos) == Some(t@),
        r is None ==> data_hora_escrita(segundos, nanos) is None,
{
    chrono::DateTime::<chrono::Utc>::from_timestamp(segundos, nanos).map(|d| d.to_rfc3339())
}

impl DataHora {
    /// Whether the instant can be written and is read back from what was
    /// written. The instants of a document are of this kind.
    pub open spec fn estavel(self) -> bool {
        data_hora_escrita(self.segundos, self.nanos) matches Some(t) && data_hora_lida(t) == Some(
            (self.segundos, self.nanos),
        )
    }

    /// The instant at `segundos` and `nanos`, where it can be written and
    /// read back.
    pub fn new(segundos: i64, nanos: u32) -> (r: Option<DataHora>)
        ensures
            r == if (DataHora { segundos, nanos }).estavel() {
                Some(DataHora { segundos, nanos })
            } else {
                None
            },
    {
        match escrever_data_hora(segundos, nanos) {
            None => None,
            Some(t) => match ler_data_hora(t.as_str()) {
                None => None,
                Some((s, n)) => if s == segundos && n == nanos {
                    Some(DataHora { segundos, nanos })
                } else {
                    None
                },
            },
        }
    }
}

/// The instant that `texto` writes, where it writes one that can be written
/// and read back.
pub open spec fn data_hora_de(texto: Seq<char>) -> Option<DataHora> {
    match data_hora_lida(texto) {
        Some((segundos, nanos)) => if (DataHora { segundos, nanos }).estavel() {
            Some(DataHora { segundos, nanos })
        } else {
            None
        },
        None => None,
    }
}

/// The text of an instant, in RFC 3339 with the offset `+00:00`.
pub open spec fn texto_data_hora(d: DataHora) -> Seq<char> {
    data_hora_escrita(d.segundos, d.nanos)->Some_0
}

/// Decodes a date and time, whatever its offset.
pub fn decodificar_data_hora(texto: &str) -> (r: Option<DataHora>)
    ensures
        r == data_hora_de(texto@),
{
    match ler_data_hora(texto) {
        None => None,
        Some((segundos, nanos)) => DataHora::new(segundos, nanos),
    }
}

/// Encodes a date and time, always with the offset of UTC.
pub fn codificar_data_hora(d: DataHora) -> (r: String)
    requires
        d.estavel(),
    ensures
        r@ == texto_data_hora(d),
{
    match escrever_data_hora(d.segundos, d.nanos) {
        Some(t) => t,
        None => String::new(),
    }
}

/// Decoding the text of an instant gives the instant back.
pub broadcast proof fn lemma_data_hora_ida_e_volta(d: DataHora)
    requires
        d.estavel(),
    ensures
        #[trigger] data_hora_de(texto_data_hora(d)) == Some(d),
{
}

} // verus!
