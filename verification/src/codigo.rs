//! Code tables: closed mappings between the numeric codes of the wire format
//! and the variants of an enumeration.

use vstd::prelude::*;

verus! {

/// An enumeration that the wire format writes as a numeric code.
///
/// A table is a bijection between its variants and the codes it documents:
/// every variant has one code, and a code that the table does not document
/// stands for no variant.
pub trait Codigo: Sized + Copy {
    /// The code of a variant.
    spec fn codigo_spec(self) -> u8;

    /// The variant that a code stands for, if the table documents the code.
    spec fn de_codigo_spec(codigo: u8) -> Option<Self>;

    /// The code of a variant.
    fn codigo(&self) -> (c: u8)
        ensures
            c == self.codigo_spec(),
    ;

    /// The variant that a code stands for, if the table documents the code.
    fn de_codigo(codigo: u8) -> (v: Option<Self>)
        ensures
            v == Self::de_codigo_spec(codigo),
    ;

    /// The code of a variant stands for that variant.
    proof fn lemma_codigo_ida_e_volta(v: Self)
        ensures
            Self::de_codigo_spec(v.codigo_spec()) == Some(v),
    ;

    /// A documented code is the code of the variant it stands for.
    proof fn lemma_codigo_unico(codigo: u8)
        ensures
            Self::de_codigo_spec(codigo) matches Some(v) ==> v.codigo_spec() == codigo,
    ;
}

} // verus!
