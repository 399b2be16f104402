//! Versions of the layout.

use vstd::prelude::*;
use crate::base::{Error, ErrorV};
use crate::texto::iguais;

verus! {

/// The version of the layout that a document follows. One is supported.
#[derive(Debug, Eq, PartialEq, Copy, Clone, Structural)]
pub enum VersaoLayout {
    /// Version 4.00.
    V4_00,
}

impl VersaoLayout {
    /// The text of the version.
    pub open spec fn spec_texto(self) -> Seq<char> {
        "4.00"@
    }

    /// The version that `s` names, or the error that says that `s` names none
    /// that is supported.
    pub open spec fn spec_from_str(s: Seq<char>) -> Result<VersaoLayout, ErrorV> {
        if s == "4.00"@ {
            Ok(VersaoLayout::V4_00)
        } else {
            Err(ErrorV::VersaoNaoSuportada(s))
        }
    }

    /// Decodes a version. Any text but that of the supported version is an
    /// error.
    pub fn from_str(s: &str) -> (r: Result<VersaoLayout, Error>)
        ensures
            r matches Ok(v) ==> Self::spec_from_str(s@) == Ok::<VersaoLayout, ErrorV>(v),
            r matches Err(e) ==> Self::spec_from_str(s@) == Err::<VersaoLayout, ErrorV>(e@),
    {
        if iguais(s, "4.00") {
            Ok(VersaoLayout::V4_00)
        } else {
            Err(Error::VersaoNaoSuportada(s.to_owned()))
        }
    }

    /// Encodes a version.
    pub fn to_string(&self) -> (r: String)
        ensures
            r@ == self.spec_texto(),
    {
        "4.00".to_owned()
    }

    /// Decoding the text of a version gives the version back.
    pub proof fn lemma_ida_e_volta(v: VersaoLayout)
        ensures
            Self::spec_from_str(v.spec_texto()) == Ok::<VersaoLayout, ErrorV>(v),
    {
    }
}

} // verus!
