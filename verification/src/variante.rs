//! The variant resolver: which of several mutually exclusive children a
//! section holds.
//!
//! The candidates are tried in a fixed order and the first that is present
//! wins, whatever stands after it: the wire format promises that at most one
//! is there, and the choice stays determined where a document breaks the
//! promise.

use vstd::prelude::*;
use crate::arvore::{Elemento, ElementoV};

verus! {

/// The names that `candidatos` hold.
pub open spec fn nomes(candidatos: Seq<&str>) -> Seq<Seq<char>> {
    Seq::new(candidatos.len(), |i: int| candidatos[i]@)
}

/// The position of the first candidate, from position `i` on, that names a
/// child of `no`.
pub open spec fn presente_desde(no: ElementoV, candidatos: Seq<Seq<char>>, i: int) -> Option<int>
    decreases candidatos.len() - i,
{
    if i < 0 || i >= candidatos.len() {
        None
    } else if no.filho(candidatos[i]) is Some {
        Some(i)
    } else {
        presente_desde(no, candidatos, i + 1)
    }
}

/// The position of the first candidate that names a child of `no`, or none
/// where no candidate does.
pub open spec fn primeira_presente(no: ElementoV, candidatos: Seq<Seq<char>>) -> Option<int> {
    presente_desde(no, candidatos, 0)
}

/// Finds the first candidate that names a child of `no`: its position among
/// the candidates and the child.
pub fn resolver<'a>(no: &'a Elemento, candidatos: &[&str]) -> (r: Option<(usize, &'a Elemento)>)
    ensures
        match r {
            Some((i, e)) => {
                &&& primeira_presente(no@, nomes(candidatos@)) == Some(i as int)
                &&& i < candidatos@.len()
                &&& no@.filho(candidatos@[i as int]@) == Some(e@)
            },
            None => primeira_presente(no@, nomes(candidatos@)) is None,
        },
{
    let mut i: usize = 0;
    while i < candidatos.len()
        invariant
            i <= candidatos@.len(),
            primeira_presente(no@, nomes(candidatos@)) == presente_desde(
                no@,
                nomes(candidatos@),
                i as int,
            ),
        decreases candidatos@.len() - i,
    {
        match no.filho(candidatos[i]) {
            Some(e) => {
                return Some((i, e));
            },
            None => {},
        }
        i += 1;
    }
    None
}

/// What the resolver finds is present, and nothing before it is.
pub proof fn lemma_precedencia(no: ElementoV, candidatos: Seq<Seq<char>>, i: int)
    requires
        0 <= i <= candidatos.len(),
    ensures
        presente_desde(no, candidatos, i) matches Some(k) ==> {
            &&& i <= k < candidatos.len()
            &&& no.filho(candidatos[k]) is Some
            &&& forall|j: int| i <= j < k ==> no.filho(#[trigger] candidatos[j]) is None
        },
        presente_desde(no, candidatos, i) is None ==> forall|j: int|
            i <= j < candidatos.len() ==> no.filho(#[trigger] candidatos[j]) is None,
    decreases candidatos.len() - i,
{
    if i < candidatos.len() && no.filho(candidatos[i]) is None {
        lemma_precedencia(no, candidatos, i + 1);
    }
}

/// Where exactly one candidate is present, the resolver finds that one.
pub proof fn lemma_variante_unica(no: ElementoV, candidatos: Seq<Seq<char>>, k: int)
    requires
        0 <= k < candidatos.len(),
        no.filho(candidatos[k]) is Some,
        forall|j: int| 0 <= j < candidatos.len() && j != k ==> no.filho(candidatos[j]) is None,
    ensures
        primeira_presente(no, candidatos) == Some(k),
{
    lemma_precedencia(no, candidatos, 0);
}

/// Where no candidate is present, the resolver finds none.
pub proof fn lemma_variante_ausente(no: ElementoV, candidatos: Seq<Seq<char>>)
    requires
        forall|j: int| 0 <= j < candidatos.len() ==> no.filho(candidatos[j]) is None,
    ensures
        primeira_presente(no, candidatos) is None,
{
    lemma_precedencia(no, candidatos, 0);
}

/// Where several candidates are present, the resolver finds the first of
/// them: candidates are never mixed.
pub proof fn lemma_primeira_vence(no: ElementoV, candidatos: Seq<Seq<char>>, k: int)
    requires
        0 <= k < candidatos.len(),
        no.filho(candidatos[k]) is Some,
        forall|j: int| 0 <= j < k ==> no.filho(candidatos[j]) is None,
    ensures
        primeira_presente(no, candidatos) == Some(k),
{
    lemma_precedencia(no, candidatos, 0);
}

} // verus!
