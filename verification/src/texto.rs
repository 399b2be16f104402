//! Text primitives shared by the codecs: comparison, trimming and
//! character-level access to `str` values.

use vstd::prelude::*;
use vstd::utf8::{encode_utf8, encode_utf8_decode_utf8};

verus! {

/// Whether `c` is a Unicode white-space character, the set that `str::trim`
/// removes.
pub open spec fn eh_espaco(c: char) -> bool {
    let n = c as u32;
    ||| 0x09 <= n <= 0x0D
    ||| n == 0x20
    ||| n == 0x85
    ||| n == 0xA0
    ||| n == 0x1680
    ||| 0x2000 <= n <= 0x200A
    ||| n == 0x2028
    ||| n == 0x2029
    ||| n == 0x202F
    ||| n == 0x205F
    ||| n == 0x3000
}

/// `s` without its leading and trailing white space.
#[verifier::opaque]
pub open spec fn aparado(s: Seq<char>) -> Seq<char>
    decreases s.len(),
{
    if s.len() > 0 && eh_espaco(s.first()) {
        aparado(s.drop_first())
    } else if s.len() > 0 && eh_espaco(s.last()) {
        aparado(s.drop_last())
    } else {
        s
    }
}

/// The lower-case form of an ASCII letter; any other character is unchanged.
pub open spec fn minuscula(c: char) -> char {
    if 'A' <= c <= 'Z' {
        ((c as u8) + 32) as char
    } else {
        c
    }
}

/// `s` with every ASCII letter in lower case.
pub open spec fn minusculas(s: Seq<char>) -> Seq<char> {
    Seq::new(s.len(), |i: int| minuscula(s[i]))
}

/// Whether two texts are the same. This is plain equality, with what follows
/// from it for the lengths and for the leading characters spelled out: two
/// literals that are known by their characters are told apart by these.
pub open spec fn mesmo_texto(a: Seq<char>, b: Seq<char>) -> bool {
    &&& a == b
    &&& a.len() == b.len()
    &&& (0 < a.len() ==> a[0] == b[0])
    &&& (1 < a.len() ==> a[1] == b[1])
    &&& (2 < a.len() ==> a[2] == b[2])
    &&& (3 < a.len() ==> a[3] == b[3])
    &&& (4 < a.len() ==> a[4] == b[4])
    &&& (5 < a.len() ==> a[5] == b[5])
    &&& (6 < a.len() ==> a[6] == b[6])
}

/// `str::trim` returns the slice of `s` left after removing the leading and
/// the trailing white space, as Unicode defines it.
pub assume_specification[ str::trim ](s: &str) -> (r: &str)
    ensures
        r@ == aparado(s@),
;

/// `str::eq_ignore_ascii_case` compares two strings after mapping the ASCII
/// letters of both to lower case.
pub assume_specification[ str::eq_ignore_ascii_case ](a: &str, b: &str) -> (r: bool)
    ensures
        r == (minusculas(a@) == minusculas(b@)),
;

/// `String::push` appends one character to the end of the string.
pub assume_specification[ String::push ](s: &mut String, c: char)
    ensures
        final(s)@ == old(s)@.push(c),
;

/// Whether two strings hold the same characters.
pub fn iguais(a: &str, b: &str) -> (r: bool)
    ensures
        r == (a@ == b@),
{
    let x = a.as_bytes();
    let y = b.as_bytes();
    proof {
        encode_utf8_decode_utf8(a@);
        encode_utf8_decode_utf8(b@);
    }
    if x.len() != y.len() {
        return false;
    }
    let mut i: usize = 0;
    while i < x.len()
        invariant
            i <= x.len(),
            x.len() == y.len(),
            x@ == encode_utf8(a@),
            y@ == encode_utf8(b@),
            forall|j: int| 0 <= j < i ==> x@[j] == y@[j],
        decreases x.len() - i,
    {
        if x[i] != y[i] {
            return false;
        }
        i += 1;
    }
    assert(x@ =~= y@);
    true
}

/// The characters of `s`, one by one.
pub fn caracteres(s: &str) -> (r: Vec<char>)
    ensures
        r@ == s@,
{
    let mut r: Vec<char> = Vec::new();
    for c in it: s.chars()
        invariant
            it.seq() == s@,
            r@ == it.seq().take(it.index() as int),
    {
        r.push(c);
        assert(it.seq().take(it.index() + 1) =~= it.seq().take(it.index() as int).push(c));
    }
    assert(s@.take(s@.len() as int) =~= s@);
    r
}

/// The string that holds the characters `cs[de..ate]`.
pub fn texto_do_trecho(cs: &Vec<char>, de: usize, ate: usize) -> (r: String)
    requires
        de <= ate <= cs.len(),
    ensures
        r@ == cs@.subrange(de as int, ate as int),
{
    let mut r = String::new();
    let mut i: usize = de;
    while i < ate
        invariant
            de <= i <= ate <= cs.len(),
            r@ == cs@.subrange(de as int, i as int),
        decreases ate - i,
    {
        r.push(cs[i]);
        assert(cs@.subrange(de as int, i + 1) =~= cs@.subrange(de as int, i as int).push(
            cs@[i as int],
        ));
        i += 1;
    }
    r
}

/// Trimming a trimmed text changes nothing.
pub broadcast proof fn lemma_aparado_idempotente(s: Seq<char>)
    ensures
        #[trigger] aparado(aparado(s)) == aparado(s),
    decreases s.len(),
{
    reveal_with_fuel(aparado, 2);
    if s.len() > 0 && eh_espaco(s.first()) {
        lemma_aparado_idempotente(s.drop_first());
    } else if s.len() > 0 && eh_espaco(s.last()) {
        lemma_aparado_idempotente(s.drop_last());
    }
}

} // verus!
