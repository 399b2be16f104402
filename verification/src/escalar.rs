//! The scalar codec: integers, decimals, booleans written as a digit and
//! barcodes, to and from the text of an element.

use vstd::prelude::*;
use crate::texto::{aparado, caracteres, minusculas, texto_do_trecho};

verus! {

/// Whether `c` is one of the ten decimal digits.
pub open spec fn eh_digito(c: char) -> bool {
    '0' <= c && c <= '9'
}

/// The number that the digit `c` stands for.
pub open spec fn valor_digito(c: char) -> nat {
    (c as int - '0' as int) as nat
}

/// The digit that stands for `n`, a number below ten.
pub open spec fn digito(n: nat) -> char {
    if n == 0 {
        '0'
    } else if n == 1 {
        '1'
    } else if n == 2 {
        '2'
    } else if n == 3 {
        '3'
    } else if n == 4 {
        '4'
    } else if n == 5 {
        '5'
    } else if n == 6 {
        '6'
    } else if n == 7 {
        '7'
    } else if n == 8 {
        '8'
    } else {
        '9'
    }
}

/// Whether `s` is one or more decimal digits.
pub open spec fn so_digitos(s: Seq<char>) -> bool {
    s.len() > 0 && forall|i: int| 0 <= i < s.len() ==> eh_digito(#[trigger] s[i])
}

/// The number that the decimal digits `s` write.
pub open spec fn valor_digitos(s: Seq<char>) -> nat
    decreases s.len(),
{
    if s.len() == 0 {
        0
    } else {
        valor_digitos(s.drop_last()) * 10 + valor_digito(s.last())
    }
}

/// The decimal digits that write `n`, without leading zeros.
pub open spec fn digitos_de(n: nat) -> Seq<char>
    decreases n,
{
    if n < 10 {
        seq![digito(n)]
    } else {
        digitos_de(n / 10).push(digito(n % 10))
    }
}

/// The text of an unsigned integer: its digits, without sign or leading
/// zeros.
#[verifier::opaque]
pub open spec fn texto_inteiro(n: nat) -> Seq<char> {
    digitos_de(n)
}

/// The unsigned integer that `s` writes, where it is one and is at most
/// `max`: an optional `+`, then one or more digits.
#[verifier::opaque]
pub open spec fn inteiro_de(s: Seq<char>, max: nat) -> Option<nat> {
    let d = if s.len() > 0 && s[0] == '+' {
        s.drop_first()
    } else {
        s
    };
    if so_digitos(d) && valor_digitos(d) <= max {
        Some(valor_digitos(d))
    } else {
        None
    }
}

/// A non-negative decimal number, `mantissa / 10^escala`. The scale is the
/// number of digits written after the point, so that a value keeps the text
/// it was read from: `150.00` and `150` are different values. The wire
/// writes decimals in the fixed form alone, and so does this type.
#[derive(Debug, Clone, Copy, PartialEq, Eq, Structural)]
pub struct Decimal {
    pub mantissa: u64,
    pub escala: u8,
}

/// How many digits end `s`.
pub open spec fn digitos_finais(s: Seq<char>) -> nat
    decreases s.len(),
{
    if s.len() > 0 && eh_digito(s.last()) {
        digitos_finais(s.drop_last()) + 1
    } else {
        0
    }
}

/// The decimal that `s` writes, where it is one. Only the fixed form is a
/// decimal of the wire: one or more digits, then optionally a point and one
/// or more digits. A text with a sign, such as `+1.5` or `-1.5`, with an
/// exponent, such as `1e2`, or without a digit on either side of its point
/// is no decimal. The digits together must fit in 64 bits and at most 255
/// may follow the point.
#[verifier::opaque]
pub open spec fn decimal_de(s: Seq<char>) -> Option<Decimal> {
    let e = digitos_finais(s);
    if e == s.len() {
        if so_digitos(s) && valor_digitos(s) <= u64::MAX {
            Some(Decimal { mantissa: valor_digitos(s) as u64, escala: 0 })
        } else {
            None
        }
    } else {
        let p = s.len() - e - 1;
        let digitos = s.take(p) + s.skip(p + 1);
        if s[p] == '.' && 0 < e <= 255 && 0 < p && so_digitos(digitos) && valor_digitos(digitos)
            <= u64::MAX {
            Some(Decimal { mantissa: valor_digitos(digitos) as u64, escala: e as u8 })
        } else {
            None
        }
    }
}

/// `s` with zeros before it until it has at least `n` characters.
pub open spec fn preenchido(s: Seq<char>, n: nat) -> Seq<char>
    decreases n - s.len(),
{
    if s.len() >= n {
        s
    } else {
        preenchido(seq!['0'] + s, n)
    }
}

/// The text of a decimal: its digits, with a point before the last `escala`
/// of them and at least one digit before the point.
#[verifier::opaque]
pub open spec fn texto_decimal(d: Decimal) -> Seq<char> {
    let ds = preenchido(digitos_de(d.mantissa as nat), d.escala as nat + 1);
    if d.escala == 0 {
        ds
    } else {
        ds.take(ds.len() - d.escala) + seq!['.'] + ds.skip(ds.len() - d.escala)
    }
}

/// The boolean that `s` writes: `1` is true, `0` is false, nothing else is
/// a boolean.
pub open spec fn booleano_de(s: Seq<char>) -> Option<bool> {
    if s == seq!['1'] {
        Some(true)
    } else if s == seq!['0'] {
        Some(false)
    } else {
        None
    }
}

/// The text of a boolean.
pub open spec fn texto_booleano(b: bool) -> Seq<char> {
    if b {
        seq!['1']
    } else {
        seq!['0']
    }
}

/// The text written in place of a barcode that a product does not have.
pub open spec fn texto_sem_gtin() -> Seq<char> {
    seq!['S', 'E', 'M', ' ', 'G', 'T', 'I', 'N']
}

/// Whether `s` says that there is no barcode: nothing but white space, or
/// one of the phrases `SEM GTIN` and `SEM EAN`, in any case, with any white
/// space around it.
#[verifier::opaque]
pub open spec fn sem_gtin(s: Seq<char>) -> bool {
    let t = minusculas(aparado(s));
    ||| t.len() == 0
    ||| t == seq!['s', 'e', 'm', ' ', 'g', 't', 'i', 'n']
    ||| t == seq!['s', 'e', 'm', ' ', 'e', 'a', 'n']
}

/// The barcode that `s` holds: none where `s` says so, else `s` as it is.
pub open spec fn gtin_de(s: Seq<char>) -> Option<Seq<char>> {
    if sem_gtin(s) {
        None
    } else {
        Some(s)
    }
}

/// The text of a barcode.
pub open spec fn texto_gtin(gtin: Option<Seq<char>>) -> Seq<char> {
    match gtin {
        Some(s) => s,
        None => texto_sem_gtin(),
    }
}

/// A longer text of digits does not write a smaller number.
pub proof fn lemma_valor_prefixo(s: Seq<char>, n: int)
    requires
        0 <= n <= s.len(),
    ensures
        valor_digitos(s.take(n)) <= valor_digitos(s),
    decreases s.len() - n,
{
    if n < s.len() {
        assert(s.take(n + 1).drop_last() =~= s.take(n));
        lemma_valor_prefixo(s, n + 1);
    } else {
        assert(s.take(n) =~= s);
    }
}

/// The digits of `n` are digits and write `n`.
pub proof fn lemma_digitos_de(n: nat)
    ensures
        so_digitos(digitos_de(n)),
        valor_digitos(digitos_de(n)) == n,
    decreases n,
{
    let s = digitos_de(n);
    if n < 10 {
        assert(s.drop_last() =~= Seq::<char>::empty());
        assert(valor_digitos(s.drop_last()) == 0);
        assert(s.last() == digito(n));
        assert(valor_digito(digito(n)) == n);
    } else {
        lemma_digitos_de(n / 10);
        assert(s.drop_last() =~= digitos_de(n / 10));
        assert(s.last() == digito(n % 10));
        assert(valor_digito(digito(n % 10)) == n % 10);
    }
}

/// Decoding the text of an integer gives the integer back.
pub broadcast proof fn lemma_inteiro_ida_e_volta(n: nat, max: nat)
    requires
        n <= max,
    ensures
        #[trigger] inteiro_de(texto_inteiro(n), max) == Some(n),
{
    reveal(inteiro_de);
    reveal(texto_inteiro);
    lemma_digitos_de(n);
}

/// Zeros before the digits do not change the number.
pub proof fn lemma_zero_a_esquerda(s: Seq<char>)
    ensures
        valor_digitos(seq!['0'] + s) == valor_digitos(s),
    decreases s.len(),
{
    let t = seq!['0'] + s;
    if s.len() == 0 {
        assert(t.drop_last() =~= Seq::<char>::empty());
        assert(valor_digitos(t.drop_last()) == 0);
        assert(t.last() == '0');
    } else {
        assert(t.last() == s.last());
        lemma_zero_a_esquerda(s.drop_last());
        assert(t.drop_last() =~= seq!['0'] + s.drop_last());
    }
}

/// Padding keeps the digits digits and the number they write.
pub proof fn lemma_preenchido(s: Seq<char>, n: nat)
    requires
        so_digitos(s),
    ensures
        so_digitos(preenchido(s, n)),
        valor_digitos(preenchido(s, n)) == valor_digitos(s),
        preenchido(s, n).len() >= n,
        preenchido(s, n).len() >= s.len(),
    decreases n - s.len(),
{
    if s.len() < n {
        lemma_zero_a_esquerda(s);
        lemma_preenchido(seq!['0'] + s, n);
    }
}

/// Padding by hand: `zeros`, all of them `0`, before `s` is how `s` is
/// padded, where `zeros` is as short as the padding asks.
pub proof fn lemma_preenchido_zeros(s: Seq<char>, zeros: Seq<char>, n: nat)
    requires
        forall|i: int| 0 <= i < zeros.len() ==> zeros[i] == '0',
        zeros.len() + s.len() == n || (zeros.len() == 0 && s.len() >= n),
    ensures
        preenchido(s, n) == zeros + s,
    decreases zeros.len(),
{
    if zeros.len() == 0 {
        assert(zeros + s =~= s);
    } else {
        let t = seq!['0'] + s;
        let resto = zeros.drop_last();
        assert(resto + t =~= zeros + s);
        lemma_preenchido_zeros(t, resto, n);
    }
}

/// A text that ends in `b`, all digits, after a character that is no digit
/// ends in exactly `b.len()` digits.
pub proof fn lemma_digitos_finais(a: Seq<char>, c: char, b: Seq<char>)
    requires
        !eh_digito(c),
        forall|i: int| 0 <= i < b.len() ==> eh_digito(#[trigger] b[i]),
    ensures
        digitos_finais(a + seq![c] + b) == b.len(),
    decreases b.len(),
{
    let s = a + seq![c] + b;
    if b.len() == 0 {
        assert(s.last() == c);
    } else {
        assert(s.last() == b.last());
        assert(s.drop_last() =~= a + seq![c] + b.drop_last());
        lemma_digitos_finais(a, c, b.drop_last());
    }
}

/// A text of digits alone ends in as many digits as it has characters.
pub proof fn lemma_digitos_finais_todos(s: Seq<char>)
    requires
        forall|i: int| 0 <= i < s.len() ==> eh_digito(#[trigger] s[i]),
    ensures
        digitos_finais(s) == s.len(),
    decreases s.len(),
{
    if s.len() > 0 {
        lemma_digitos_finais_todos(s.drop_last());
    }
}

/// Decoding the text of a decimal gives the decimal back.
pub broadcast proof fn lemma_decimal_ida_e_volta(d: Decimal)
    ensures
        #[trigger] decimal_de(texto_decimal(d)) == Some(d),
{
    reveal(decimal_de);
    reveal(texto_decimal);
    let ds = preenchido(digitos_de(d.mantissa as nat), d.escala as nat + 1);
    lemma_digitos_de(d.mantissa as nat);
    lemma_preenchido(digitos_de(d.mantissa as nat), d.escala as nat + 1);
    if d.escala == 0 {
        lemma_digitos_finais_todos(ds);
    } else {
        let k = ds.len() - d.escala;
        let s = texto_decimal(d);
        lemma_digitos_finais(ds.take(k), '.', ds.skip(k));
        assert(s.take(k) + s.skip(k + 1) =~= ds);
        assert(s[k] == '.');
    }
}

/// Decoding the text of a boolean gives the boolean back.
pub broadcast proof fn lemma_booleano_ida_e_volta(b: bool)
    ensures
        #[trigger] booleano_de(texto_booleano(b)) == Some(b),
{
    assert(seq!['1'] != seq!['0']) by {
        assert(seq!['1'][0] != seq!['0'][0]);
    }
}

/// A text holds no barcode exactly where it says so; any other text is the
/// barcode, unchanged.
pub proof fn lemma_gtin(s: Seq<char>)
    ensures
        sem_gtin(s) ==> gtin_de(s) is None,
        !sem_gtin(s) ==> gtin_de(s) == Some(s),
{
}

/// The phrase written for a missing barcode is read as a missing barcode.
pub proof fn lemma_texto_sem_gtin()
    ensures
        sem_gtin(texto_sem_gtin()),
{
    reveal(sem_gtin);
    reveal_with_fuel(aparado, 2);
    let s = texto_sem_gtin();
    assert(aparado(s) == s);
    assert(minusculas(s) =~= seq!['s', 'e', 'm', ' ', 'g', 't', 'i', 'n']);
}

/// Decoding the text of a barcode gives the barcode back, unless the
/// barcode itself reads as the phrase for a missing one.
pub broadcast proof fn lemma_gtin_ida_e_volta(gtin: Option<Seq<char>>)
    requires
        gtin matches Some(s) ==> !sem_gtin(s),
    ensures
        #[trigger] gtin_de(texto_gtin(gtin)) == gtin,
{
    lemma_texto_sem_gtin();
}

/// The number that the digits `cs[de..ate]` write, where they are digits
/// and the number is at most `max`.
fn valor_do_trecho(cs: &Vec<char>, de: usize, ate: usize, max: u64) -> (r: Option<u64>)
    requires
        de <= ate <= cs.len(),
    ensures
        ({
            let s = cs@.subrange(de as int, ate as int);
            r == if so_digitos(s) && valor_digitos(s) <= max {
                Some(valor_digitos(s) as u64)
            } else {
                None
            }
        }),
{
    let ghost s = cs@.subrange(de as int, ate as int);
    if de == ate {
        return None;
    }
    let mut acc: u64 = 0;
    let mut i: usize = de;
    assert(s.take(0) =~= Seq::<char>::empty());
    while i < ate
        invariant
            de <= i <= ate <= cs.len(),
            s == cs@.subrange(de as int, ate as int),
            forall|j: int| 0 <= j < i - de ==> eh_digito(#[trigger] s[j]),
            acc == valor_digitos(s.take(i - de)),
            acc <= max,
        decreases ate - i,
    {
        let c = cs[i];
        assert(c == s[i - de]);
        proof {
            assert(s.take(i - de + 1).drop_last() =~= s.take(i - de));
            lemma_valor_prefixo(s, i - de + 1);
        }
        if !(c >= '0' && c <= '9') {
            return None;
        }
        let d: u64 = (c as u32 - '0' as u32) as u64;
        if acc > max / 10 {
            return None;
        }
        let t: u64 = acc * 10;
        if d > max - t {
            return None;
        }
        acc = t + d;
        i += 1;
    }
    assert(s.take(i - de) =~= s);
    Some(acc)
}

/// Decodes an unsigned integer that is at most `max`.
pub fn decodificar_inteiro(texto: &str, max: u64) -> (r: Option<u64>)
    ensures
        r matches Some(n) ==> inteiro_de(texto@, max as nat) == Some(n as nat),
        r is None ==> inteiro_de(texto@, max as nat) is None,
{
    proof {
        reveal(inteiro_de);
    }
    let cs = caracteres(texto);
    let de: usize = if cs.len() > 0 && cs[0] == '+' {
        1
    } else {
        0
    };
    assert(cs@.subrange(de as int, cs.len() as int) =~= if de == 1 {
        cs@.drop_first()
    } else {
        cs@
    });
    valor_do_trecho(&cs, de, cs.len(), max)
}

/// The digits of `n`.
fn digitos(n: u64) -> (r: Vec<char>)
    ensures
        r@ == digitos_de(n as nat),
    decreases n,
{
    let d: u8 = (n % 10) as u8;
    let c: char = if d == 0 {
        '0'
    } else if d == 1 {
        '1'
    } else if d == 2 {
        '2'
    } else if d == 3 {
        '3'
    } else if d == 4 {
        '4'
    } else if d == 5 {
        '5'
    } else if d == 6 {
        '6'
    } else if d == 7 {
        '7'
    } else if d == 8 {
        '8'
    } else {
        '9'
    };
    if n < 10 {
        let mut r: Vec<char> = Vec::new();
        r.push(c);
        assert(r@ =~= seq![digito(n as nat)]);
        r
    } else {
        let mut r = digitos(n / 10);
        r.push(c);
        r
    }
}

/// Encodes an unsigned integer: its digits, without sign or leading zeros.
pub fn codificar_inteiro(n: u64) -> (r: String)
    ensures
        r@ == texto_inteiro(n as nat),
{
    proof {
        reveal(texto_inteiro);
    }
    let cs = digitos(n);
    let r = texto_do_trecho(&cs, 0, cs.len());
    assert(cs@.subrange(0, cs.len() as int) =~= cs@);
    r
}

/// Decodes a decimal without rounding it. Only the fixed form is decoded: a
/// text with a sign or an exponent is no decimal.
pub fn decodificar_decimal(texto: &str) -> (r: Option<Decimal>)
    ensures
        r == decimal_de(texto@),
{
    proof {
        reveal(decimal_de);
    }
    let cs = caracteres(texto);
    let n = cs.len();
    let mut e: usize = 0;
    assert(cs@.take(n as int) =~= cs@);
    while e < n && cs[n - 1 - e] >= '0' && cs[n - 1 - e] <= '9'
        invariant
            e <= n == cs.len(),
            digitos_finais(cs@) == digitos_finais(cs@.take(n - e)) + e,
        decreases n - e,
    {
        assert(cs@.take(n - e).drop_last() =~= cs@.take(n - e - 1));
        e += 1;
    }
    if e == n {
        assert(cs@.take(0) =~= Seq::<char>::empty());
        assert(cs@.subrange(0, n as int) =~= cs@);
        return match valor_do_trecho(&cs, 0, n, u64::MAX) {
            Some(mantissa) => Some(Decimal { mantissa, escala: 0 }),
            None => None,
        };
    }
    let p: usize = n - e - 1;
    assert(cs@.take(n - e).last() == cs@[p as int]);
    if cs[p] != '.' || e == 0 || e > 255 || p == 0 {
        return None;
    }
    let mut ds: Vec<char> = Vec::new();
    let mut i: usize = 0;
    while i < n
        invariant
            i <= n == cs.len(),
            p < n,
            ds@ == if i <= p {
                cs@.take(i as int)
            } else {
                cs@.take(p as int) + cs@.subrange(p + 1, i as int)
            },
        decreases n - i,
    {
        if i != p {
            ds.push(cs[i]);
        }
        proof {
            if i < p {
                assert(cs@.take(i + 1) =~= cs@.take(i as int).push(cs@[i as int]));
            } else if i == p {
                assert(cs@.take(p as int) + cs@.subrange(p + 1, i + 1) =~= cs@.take(i as int));
            } else {
                assert(cs@.take(p as int) + cs@.subrange(p + 1, i + 1) =~= (cs@.take(p as int)
                    + cs@.subrange(p + 1, i as int)).push(cs@[i as int]));
            }
        }
        i += 1;
    }
    assert(cs@.subrange(p + 1, n as int) =~= cs@.skip(p + 1));
    assert(ds@.subrange(0, ds.len() as int) =~= ds@);
    match valor_do_trecho(&ds, 0, ds.len(), u64::MAX) {
        Some(mantissa) => Some(Decimal { mantissa, escala: e as u8 }),
        None => None,
    }
}

/// Encodes a decimal with exactly the digits it holds.
pub fn codificar_decimal(d: Decimal) -> (r: String)
    ensures
        r@ == texto_decimal(d),
{
    proof {
        reveal(texto_decimal);
    }
    let base = digitos(d.mantissa);
    let minimo: usize = d.escala as usize + 1;
    let mut ds: Vec<char> = Vec::new();
    if base.len() < minimo {
        let zeros: usize = minimo - base.len();
        let mut i: usize = 0;
        while i < zeros
            invariant
                i <= zeros,
                zeros + base.len() == minimo,
                ds.len() == i,
                forall|j: int| 0 <= j < i ==> ds@[j] == '0',
            decreases zeros - i,
        {
            ds.push('0');
            i += 1;
        }
    }
    let mut i: usize = 0;
    let ghost zeros = ds@;
    while i < base.len()
        invariant
            i <= base.len(),
            ds@ == zeros + base@.take(i as int),
        decreases base.len() - i,
    {
        ds.push(base[i]);
        assert(base@.take(i + 1) =~= base@.take(i as int).push(base@[i as int]));
        i += 1;
    }
    assert(base@.take(base.len() as int) =~= base@);
    proof {
        lemma_preenchido_zeros(base@, zeros, minimo as nat);
    }
    let n = ds.len();
    let k: usize = n - d.escala as usize;
    let mut r = texto_do_trecho(&ds, 0, k);
    if d.escala > 0 {
        r.push('.');
        let fim = texto_do_trecho(&ds, k, n);
        r.append(fim.as_str());
        assert(ds@.subrange(0, k as int) =~= ds@.take(k as int));
        assert(ds@.subrange(k as int, n as int) =~= ds@.skip(k as int));
    } else {
        assert(ds@.subrange(0, k as int) =~= ds@);
    }
    r
}

/// Decodes a boolean written as a digit.
pub fn decodificar_booleano(texto: &str) -> (r: Option<bool>)
    ensures
        r == booleano_de(texto@),
{
    let cs = caracteres(texto);
    if cs.len() == 1 && cs[0] == '1' {
        assert(cs@ =~= seq!['1']);
        Some(true)
    } else if cs.len() == 1 && cs[0] == '0' {
        assert(cs@ =~= seq!['0']);
        Some(false)
    } else {
        assert(cs@ != seq!['1']) by {
            if cs@ == seq!['1'] {
                assert(cs@[0] == '1');
            }
        }
        assert(cs@ != seq!['0']) by {
            if cs@ == seq!['0'] {
                assert(cs@[0] == '0');
            }
        }
        None
    }
}

/// Encodes a boolean as a digit.
pub fn codificar_booleano(b: bool) -> (r: String)
    ensures
        r@ == texto_booleano(b),
{
    let mut r = String::new();
    r.push(if b {
        '1'
    } else {
        '0'
    });
    assert(r@ =~= texto_booleano(b));
    r
}

/// Decodes a barcode: none where the text says so, else the text as it is.
pub fn decodificar_gtin(texto: &str) -> (r: Option<String>)
    ensures
        r.deep_view() == gtin_de(texto@),
{
    let t = texto.trim();
    proof {
        reveal(sem_gtin);
        reveal_strlit("sem gtin");
        reveal_strlit("sem ean");
        assert(minusculas("sem gtin"@) =~= seq!['s', 'e', 'm', ' ', 'g', 't', 'i', 'n']);
        assert(minusculas("sem ean"@) =~= seq!['s', 'e', 'm', ' ', 'e', 'a', 'n']);
        assert("sem gtin"@ =~= seq!['s', 'e', 'm', ' ', 'g', 't', 'i', 'n']);
        assert("sem ean"@ =~= seq!['s', 'e', 'm', ' ', 'e', 'a', 'n']);
    }
    if t.is_empty() || t.eq_ignore_ascii_case("sem gtin") || t.eq_ignore_ascii_case("sem ean") {
        None
    } else {
        Some(texto.to_owned())
    }
}

/// Encodes a barcode; a missing one is written `SEM GTIN`.
pub fn codificar_gtin(gtin: &Option<String>) -> (r: String)
    ensures
        r@ == texto_gtin(gtin.deep_view()),
{
    match gtin {
        Some(s) => s.clone(),
        None => {
            proof {
                reveal_strlit("SEM GTIN");
                assert("SEM GTIN"@ =~= texto_sem_gtin());
            }
            "SEM GTIN".to_owned()
        },
    }
}

} // verus!
