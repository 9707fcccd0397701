//! Which texts read as a decimal floating-point number: the grammar that
//! `f64::from_str` documents, decided on characters alone.
//!
//! ```text
//! Float  ::= Sign? ( 'inf' | 'infinity' | 'nan' | Number )
//! Number ::= ( Digit+ | Digit+ '.' Digit* | Digit* '.' Digit+ ) Exp?
//! Exp    ::= 'e' Sign? Digit+
//! Sign   ::= [+-]
//! ```
//! Letters match in either case; no whitespace is allowed.

use vstd::prelude::*;
use crate::text::{decimal, lemma_decimal_digits};

verus! {

/// An ASCII decimal digit.
pub open spec fn is_digit(c: char) -> bool {
    0x30 <= (c as u32) <= 0x39
}

/// A character with ASCII upper-case letters folded to lower case.
pub open spec fn ascii_lower(c: char) -> char {
    let n = c as u32;
    if 0x41 <= n <= 0x5A { ((n + 32) as u8) as char } else { c }
}

/// A text with ASCII upper-case letters folded to lower case.
pub open spec fn lower_ascii(s: Seq<char>) -> Seq<char> {
    s.map_values(|c: char| ascii_lower(c))
}

/// A text without its leading sign, if it has one.
pub open spec fn unsigned_part(s: Seq<char>) -> Seq<char> {
    if s.len() > 0 && (s[0] == '+' || s[0] == '-') { s.drop_first() } else { s }
}

/// One or more digits.
pub open spec fn digits(s: Seq<char>) -> bool {
    s.len() > 0 && forall|i: int| 0 <= i < s.len() ==> is_digit(#[trigger] s[i])
}

/// Digits with at most one point among them, and at least one digit.
pub open spec fn mantissa(m: Seq<char>) -> bool {
    &&& forall|i: int| 0 <= i < m.len() ==> is_digit(#[trigger] m[i]) || m[i] == '.'
    &&& forall|i: int, j: int| 0 <= i < j < m.len() ==> !(#[trigger] m[i] == '.' && #[trigger] m[j] == '.')
    &&& exists|i: int| 0 <= i < m.len() && is_digit(#[trigger] m[i])
}

/// Nothing, or `e`, an optional sign and one or more digits.
pub open spec fn exponent(x: Seq<char>) -> bool {
    x.len() == 0 || (x[0] == 'e' && digits(unsigned_part(x.drop_first())))
}

/// A mantissa followed by an optional exponent (lower case).
pub open spec fn number_text(t: Seq<char>) -> bool {
    exists|k: int| 0 <= k <= t.len() && #[trigger] mantissa(t.subrange(0, k)) && exponent(t.subrange(k, t.len() as int))
}

/// Whether `f64::from_str` accepts the text.
pub open spec fn float_literal(s: Seq<char>) -> bool {
    let body = unsigned_part(lower_ascii(s));
    ||| body == seq!['i', 'n', 'f']
    ||| body == seq!['i', 'n', 'f', 'i', 'n', 'i', 't', 'y']
    ||| body == seq!['n', 'a', 'n']
    ||| number_text(body)
}

fn digit_char(c: char) -> (r: bool)
    ensures
        r == is_digit(c),
{
    let n = c as u32;
    0x30 <= n && n <= 0x39
}

fn lower_char(c: char) -> (r: char)
    ensures
        r == ascii_lower(c),
{
    let n = c as u32;
    if 0x41 <= n && n <= 0x5A {
        ((n + 32) as u8) as char
    } else {
        c
    }
}

/// Whether `t[lo..hi]` is a mantissa.
fn mantissa_at(t: &[char], lo: usize, hi: usize) -> (r: bool)
    requires
        lo <= hi <= t@.len(),
    ensures
        r == mantissa(t@.subrange(lo as int, hi as int)),
{
    let ghost m = t@.subrange(lo as int, hi as int);
    let mut dot = false;
    let mut seen = false;
    let mut i: usize = lo;
    while i < hi
        invariant
            lo <= i <= hi <= t@.len(),
            m == t@.subrange(lo as int, hi as int),
            forall|a: int| 0 <= a < i - lo ==> is_digit(#[trigger] m[a]) || m[a] == '.',
            forall|a: int, b: int| 0 <= a < b < i - lo ==> !(#[trigger] m[a] == '.' && #[trigger] m[b] == '.'),
            dot <==> exists|a: int| 0 <= a < i - lo && #[trigger] m[a] == '.',
            seen <==> exists|a: int| 0 <= a < i - lo && is_digit(#[trigger] m[a]),
        decreases hi - i,
    {
        let c = t[i];
        assert(m[i - lo] == c);
        if c == '.' {
            if dot {
                proof {
                    let a = choose|a: int| 0 <= a < i - lo && #[trigger] m[a] == '.';
                    assert(m[a] == '.' && m[i - lo] == '.');
                }
                return false;
            }
            dot = true;
        } else if digit_char(c) {
            seen = true;
        } else {
            assert(!(is_digit(m[i - lo]) || m[i - lo] == '.'));
            return false;
        }
        i = i + 1;
    }
    seen
}

/// Whether `t[lo..]` is an exponent part.
fn exponent_at(t: &[char], lo: usize) -> (r: bool)
    requires
        lo <= t@.len(),
    ensures
        r == exponent(t@.subrange(lo as int, t@.len() as int)),
{
    let ghost x = t@.subrange(lo as int, t@.len() as int);
    let n = t.len();
    if lo == n {
        return true;
    }
    if t[lo] != 'e' {
        return false;
    }
    let ghost y = x.drop_first();
    let mut i: usize = lo + 1;
    if i < n && (t[i] == '+' || t[i] == '-') {
        i = i + 1;
    }
    let start = i;
    let ghost z = t@.subrange(start as int, n as int);
    assert(unsigned_part(y) =~= z);
    if i == n {
        return false;
    }
    while i < n
        invariant
            lo < start <= i <= n == t@.len(),
            z == t@.subrange(start as int, n as int),
            x == t@.subrange(lo as int, n as int),
            x[0] == 'e',
            unsigned_part(x.drop_first()) == z,
            z.len() > 0,
            forall|a: int| 0 <= a < i - start ==> is_digit(#[trigger] z[a]),
        decreases n - i,
    {
        assert(z[i - start] == t@[i as int]);
        if !digit_char(t[i]) {
            assert(!is_digit(z[i - start]));
            return false;
        }
        i = i + 1;
    }
    true
}

/// Whether `t[lo..]` equals `w`.
fn tail_is(t: &[char], lo: usize, w: &[char]) -> (r: bool)
    requires
        lo <= t@.len(),
    ensures
        r == (t@.subrange(lo as int, t@.len() as int) == w@),
{
    if t.len() - lo != w.len() {
        return false;
    }
    let mut i: usize = 0;
    while i < w.len()
        invariant
            lo + w@.len() == t@.len(),
            t@.len() <= usize::MAX,
            i <= w@.len(),
            forall|a: int| 0 <= a < i ==> t@[lo + a] == w@[a],
        decreases w@.len() - i,
    {
        if t[lo + i] != w[i] {
            assert(t@.subrange(lo as int, t@.len() as int)[i as int] != w@[i as int]);
            return false;
        }
        i = i + 1;
    }
    assert(t@.subrange(lo as int, t@.len() as int) =~= w@);
    true
}

proof fn lemma_number_split(t: Seq<char>, k: int)
    requires
        0 <= k <= t.len(),
        forall|a: int| 0 <= a < k ==> t[a] != 'e',
        k == t.len() || t[k] == 'e',
    ensures
        number_text(t) == (mantissa(t.subrange(0, k)) && exponent(t.subrange(k, t.len() as int))),
{
    if number_text(t) {
        let k2 = choose|k2: int| 0 <= k2 <= t.len() && #[trigger] mantissa(t.subrange(0, k2)) && exponent(t.subrange(k2, t.len() as int));
        let m2 = t.subrange(0, k2);
        if k2 < k {
            let x2 = t.subrange(k2, t.len() as int);
            assert(x2.len() > 0);
            assert(x2[0] == t[k2]);
        } else if k2 > k {
            assert(m2[k] == t[k]);
            assert(is_digit(m2[k]) || m2[k] == '.');
        }
        assert(k2 == k);
    }
}

/// Only ASCII characters.
pub open spec fn ascii_text(s: Seq<char>) -> bool {
    forall|i: int| 0 <= i < s.len() ==> (#[trigger] s[i] as u32) < 0x80
}

/// Whether a text holds only ASCII characters.
pub fn is_ascii_chars(s: &[char]) -> (r: bool)
    ensures
        r == ascii_text(s@),
{
    let mut i: usize = 0;
    while i < s.len()
        invariant
            i <= s@.len(),
            forall|a: int| 0 <= a < i ==> (#[trigger] s@[a] as u32) < 0x80,
        decreases s@.len() - i,
    {
        if (s[i] as u32) >= 0x80 {
            return false;
        }
        i = i + 1;
    }
    true
}

/// A text with ASCII upper-case letters folded to lower case.
pub fn lower_ascii_chars(s: &[char]) -> (r: Vec<char>)
    ensures
        r@ == lower_ascii(s@),
{
    let mut low: Vec<char> = Vec::new();
    let mut i: usize = 0;
    while i < s.len()
        invariant
            i <= s@.len(),
            low@ == lower_ascii(s@.subrange(0, i as int)),
        decreases s@.len() - i,
    {
        let c = lower_char(s[i]);
        low.push(c);
        i = i + 1;
        assert(low@ =~= lower_ascii(s@.subrange(0, i as int)));
    }
    assert(s@.subrange(0, s@.len() as int) =~= s@);
    low
}

/// Whether `f64::from_str` accepts the text.
pub fn is_float_literal(s: &[char]) -> (r: bool)
    ensures
        r == float_literal(s@),
{
    let low = lower_ascii_chars(s);
    let n = low.len();
    let b: usize = if n > 0 && (low[0] == '+' || low[0] == '-') { 1 } else { 0 };
    let ghost body = unsigned_part(lower_ascii(s@));
    assert(body =~= low@.subrange(b as int, n as int));
    let inf = vec!['i', 'n', 'f'];
    let infinity = vec!['i', 'n', 'f', 'i', 'n', 'i', 't', 'y'];
    let nan = vec!['n', 'a', 'n'];
    if tail_is(low.as_slice(), b, inf.as_slice()) || tail_is(low.as_slice(), b, infinity.as_slice())
        || tail_is(low.as_slice(), b, nan.as_slice()) {
        return true;
    }
    let mut k: usize = b;
    while k < n && low[k] != 'e'
        invariant
            b <= k <= n == low@.len(),
            forall|a: int| b <= a < k ==> low@[a] != 'e',
        decreases n - k,
    {
        k = k + 1;
    }
    let m = mantissa_at(low.as_slice(), b, k);
    let x = exponent_at(low.as_slice(), k);
    proof {
        let kk = k - b;
        assert(body.subrange(0, kk) =~= low@.subrange(b as int, k as int));
        assert(body.subrange(kk, body.len() as int) =~= low@.subrange(k as int, n as int));
        lemma_number_split(body, kk);
    }
    m && x
}

/// Decimal numbers read as numbers: every whole number written in decimal,
/// with or without a sign, and every such number with a fractional part,
/// is accepted; an empty text, a lone point, a lone sign and a trailing
/// exponent mark are not.
pub proof fn lemma_decimals_are_float_literals(n: nat, m: nat)
    ensures
        float_literal(decimal(n)),
        float_literal(seq!['-'] + decimal(n)),
        float_literal(decimal(n) + seq!['.'] + decimal(m)),
        !float_literal(Seq::empty()),
        !float_literal(seq!['.']),
        !float_literal(seq!['-']),
        !float_literal(decimal(n) + seq!['e']),
{
    lemma_decimal_digits(n);
    lemma_decimal_digits(m);
    let d = decimal(n);
    let e = decimal(m);
    assert(forall|i: int| 0 <= i < d.len() ==> is_digit(#[trigger] d[i]) && ascii_lower(d[i]) == d[i]) by {
        assert forall|i: int| 0 <= i < d.len() implies is_digit(#[trigger] d[i]) && ascii_lower(d[i]) == d[i] by {
            assert(crate::text::is_digit(d[i]));
        }
    }
    assert(forall|i: int| 0 <= i < e.len() ==> is_digit(#[trigger] e[i]) && ascii_lower(e[i]) == e[i]) by {
        assert forall|i: int| 0 <= i < e.len() implies is_digit(#[trigger] e[i]) && ascii_lower(e[i]) == e[i] by {
            assert(crate::text::is_digit(e[i]));
        }
    }
    // a plain number
    assert(lower_ascii(d) =~= d);
    assert(unsigned_part(d) == d);
    assert(d.subrange(0, d.len() as int) =~= d);
    assert(is_digit(d[0]));
    assert(mantissa(d.subrange(0, d.len() as int)));
    assert(exponent(d.subrange(d.len() as int, d.len() as int)));
    assert(number_text(d));
    // a negative number
    let sd = seq!['-'] + d;
    assert(lower_ascii(sd) =~= sd);
    assert(unsigned_part(sd) =~= d);
    // a number with a fractional part
    let f = d + seq!['.'] + e;
    assert(lower_ascii(f) =~= f);
    assert(is_digit(f[0]));
    assert(unsigned_part(f) == f);
    assert(f.subrange(0, f.len() as int) =~= f);
    assert forall|i: int| 0 <= i < f.len() implies is_digit(#[trigger] f[i]) || f[i] == '.' by {
        if i < d.len() {
            assert(f[i] == d[i]);
        } else if i > d.len() {
            assert(f[i] == e[i - d.len() - 1]);
        }
    }
    assert forall|i: int, j: int| 0 <= i < j < f.len() implies !(#[trigger] f[i] == '.' && #[trigger] f[j] == '.') by {
        if i < d.len() {
            assert(f[i] == d[i]);
        } else if i == d.len() {
            assert(f[j] == e[j - d.len() - 1]);
        } else {
            assert(f[i] == e[i - d.len() - 1]);
        }
    }
    assert(mantissa(f.subrange(0, f.len() as int)));
    assert(exponent(f.subrange(f.len() as int, f.len() as int)));
    assert(number_text(f));
    // rejected texts
    let empty = Seq::<char>::empty();
    assert(lower_ascii(empty) =~= empty);
    if number_text(empty) {
        let k = choose|k: int| 0 <= k <= empty.len() && #[trigger] mantissa(empty.subrange(0, k)) && exponent(empty.subrange(k, empty.len() as int));
        assert(empty.subrange(0, k).len() == 0);
    }
    let dot = seq!['.'];
    assert(lower_ascii(dot) =~= dot);
    assert(unsigned_part(dot) == dot);
    if number_text(dot) {
        let k = choose|k: int| 0 <= k <= dot.len() && #[trigger] mantissa(dot.subrange(0, k)) && exponent(dot.subrange(k, dot.len() as int));
        let m2 = dot.subrange(0, k);
        let i = choose|i: int| 0 <= i < m2.len() && is_digit(#[trigger] m2[i]);
        assert(m2[i] == '.');
    }
    let minus = seq!['-'];
    assert(lower_ascii(minus) =~= minus);
    assert(unsigned_part(minus) =~= empty);
    let de = d + seq!['e'];
    assert(lower_ascii(de) =~= de);
    assert(unsigned_part(de) == de);
    if number_text(de) {
        let k = choose|k: int| 0 <= k <= de.len() && #[trigger] mantissa(de.subrange(0, k)) && exponent(de.subrange(k, de.len() as int));
        if k <= d.len() {
            let x = de.subrange(k, de.len() as int);
            if k < d.len() {
                assert(x[0] == d[k]);
            } else {
                assert(x.drop_first() =~= empty);
                assert(unsigned_part(empty) == empty);
            }
        } else {
            let m2 = de.subrange(0, k);
            assert(m2[d.len() as int] == 'e');
            assert(is_digit(m2[d.len() as int]) || m2[d.len() as int] == '.');
        }
    }
    assert(seq!['i', 'n', 'f'].len() != 0);
}

} // verus!
