//! Character-level text utilities: decimal rendering, whitespace trimming,
//! integer parsing and list joining, each stated over `Seq<char>`.

use vstd::prelude::*;

verus! {

/// The ASCII digit character for a value below ten.
pub open spec fn digit_char(d: nat) -> char {
    if d == 0 { '0' }
    else if d == 1 { '1' }
    else if d == 2 { '2' }
    else if d == 3 { '3' }
    else if d == 4 { '4' }
    else if d == 5 { '5' }
    else if d == 6 { '6' }
    else if d == 7 { '7' }
    else if d == 8 { '8' }
    else { '9' }
}

/// Decimal rendering of a natural number, without leading zeros.
pub open spec fn decimal(n: nat) -> Seq<char>
    decreases n,
{
    if n < 10 {
        seq![digit_char(n)]
    } else {
        decimal(n / 10).push(digit_char(n % 10))
    }
}

/// Decimal rendering of an integer, with a leading minus sign when negative.
pub open spec fn signed_decimal(i: int) -> Seq<char> {
    if i < 0 {
        seq!['-'] + decimal((-i) as nat)
    } else {
        decimal(i as nat)
    }
}

fn digit_of(d: u64) -> (c: char)
    requires
        d < 10,
    ensures
        c == digit_char(d as nat),
{
    if d == 0 { '0' }
    else if d == 1 { '1' }
    else if d == 2 { '2' }
    else if d == 3 { '3' }
    else if d == 4 { '4' }
    else if d == 5 { '5' }
    else if d == 6 { '6' }
    else if d == 7 { '7' }
    else if d == 8 { '8' }
    else { '9' }
}

/// Decimal digits of `n`.
pub fn u64_decimal_chars(n: u64) -> (r: Vec<char>)
    ensures
        r@ == decimal(n as nat),
    decreases n,
{
    if n < 10 {
        let mut v: Vec<char> = Vec::new();
        v.push(digit_of(n));
        v
    } else {
        let mut v = u64_decimal_chars(n / 10);
        v.push(digit_of(n % 10));
        v
    }
}

/// Collects the characters of a string slice.
pub(crate) fn chars_of(s: &str) -> (r: Vec<char>)
    ensures
        r@ == s@,
{
    broadcast use vstd::string::group_string_axioms;
    let mut v: Vec<char> = Vec::new();
    for c in it: s.chars()
        invariant
            it.seq() == s@,
            v@ == it.seq().take(it.index()),
    {
        v.push(c);
    }
    v
}

/// Appends one character to a string (`String::push`).
#[verifier::external_body]
fn push_char(s: &mut String, c: char)
    ensures
        final(s)@ == old(s)@.push(c),
{
    s.push(c);
}

/// Builds a string from a slice of characters.
pub(crate) fn string_from_chars(v: &[char]) -> (r: String)
    ensures
        r@ == v@,
{
    let mut s = String::new();
    let mut i: usize = 0;
    while i < v.len()
        invariant
            i <= v.len(),
            s@ == v@.take(i as int),
        decreases v.len() - i,
    {
        push_char(&mut s, v[i]);
        proof {
            assert(v@.take(i as int).push(v@[i as int]) =~= v@.take(i as int + 1));
        }
        i = i + 1;
    }
    proof {
        assert(v@.take(v@.len() as int) =~= v@);
    }
    s
}

/// Decimal rendering of an unsigned integer.
pub fn u64_to_string(n: u64) -> (s: String)
    ensures
        s@ == decimal(n as nat),
{
    let v = u64_decimal_chars(n);
    string_from_chars(v.as_slice())
}


/// Decimal rendering of a signed integer.
pub fn i64_to_string(i: i64) -> (s: String)
    ensures
        s@ == signed_decimal(i as int),
{
    if i < 0 {
        let m: u64 = (0i128 - (i as i128)) as u64;
        let digits = u64_decimal_chars(m);
        let mut v: Vec<char> = Vec::new();
        v.push('-');
        append_chars(&mut v, digits.as_slice());
        assert(v@ == seq!['-'] + decimal(m as nat));
        string_from_chars(v.as_slice())
    } else {
        u64_to_string(i as u64)
    }
}

/// Appends every character of `tail` to `v`.
pub fn append_chars(v: &mut Vec<char>, tail: &[char])
    ensures
        final(v)@ == old(v)@ + tail@,
{
    let ghost start = v@;
    let mut i: usize = 0;
    while i < tail.len()
        invariant
            i <= tail@.len(),
            v@ == start + tail@.subrange(0, i as int),
        decreases tail@.len() - i,
    {
        v.push(tail[i]);
        i = i + 1;
        assert(tail@.subrange(0, i as int) == tail@.subrange(0, i - 1) + seq![tail@[i - 1]]);
    }
    assert(tail@.subrange(0, tail@.len() as int) == tail@);
}

/// Whether two character sequences are equal.
pub fn chars_eq(a: &[char], b: &[char]) -> (r: bool)
    ensures
        r == (a@ == b@),
{
    if a.len() != b.len() {
        return false;
    }
    let mut i: usize = 0;
    while i < a.len()
        invariant
            i <= a@.len(),
            a@.len() == b@.len(),
            forall|k: int| 0 <= k < i ==> a@[k] == b@[k],
        decreases a@.len() - i,
    {
        if a[i] != b[i] {
            return false;
        }
        i = i + 1;
    }
    assert(a@ =~= b@);
    true
}

/// Whether two string slices hold the same characters.
pub fn str_eq(a: &str, b: &str) -> (r: bool)
    ensures
        r == (a@ == b@),
{
    let x = chars_of(a);
    let y = chars_of(b);
    chars_eq(x.as_slice(), y.as_slice())
}

/// The Unicode `White_Space` property, as `char::is_whitespace` reports it:
/// the controls U+0009 to U+000D, the space, U+0085, the no-break space,
/// the Ogham space mark, the spaces U+2000 to U+200A, the line and
/// paragraph separators, the narrow no-break space, the medium mathematical
/// space and the ideographic space.
pub open spec fn white_space(c: char) -> bool {
    let n = c as u32;
    ||| 0x09 <= n <= 0x0D
    ||| n == 0x20
    ||| n == 0x85
    ||| n == 0xA0
    ||| n == 0x1680
    ||| 0x2000 <= n <= 0x200A
    ||| n == 0x2028
    ||| n == 0x2029
    ||| n == 0x202F
    ||| n == 0x205F
    ||| n == 0x3000
}

/// Whether a character is whitespace in the sense of `char::is_whitespace`.
pub(crate) fn is_whitespace(c: char) -> (b: bool)
    ensures
        b == white_space(c),
{
    let n = c as u32;
    (0x09 <= n && n <= 0x0D) || n == 0x20 || n == 0x85 || n == 0xA0 || n == 0x1680
        || (0x2000 <= n && n <= 0x200A) || n == 0x2028 || n == 0x2029 || n == 0x202F
        || n == 0x205F || n == 0x3000
}

/// `s` without its leading whitespace.
pub open spec fn trim_start(s: Seq<char>) -> Seq<char>
    decreases s.len(),
{
    if s.len() > 0 && white_space(s[0]) {
        trim_start(s.drop_first())
    } else {
        s
    }
}

/// `s` without its trailing whitespace.
pub open spec fn trim_end(s: Seq<char>) -> Seq<char>
    decreases s.len(),
{
    if s.len() > 0 && white_space(s.last()) {
        trim_end(s.drop_last())
    } else {
        s
    }
}

/// `s` without leading and trailing whitespace, as `str::trim` gives it.
pub open spec fn trimmed(s: Seq<char>) -> Seq<char> {
    trim_end(trim_start(s))
}

proof fn lemma_trim_start_skip(s: Seq<char>, i: int)
    requires
        0 <= i <= s.len(),
        forall|k: int| 0 <= k < i ==> white_space(#[trigger] s[k]),
        i == s.len() || !white_space(s[i]),
    ensures
        trim_start(s) == s.subrange(i, s.len() as int),
    decreases i,
{
    if i == 0 {
        assert(s.subrange(0, s.len() as int) =~= s);
    } else {
        let t = s.drop_first();
        assert forall|k: int| 0 <= k < i - 1 implies white_space(#[trigger] t[k]) by {
            assert(t[k] == s[k + 1]);
        }
        lemma_trim_start_skip(t, i - 1);
        assert(t.subrange(i - 1, t.len() as int) =~= s.subrange(i, s.len() as int));
    }
}

proof fn lemma_trim_end_take(s: Seq<char>, j: int)
    requires
        0 <= j <= s.len(),
        forall|k: int| j <= k < s.len() ==> white_space(#[trigger] s[k]),
        j == 0 || !white_space(s[j - 1]),
    ensures
        trim_end(s) == s.subrange(0, j),
    decreases s.len() - j,
{
    if j == s.len() {
        assert(s.subrange(0, j) =~= s);
    } else {
        let t = s.drop_last();
        assert forall|k: int| j <= k < t.len() implies white_space(#[trigger] t[k]) by {
            assert(t[k] == s[k]);
        }
        lemma_trim_end_take(t, j);
        assert(t.subrange(0, j) =~= s.subrange(0, j));
    }
}

/// The decimal rendering of a number is a non-empty run of digits whose
/// value is the number.
pub proof fn lemma_decimal_digits(n: nat)
    ensures
        decimal(n).len() > 0,
        all_digits(decimal(n)),
        digits_value(decimal(n)) == n,
    decreases n,
{
    let c = digit_char(n % 10);
    assert(is_digit(c) && digit_value(c) == n % 10);
    if n >= 10 {
        lemma_decimal_digits(n / 10);
        let d = decimal(n / 10);
        assert(decimal(n).drop_last() =~= d);
        assert(decimal(n).last() == c);
        assert(digits_value(decimal(n)) == digits_value(d) * 10 + digit_value(c));
        assert((n / 10) * 10 + n % 10 == n);
        assert forall|k: int| 0 <= k < decimal(n).len() implies is_digit(#[trigger] decimal(n)[k]) by {
            if k < d.len() {
                assert(decimal(n)[k] == d[k]);
            }
        }
    } else {
        assert(decimal(n).drop_last() =~= Seq::<char>::empty());
        assert(digits_value(Seq::<char>::empty()) == 0);
        assert(digits_value(decimal(n)) == digits_value(Seq::<char>::empty()) * 10 + digit_value(c));
    }
}

/// Rendering an `i64` in decimal and reading the text back as an `i64`
/// gives the same number: the renderer and the parser agree on every value,
/// the most negative one included.
pub proof fn lemma_decimal_round_trip(i: i64)
    ensures
        parse_i64_spec(signed_decimal(i as int)) == Some(i),
{
    if i < 0 {
        let n = (-(i as int)) as nat;
        lemma_decimal_digits(n);
        let s = signed_decimal(i as int);
        assert(s[0] == '-');
        assert(s.drop_first() =~= decimal(n));
    } else {
        let n = i as nat;
        lemma_decimal_digits(n);
        let s = decimal(n);
        assert(is_digit(s[0]));
    }
}

/// Rendering a `u32` in decimal and reading it back as a `u32` gives the
/// same number.
pub proof fn lemma_u32_decimal_round_trip(n: u32)
    ensures
        parse_u32_spec(decimal(n as nat)) == Some(n),
{
    lemma_decimal_digits(n as nat);
    assert(is_digit(decimal(n as nat)[0]));
}

/// Trimming removes exactly the whitespace at both ends: when the
/// characters before `a` and from `b` on are whitespace, and `s[a..b]` is
/// empty or starts and ends with a character that is not, the trimmed text
/// is `s[a..b]`.
pub proof fn lemma_trimmed_is_core(s: Seq<char>, a: int, b: int)
    requires
        0 <= a <= b <= s.len(),
        forall|k: int| 0 <= k < a ==> white_space(#[trigger] s[k]),
        forall|k: int| b <= k < s.len() ==> white_space(#[trigger] s[k]),
        a == b || (!white_space(s[a]) && !white_space(s[b - 1])),
    ensures
        trimmed(s) == s.subrange(a, b),
{
    if a == b {
        assert forall|k: int| 0 <= k < s.len() implies white_space(#[trigger] s[k]) by {
            if k >= a {
                assert(b <= k);
            }
        }
        lemma_trim_start_skip(s, s.len() as int);
        let t = s.subrange(s.len() as int, s.len() as int);
        assert(t.len() == 0);
        assert(trim_end(t) == t);
        assert(t =~= s.subrange(a, b));
    } else {
        lemma_trim_start_skip(s, a);
        let t = s.subrange(a, s.len() as int);
        assert forall|k: int| b - a <= k < t.len() implies white_space(#[trigger] t[k]) by {
            assert(t[k] == s[a + k]);
        }
        assert(t[b - a - 1] == s[b - 1]);
        lemma_trim_end_take(t, b - a);
        assert(t.subrange(0, b - a) =~= s.subrange(a, b));
    }
}

proof fn lemma_trim_start_shape(s: Seq<char>)
    ensures
        trim_start(s).len() <= s.len(),
        trim_start(s) == s.subrange(s.len() - trim_start(s).len(), s.len() as int),
        trim_start(s).len() > 0 ==> !white_space(trim_start(s)[0]),
    decreases s.len(),
{
    if s.len() > 0 && white_space(s[0]) {
        lemma_trim_start_shape(s.drop_first());
        let t = trim_start(s.drop_first());
        assert(s.drop_first().subrange(s.len() - 1 - t.len(), s.len() - 1) =~= s.subrange(s.len() - t.len(), s.len() as int));
    } else {
        assert(s.subrange(0, s.len() as int) =~= s);
    }
}

proof fn lemma_trim_end_shape(s: Seq<char>)
    ensures
        trim_end(s).len() <= s.len(),
        trim_end(s) == s.subrange(0, trim_end(s).len() as int),
        trim_end(s).len() > 0 ==> !white_space(trim_end(s).last()),
    decreases s.len(),
{
    if s.len() > 0 && white_space(s.last()) {
        lemma_trim_end_shape(s.drop_last());
        let t = trim_end(s.drop_last());
        assert(s.drop_last().subrange(0, t.len() as int) =~= s.subrange(0, t.len() as int));
    } else {
        assert(s.subrange(0, s.len() as int) =~= s);
    }
}

/// What trimming leaves: a contiguous part of the text that neither starts
/// nor ends with whitespace, so trimming it again changes nothing.
pub proof fn lemma_trimmed_shape(s: Seq<char>)
    ensures
        exists|a: int| 0 <= a && a + trimmed(s).len() <= s.len() && #[trigger] s.subrange(a, a + trimmed(s).len()) == trimmed(s),
        trimmed(s).len() > 0 ==> !white_space(trimmed(s)[0]) && !white_space(trimmed(s).last()),
        trimmed(trimmed(s)) == trimmed(s),
{
    let u = trim_start(s);
    let t = trim_end(u);
    lemma_trim_start_shape(s);
    lemma_trim_end_shape(u);
    let a = s.len() - u.len();
    assert(trimmed(s) == t);
    assert(s.subrange(a, a + t.len()) =~= t);
    assert(s.subrange(a, a + trimmed(s).len()) == trimmed(s));
    if t.len() > 0 {
        assert(t[0] == u[0]);
        assert forall|k: int| 0 <= k < 0 implies white_space(#[trigger] t[k]) by {}
        lemma_trimmed_is_core(t, 0, t.len() as int);
        assert(t.subrange(0, t.len() as int) =~= t);
    } else {
        lemma_trimmed_is_core(t, 0, 0);
        assert(t.subrange(0, 0) =~= t);
    }
}

/// The characters of `s` without leading and trailing whitespace.
pub fn trim_chars(s: &[char]) -> (r: Vec<char>)
    ensures
        r@ == trimmed(s@),
{
    let n = s.len();
    let mut i: usize = 0;
    while i < n && is_whitespace(s[i])
        invariant
            n == s@.len(),
            i <= n,
            forall|k: int| 0 <= k < i ==> white_space(#[trigger] s@[k]),
        decreases n - i,
    {
        i = i + 1;
    }
    proof {
        lemma_trim_start_skip(s@, i as int);
    }
    let ghost t = s@.subrange(i as int, n as int);
    let mut j: usize = n;
    while j > i && is_whitespace(s[j - 1])
        invariant
            n == s@.len(),
            i <= j <= n,
            t == s@.subrange(i as int, n as int),
            forall|k: int| j <= k < n ==> white_space(#[trigger] s@[k]),
        decreases j,
    {
        j = j - 1;
    }
    proof {
        assert forall|k: int| j - i <= k < t.len() implies white_space(#[trigger] t[k]) by {
            assert(t[k] == s@[k + i]);
        }
        if j > i {
            assert(t[j - i - 1] == s@[j - 1]);
        }
        lemma_trim_end_take(t, j - i);
    }
    let mut r: Vec<char> = Vec::new();
    let mut k: usize = i;
    while k < j
        invariant
            i <= k <= j <= n,
            n == s@.len(),
            r@ == s@.subrange(i as int, k as int),
        decreases j - k,
    {
        r.push(s[k]);
        k = k + 1;
        assert(s@.subrange(i as int, k as int) == s@.subrange(i as int, k - 1) + seq![s@[k - 1]]);
    }
    assert(r@ =~= t.subrange(0, j - i));
    r
}

/// `str::trim`, as characters.
pub fn trim_str(s: &str) -> (r: Vec<char>)
    ensures
        r@ == trimmed(s@),
{
    let c = chars_of(s);
    trim_chars(c.as_slice())
}

/// Whether `pat` occurs in `s` as a contiguous run.
pub open spec fn contains_seq(s: Seq<char>, pat: Seq<char>) -> bool {
    exists|i: int| 0 <= i && i + pat.len() <= s.len() && #[trigger] s.subrange(i, i + pat.len()) == pat
}

fn matches_at(s: &[char], pat: &[char], i: usize) -> (r: bool)
    requires
        i + pat@.len() <= s@.len(),
    ensures
        r == (s@.subrange(i as int, i + pat@.len()) == pat@),
{
    let n = s.len();
    let mut k: usize = 0;
    while k < pat.len()
        invariant
            n == s@.len(),
            i + pat@.len() <= s@.len(),
            k <= pat@.len(),
            forall|m: int| 0 <= m < k ==> s@[i + m] == pat@[m],
        decreases pat@.len() - k,
    {
        assert(i + k < s@.len());
        if s[i + k] != pat[k] {
            assert(s@.subrange(i as int, i + pat@.len())[k as int] != pat@[k as int]);
            return false;
        }
        k = k + 1;
    }
    assert(s@.subrange(i as int, i + pat@.len()) =~= pat@);
    true
}

/// Whether `pat` occurs in `s`.
pub fn contains_chars(s: &[char], pat: &[char]) -> (r: bool)
    ensures
        r == contains_seq(s@, pat@),
{
    if pat.len() > s.len() {
        return false;
    }
    if pat.len() == 0 {
        assert(s@.subrange(0int, 0int + pat@.len()) =~= pat@);
        return true;
    }
    let end = s.len() - pat.len() + 1;
    let mut i: usize = 0;
    while i < end
        invariant
            end + pat@.len() == s@.len() + 1,
            i <= end,
            forall|m: int| 0 <= m < i ==> #[trigger] s@.subrange(m, m + pat@.len()) != pat@,
        decreases end - i,
    {
        if matches_at(s, pat, i) {
            return true;
        }
        i = i + 1;
    }
    assert forall|m: int| 0 <= m && m + pat@.len() <= s@.len() implies #[trigger] s@.subrange(m, m + pat@.len()) != pat@ by {
        assert(m < end);
    }
    false
}

/// The items of `items` with `sep` between each two of them.
pub open spec fn join(items: Seq<Seq<char>>, sep: Seq<char>) -> Seq<char>
    decreases items.len(),
{
    if items.len() == 0 {
        Seq::empty()
    } else if items.len() == 1 {
        items[0]
    } else {
        join(items.drop_last(), sep) + sep + items.last()
    }
}

/// The character views of a list of strings.
pub open spec fn views(items: Seq<String>) -> Seq<Seq<char>> {
    items.map_values(|s: String| s@)
}

/// Joins strings with a separator, as `[String]::join` does.
pub fn join_strings(items: &[String], sep: &str) -> (r: Vec<char>)
    ensures
        r@ == join(views(items@), sep@),
{
    let sep_chars = chars_of(sep);
    let mut r: Vec<char> = Vec::new();
    let mut i: usize = 0;
    while i < items.len()
        invariant
            i <= items@.len(),
            sep_chars@ == sep@,
            r@ == join(views(items@.subrange(0, i as int)), sep@),
        decreases items@.len() - i,
    {
        let item = chars_of(items[i].as_str());
        let ghost before = items@.subrange(0, i as int);
        let ghost after = items@.subrange(0, i + 1);
        assert(views(after).drop_last() =~= views(before));
        if i > 0 {
            append_chars(&mut r, sep_chars.as_slice());
        }
        append_chars(&mut r, item.as_slice());
        i = i + 1;
        assert(views(after).last() == items@[i - 1]@);
        assert(views(after).len() == i);
        if i == 1 {
            assert(views(before) =~= Seq::<Seq<char>>::empty());
            assert(r@ =~= join(views(after), sep@));
        } else {
            assert(r@ =~= join(views(after), sep@));
        }
    }
    assert(items@.subrange(0, items@.len() as int) =~= items@);
    r
}


/// What `str::to_lowercase` returns for a string: Unicode lowercase mapping,
/// which can change the length of the text.
pub uninterp spec fn unicode_lowercase(s: Seq<char>) -> Seq<char>;

/// `str::to_lowercase`. Its result is named `unicode_lowercase` of the input.
#[verifier::external_body]
pub(crate) fn to_lowercase(s: &str) -> (r: String)
    ensures
        r@ == unicode_lowercase(s@),
{
    s.to_lowercase()
}

/// A string holding the characters of `s`.
pub fn owned(s: &str) -> (r: String)
    ensures
        r@ == s@,
{
    String::from_str(s)
}

/// The character view of an optional string.
pub open spec fn opt_view(o: Option<String>) -> Option<Seq<char>> {
    match o {
        Some(s) => Some(s@),
        None => None,
    }
}

/// Copies an optional string.
pub fn clone_opt(o: &Option<String>) -> (r: Option<String>)
    ensures
        opt_view(r) == opt_view(*o),
{
    match o {
        Some(s) => Some(s.clone()),
        None => None,
    }
}


/// Whether `c` is an ASCII decimal digit.
pub open spec fn is_digit(c: char) -> bool {
    '0' <= c && c <= '9'
}

/// The value of an ASCII decimal digit.
pub open spec fn digit_value(c: char) -> nat {
    (c as int - '0' as int) as nat
}

/// Whether every character of `s` is an ASCII decimal digit.
pub open spec fn all_digits(s: Seq<char>) -> bool {
    forall|i: int| 0 <= i < s.len() ==> is_digit(#[trigger] s[i])
}

/// The number written by the decimal digits `s`.
pub open spec fn digits_value(s: Seq<char>) -> nat
    decreases s.len(),
{
    if s.len() == 0 {
        0
    } else {
        digits_value(s.drop_last()) * 10 + digit_value(s.last())
    }
}

proof fn lemma_digits_value_prefix(s: Seq<char>, k: int)
    requires
        0 <= k <= s.len(),
    ensures
        digits_value(s.subrange(0, k)) <= digits_value(s),
    decreases s.len() - k,
{
    if k < s.len() {
        lemma_digits_value_prefix(s.drop_last(), k);
        assert(s.drop_last().subrange(0, k) =~= s.subrange(0, k));
    } else {
        assert(s.subrange(0, k) =~= s);
    }
}

/// The value of the decimal digits `s`, when they are all digits and the
/// value is at most `limit`; none otherwise.
fn parse_digits(s: &[char], limit: u64) -> (r: Option<u64>)
    requires
        limit >= 9,
    ensures
        r == (if all_digits(s@) && digits_value(s@) <= limit { Some(digits_value(s@) as u64) } else { None::<u64> }),
{
    let mut acc: u64 = 0;
    let mut i: usize = 0;
    while i < s.len()
        invariant
            i <= s@.len(),
            all_digits(s@.subrange(0, i as int)),
            acc as nat == digits_value(s@.subrange(0, i as int)),
            acc <= limit,
            limit >= 9,
        decreases s@.len() - i,
    {
        let c = s[i];
        assert(s@.subrange(0, i + 1).drop_last() =~= s@.subrange(0, i as int));
        assert(s@.subrange(0, i + 1).last() == c);
        if !('0' <= c && c <= '9') {
            assert(!is_digit(s@[i as int]));
            return None;
        }
        let d = (c as u64) - ('0' as u64);
        if acc > (limit - d) / 10 {
            proof {
                assert(acc * 10 + d > limit) by (nonlinear_arith)
                    requires
                        acc > (limit - d) / 10,
                        d <= limit,
                {
                }
                lemma_digits_value_prefix(s@, i + 1);
            }
            return None;
        }
        assert(acc * 10 + d <= limit) by (nonlinear_arith)
            requires
                acc <= (limit - d) / 10,
                d <= limit,
        {
        }
        acc = acc * 10 + d;
        i = i + 1;
    }
    assert(s@.subrange(0, s@.len() as int) =~= s@);
    Some(acc)
}

/// What `str::parse::<i64>` gives for `s`: an optional sign, then one or
/// more ASCII digits, in range.
pub open spec fn parse_i64_spec(s: Seq<char>) -> Option<i64> {
    if s.len() == 0 {
        None
    } else {
        let neg = s[0] == '-';
        let body = if s[0] == '-' || s[0] == '+' { s.drop_first() } else { s };
        if body.len() == 0 || !all_digits(body) {
            None
        } else if neg {
            if digits_value(body) <= 0x8000_0000_0000_0000 {
                Some((-digits_value(body)) as i64)
            } else {
                None
            }
        } else {
            if digits_value(body) <= 0x7fff_ffff_ffff_ffff {
                Some(digits_value(body) as i64)
            } else {
                None
            }
        }
    }
}

/// What `str::parse::<u32>` gives for `s`: an optional '+', then one or more
/// ASCII digits, in range.
pub open spec fn parse_u32_spec(s: Seq<char>) -> Option<u32> {
    if s.len() == 0 {
        None
    } else {
        let body = if s[0] == '+' { s.drop_first() } else { s };
        if body.len() == 0 || !all_digits(body) || digits_value(body) > 0xffff_ffff {
            None
        } else {
            Some(digits_value(body) as u32)
        }
    }
}

fn tail_chars(s: &[char], from: usize) -> (r: Vec<char>)
    requires
        from <= s@.len(),
    ensures
        r@ == s@.subrange(from as int, s@.len() as int),
{
    let mut r: Vec<char> = Vec::new();
    let mut k: usize = from;
    while k < s.len()
        invariant
            from <= k <= s@.len(),
            r@ == s@.subrange(from as int, k as int),
        decreases s@.len() - k,
    {
        r.push(s[k]);
        k = k + 1;
        assert(s@.subrange(from as int, k as int) =~= s@.subrange(from as int, k - 1) + seq![s@[k - 1]]);
    }
    r
}

/// Parses a signed decimal integer as `str::parse::<i64>` does.
pub fn parse_i64(s: &[char]) -> (r: Option<i64>)
    ensures
        r == parse_i64_spec(s@),
{
    if s.len() == 0 {
        return None;
    }
    let neg = s[0] == '-';
    let signed = s[0] == '-' || s[0] == '+';
    let body = if signed { tail_chars(s, 1) } else { tail_chars(s, 0) };
    assert(s@.subrange(0, s@.len() as int) =~= s@);
    assert(s@.subrange(1, s@.len() as int) =~= s@.drop_first());
    if body.len() == 0 {
        return None;
    }
    if neg {
        match parse_digits(body.as_slice(), 0x8000_0000_0000_0000u64) {
            Some(v) => {
                if v == 0x8000_0000_0000_0000u64 {
                    Some(i64::MIN)
                } else {
                    Some(-(v as i64))
                }
            },
            None => None,
        }
    } else {
        match parse_digits(body.as_slice(), 0x7fff_ffff_ffff_ffffu64) {
            Some(v) => Some(v as i64),
            None => None,
        }
    }
}

/// Parses an unsigned 32-bit decimal integer as `str::parse::<u32>` does.
pub fn parse_u32(s: &[char]) -> (r: Option<u32>)
    ensures
        r == parse_u32_spec(s@),
{
    if s.len() == 0 {
        return None;
    }
    let body = if s[0] == '+' { tail_chars(s, 1) } else { tail_chars(s, 0) };
    assert(s@.subrange(0, s@.len() as int) =~= s@);
    assert(s@.subrange(1, s@.len() as int) =~= s@.drop_first());
    if body.len() == 0 {
        return None;
    }
    match parse_digits(body.as_slice(), 0xffff_ffffu64) {
        Some(v) => Some(v as u32),
        None => None,
    }
}

} // verus!
