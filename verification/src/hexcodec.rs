//! Hexadecimal encoding of keys, through the `hex` crate.

use vstd::prelude::*;

verus! {

/// The lowercase hexadecimal digit for a value below sixteen.
pub open spec fn hex_digit(n: nat) -> char {
    if n < 10 {
        ('0' as int + n) as char
    } else {
        ('a' as int + (n - 10)) as char
    }
}

/// Lowercase hexadecimal rendering of bytes, two digits per byte, high
/// nibble first.
pub open spec fn hex_lower(b: Seq<u8>) -> Seq<char>
    decreases b.len(),
{
    if b.len() == 0 {
        Seq::empty()
    } else {
        hex_lower(b.drop_last()) + seq![hex_digit((b.last() / 16) as nat), hex_digit((b.last() % 16) as nat)]
    }
}

/// The value of one hexadecimal digit byte, either case.
pub open spec fn hex_value(c: u8) -> Option<u8> {
    if 48 <= c <= 57 {
        Some((c - 48) as u8)
    } else if 97 <= c <= 102 {
        Some((c - 87) as u8)
    } else if 65 <= c <= 70 {
        Some((c - 55) as u8)
    } else {
        None
    }
}

/// The bytes written by hexadecimal text, or none when its length is odd or
/// a byte is no hexadecimal digit.
pub open spec fn hex_decoded(d: Seq<u8>) -> Option<Seq<u8>>
    decreases d.len(),
{
    if d.len() % 2 != 0 {
        None
    } else if d.len() == 0 {
        Some(Seq::empty())
    } else {
        match (hex_decoded(d.subrange(0, d.len() - 2)), hex_value(d[d.len() - 2]), hex_value(d[d.len() - 1])) {
            (Some(p), Some(hi), Some(lo)) => Some(p.push((hi * 16 + lo) as u8)),
            _ => None,
        }
    }
}

/// `hex::encode`: each byte as two lowercase hexadecimal digits.
#[verifier::external_body]
pub(crate) fn hex_encode(data: &[u8]) -> (r: String)
    ensures
        r@ == hex_lower(data@),
{
    hex::encode(data)
}

/// `hex::decode`: the bytes written by hexadecimal text of either case; the
/// crate's error (odd length or an invalid digit) comes back as `None`.
#[verifier::external_body]
pub(crate) fn hex_decode(data: &[u8]) -> (r: Option<Vec<u8>>)
    ensures
        match r {
            Some(v) => hex_decoded(data@) == Some(v@),
            None => hex_decoded(data@) is None,
        },
{
    hex::decode(data).ok()
}

/// The bytes of ASCII text.
pub open spec fn ascii_bytes(s: Seq<char>) -> Seq<u8> {
    s.map_values(|c: char| c as u8)
}

proof fn lemma_digit_value(n: nat)
    requires
        n < 16,
    ensures
        hex_value(hex_digit(n) as u8) == Some(n as u8),
{
}

/// Decoding undoes encoding: the hexadecimal text of any bytes decodes to
/// exactly those bytes.
pub proof fn lemma_hex_round_trip(b: Seq<u8>)
    ensures
        hex_decoded(ascii_bytes(hex_lower(b))) == Some(b),
    decreases b.len(),
{
    if b.len() == 0 {
        assert(ascii_bytes(hex_lower(b)) =~= Seq::<u8>::empty());
    } else {
        let p = b.drop_last();
        let hi = (b.last() / 16) as nat;
        let lo = (b.last() % 16) as nat;
        lemma_hex_round_trip(p);
        lemma_digit_value(hi);
        lemma_digit_value(lo);
        let d = ascii_bytes(hex_lower(b));
        let dp = ascii_bytes(hex_lower(p));
        assert(hex_lower(b) == hex_lower(p) + seq![hex_digit(hi), hex_digit(lo)]);
        assert(d =~= dp + seq![hex_digit(hi) as u8, hex_digit(lo) as u8]);
        assert(d.subrange(0, d.len() - 2) =~= dp);
        assert(dp.len() % 2 == 0);
        assert(((hi * 16 + lo) as u8) == b.last());
        assert(b =~= p.push(b.last()));
    }
}

/// Encoded keys are lower-case: the text of `n` bytes has `2n` characters,
/// each a digit or a letter from 'a' to 'f', and the two characters of byte
/// `k` give its high then low nibble.
pub proof fn lemma_hex_shape(b: Seq<u8>)
    ensures
        hex_lower(b).len() == 2 * b.len(),
        forall|i: int| 0 <= i < hex_lower(b).len() ==> {
            let c = #[trigger] hex_lower(b)[i];
            ('0' <= c && c <= '9') || ('a' <= c && c <= 'f')
        },
        forall|k: int| 0 <= k < b.len() ==> hex_lower(b)[2 * k] == hex_digit((#[trigger] b[k] / 16) as nat)
            && hex_lower(b)[2 * k + 1] == hex_digit((b[k] % 16) as nat),
        hex_digit(0) == '0' && hex_digit(9) == '9' && hex_digit(10) == 'a' && hex_digit(15) == 'f',
    decreases b.len(),
{
    if b.len() > 0 {
        let p = b.drop_last();
        lemma_hex_shape(p);
        let hp = hex_lower(p);
        let h = hex_lower(b);
        let x = b.last();
        assert(h == hp + seq![hex_digit((x / 16) as nat), hex_digit((x % 16) as nat)]);
        assert forall|i: int| 0 <= i < h.len() implies {
            let c = #[trigger] h[i];
            ('0' <= c && c <= '9') || ('a' <= c && c <= 'f')
        } by {
            if i < hp.len() {
                assert(h[i] == hp[i]);
            }
        }
        assert forall|k: int| 0 <= k < b.len() implies h[2 * k] == hex_digit((#[trigger] b[k] / 16) as nat)
            && h[2 * k + 1] == hex_digit((b[k] % 16) as nat) by {
            if k < p.len() {
                assert(b[k] == p[k]);
                assert(h[2 * k] == hp[2 * k]);
                assert(h[2 * k + 1] == hp[2 * k + 1]);
            }
        }
    }
}

} // verus!
