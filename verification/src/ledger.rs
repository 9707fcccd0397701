//! Ledger entries as the chain hands them over, and the values the
//! database records for them: timestamps and reward distribution times.

use vstd::prelude::*;

verus! {

/// One ledger entry.
pub struct LedgerEntryData {
    pub label: String,
    pub key: Vec<u8>,
    pub value: Vec<u8>,
    pub block_timestamp_ns: u64,
    pub block_hash: Vec<u8>,
    pub block_offset: u64,
}

/// The unsigned value of the first eight bytes, least significant first.
pub open spec fn le_u64_value(b: Seq<u8>) -> int {
    b[0] + b[1] * 0x100 + b[2] * 0x1_0000 + b[3] * 0x100_0000 + b[4] * 0x1_0000_0000
        + b[5] * 0x100_0000_0000 + b[6] * 0x1_0000_0000_0000 + b[7] * 0x100_0000_0000_0000
}

/// The time a reward distribution entry records: the little-endian `u64` in
/// the first eight bytes of its value, or the block's timestamp when the
/// value is shorter.
pub open spec fn distribution_time(value: Seq<u8>, block_timestamp_ns: u64) -> u64 {
    if value.len() >= 8 {
        le_u64_value(value) as u64
    } else {
        block_timestamp_ns
    }
}

/// Reads the first eight bytes as a little-endian `u64`.
pub fn read_le_u64(b: &[u8]) -> (r: u64)
    requires
        b@.len() >= 8,
    ensures
        r == le_u64_value(b@),
{
    (b[0] as u64) + (b[1] as u64) * 0x100 + (b[2] as u64) * 0x1_0000 + (b[3] as u64) * 0x100_0000
        + (b[4] as u64) * 0x1_0000_0000 + (b[5] as u64) * 0x100_0000_0000 + (b[6] as u64)
        * 0x1_0000_0000_0000 + (b[7] as u64) * 0x100_0000_0000_0000
}

/// The timestamp stored for a reward distribution entry, as the signed
/// column value (the `u64` reinterpreted, wrapping above `i64::MAX`).
pub fn reward_distribution_timestamp(value: &[u8], block_timestamp_ns: u64) -> (r: i64)
    ensures
        r == distribution_time(value@, block_timestamp_ns) as i64,
{
    let t: u64 = if value.len() >= 8 {
        read_le_u64(value)
    } else {
        block_timestamp_ns
    };
    t as i64
}

/// The signed column value of an entry's block timestamp.
pub fn block_timestamp_i64(entry: &LedgerEntryData) -> (r: i64)
    ensures
        r == entry.block_timestamp_ns as i64,
{
    entry.block_timestamp_ns as i64
}

/// The distribution times recorded for a batch of reward distribution
/// entries, in order.
pub fn reward_distribution_timestamps(entries: &[LedgerEntryData]) -> (r: Vec<i64>)
    ensures
        r@.len() == entries@.len(),
        forall|i: int| 0 <= i < entries@.len() ==>
            r@[i] == #[trigger] distribution_time(entries@[i].value@, entries@[i].block_timestamp_ns) as i64,
{
    let mut out: Vec<i64> = Vec::new();
    let mut i: usize = 0;
    while i < entries.len()
        invariant
            i <= entries@.len(),
            out@.len() == i,
            forall|k: int| 0 <= k < i ==>
                out@[k] == #[trigger] distribution_time(entries@[k].value@, entries@[k].block_timestamp_ns) as i64,
        decreases entries@.len() - i,
    {
        let e = &entries[i];
        let t = reward_distribution_timestamp(e.value.as_slice(), e.block_timestamp_ns);
        out.push(t);
        i = i + 1;
    }
    out
}

/// What a provider check-in records: its memo and nonce signature.
pub struct CheckInRecord {
    pub memo: String,
    pub nonce_signature: Vec<u8>,
}

/// The length of a bare nonce signature, as the earliest check-ins stored it.
pub const LEGACY_SIGNATURE_LEN: usize = 64;

/// The check-in an entry records, given whether its value decoded as a
/// check-in payload (`decoded`, as memo and signature): the decoded
/// payload; else, for a value of exactly 64 bytes, that value as the nonce
/// signature with an empty memo; else none, and the entry is skipped.
pub open spec fn check_in_of(decoded: Option<(Seq<char>, Seq<u8>)>, value: Seq<u8>) -> Option<(Seq<char>, Seq<u8>)> {
    match decoded {
        Some(d) => Some(d),
        None => if value.len() == LEGACY_SIGNATURE_LEN { Some((Seq::empty(), value)) } else { None },
    }
}

/// The check-in an entry records.
pub fn check_in_record(decoded: Option<CheckInRecord>, value: &[u8]) -> (r: Option<CheckInRecord>)
    ensures
        match r {
            Some(c) => check_in_of(
                match decoded { Some(d) => Some((d.memo@, d.nonce_signature@)), None => None },
                value@,
            ) == Some((c.memo@, c.nonce_signature@)),
            None => check_in_of(
                match decoded { Some(d) => Some((d.memo@, d.nonce_signature@)), None => None },
                value@,
            ) is None,
        },
{
    match decoded {
        Some(d) => Some(d),
        None => {
            if value.len() == LEGACY_SIGNATURE_LEN {
                let memo = String::new();
                proof {
                    assert(memo@ =~= Seq::<char>::empty());
                }
                Some(CheckInRecord { memo, nonce_signature: vstd::slice::slice_to_vec(value) })
            } else {
                None
            }
        },
    }
}

/// The error for a reputation change that has no entries.
pub open spec fn no_entries_text() -> Seq<char> {
    "Reputation change has no entries"@
}

/// The amount a reputation change entry records: the delta of its first
/// change.
pub fn reputation_delta(deltas: &[i64]) -> (r: Result<i64, String>)
    ensures
        deltas@.len() > 0 ==> r == Ok::<i64, String>(deltas@[0]),
        deltas@.len() == 0 ==> (r matches Err(e) && e@ == no_entries_text()),
{
    if deltas.len() == 0 {
        Err(String::from_str("Reputation change has no entries"))
    } else {
        Ok(deltas[0])
    }
}

/// The error for an entry value that does not decode: `what` and the
/// decoder's message.
pub fn decode_error_message(what: &str, detail: &str) -> (r: String)
    ensures
        r@ == "Failed to parse "@ + what@ + ": "@ + detail@,
{
    let mut m = String::from_str("Failed to parse ");
    m.append(what);
    m.append(": ");
    m.append(detail);
    m
}

/// Reading a value's first eight bytes is little-endian: the eight bytes of
/// any `u64`, least significant first, read back as that number, whatever
/// follows them; a value shorter than eight bytes records the block's time.
pub proof fn lemma_distribution_time_le(n: u64, rest: Seq<u8>, short: Seq<u8>, block_timestamp_ns: u64)
    requires
        short.len() < 8,
    ensures
        distribution_time(seq![
            (n & 0xff) as u8, ((n >> 8) & 0xff) as u8, ((n >> 16) & 0xff) as u8, ((n >> 24) & 0xff) as u8,
            ((n >> 32) & 0xff) as u8, ((n >> 40) & 0xff) as u8, ((n >> 48) & 0xff) as u8, ((n >> 56) & 0xff) as u8,
        ] + rest, block_timestamp_ns) == n,
        distribution_time(short, block_timestamp_ns) == block_timestamp_ns,
{
    let b = seq![
        (n & 0xff) as u8, ((n >> 8) & 0xff) as u8, ((n >> 16) & 0xff) as u8, ((n >> 24) & 0xff) as u8,
        ((n >> 32) & 0xff) as u8, ((n >> 40) & 0xff) as u8, ((n >> 48) & 0xff) as u8, ((n >> 56) & 0xff) as u8,
    ] + rest;
    assert(b.len() >= 8);
    assert(b[0] == (n & 0xff) as u8 && b[1] == ((n >> 8) & 0xff) as u8 && b[2] == ((n >> 16) & 0xff) as u8
        && b[3] == ((n >> 24) & 0xff) as u8 && b[4] == ((n >> 32) & 0xff) as u8 && b[5] == ((n >> 40) & 0xff) as u8
        && b[6] == ((n >> 48) & 0xff) as u8 && b[7] == ((n >> 56) & 0xff) as u8);
    assert(((n & 0xff) as u8) as int + (((n >> 8) & 0xff) as u8) as int * 0x100 + (((n >> 16) & 0xff) as u8) as int * 0x1_0000
        + (((n >> 24) & 0xff) as u8) as int * 0x100_0000 + (((n >> 32) & 0xff) as u8) as int * 0x1_0000_0000
        + (((n >> 40) & 0xff) as u8) as int * 0x100_0000_0000 + (((n >> 48) & 0xff) as u8) as int * 0x1_0000_0000_0000
        + (((n >> 56) & 0xff) as u8) as int * 0x100_0000_0000_0000 == n) by (bit_vector);
}

/// The check-in an entry records: a decoded payload as decoded; failing
/// that, a value of exactly 64 bytes is a bare nonce signature with an
/// empty memo, and a value of any other length records nothing.
pub proof fn lemma_check_in_fallback(d: (Seq<char>, Seq<u8>), value: Seq<u8>)
    ensures
        check_in_of(Some(d), value) == Some(d),
        value.len() == 64 ==> check_in_of(None, value) == Some((Seq::<char>::empty(), value)),
        value.len() != 64 ==> check_in_of(None, value) is None,
{
}

} // verus!
