use dcc_api_core::ledger::{
    check_in_record, decode_error_message, reputation_delta, CheckInRecord,
    block_timestamp_i64, read_le_u64, reward_distribution_timestamp, reward_distribution_timestamps,
    LedgerEntryData,
};

fn entry(value: &[u8], block_timestamp_ns: u64) -> LedgerEntryData {
    LedgerEntryData {
        label: "RewardDistr".to_string(),
        key: b"key".to_vec(),
        value: value.to_vec(),
        block_timestamp_ns,
        block_hash: vec![0; 3],
        block_offset: 0,
    }
}

#[test]
fn distribution_time_comes_from_the_value() {
    let encoded: u64 = 9_999_000_000;
    let block: u64 = 1_000_000_000;
    let value = encoded.to_le_bytes();
    assert_eq!(reward_distribution_timestamp(&value, block), encoded as i64);
    assert_eq!(read_le_u64(&value), encoded);
}

#[test]
fn short_value_falls_back_to_block_time() {
    assert_eq!(reward_distribution_timestamp(&[1, 2, 3], 1_000_000_000), 1_000_000_000);
    assert_eq!(reward_distribution_timestamp(&[], 42), 42);
}

#[test]
fn only_first_eight_bytes_count() {
    let mut value = 7u64.to_le_bytes().to_vec();
    value.extend_from_slice(&[0xff, 0xff]);
    assert_eq!(reward_distribution_timestamp(&value, 1), 7);
}

#[test]
fn times_above_i64_wrap_like_a_cast() {
    let value = u64::MAX.to_le_bytes();
    assert_eq!(reward_distribution_timestamp(&value, 0), -1);
    let e = entry(&[], u64::MAX);
    assert_eq!(block_timestamp_i64(&e), -1);
}

#[test]
fn batch_keeps_entry_order() {
    let entries = vec![entry(&5u64.to_le_bytes(), 1), entry(&[9], 2), entry(&6u64.to_le_bytes(), 3)];
    assert_eq!(reward_distribution_timestamps(&entries), vec![5, 2, 6]);
}

#[test]
fn check_in_falls_back_to_bare_signature() {
    let sig = vec![7u8; 64];
    let legacy = check_in_record(None, &sig).unwrap();
    assert_eq!(legacy.memo, "");
    assert_eq!(legacy.nonce_signature, sig);
    assert!(check_in_record(None, &[1u8; 63]).is_none());
    let decoded = CheckInRecord { memo: "hello".to_string(), nonce_signature: vec![1, 2] };
    let r = check_in_record(Some(decoded), &sig).unwrap();
    assert_eq!(r.memo, "hello");
    assert_eq!(r.nonce_signature, vec![1, 2]);
}

#[test]
fn reputation_change_uses_first_delta() {
    assert_eq!(reputation_delta(&[42, -3]), Ok(42));
    assert_eq!(reputation_delta(&[]), Err("Reputation change has no entries".to_string()));
    assert_eq!(
        decode_error_message("reputation change", "unexpected length"),
        "Failed to parse reputation change: unexpected length"
    );
}
