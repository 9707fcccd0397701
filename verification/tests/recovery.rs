use dcc_api_core::recovery::{
    check_recovery_token, consume_recovery_token, issue_recovery_token, no_account_message,
    recovery_token_expiry, recovery_token_is_stale, RecoveryTokenError, RecoveryTokenRow,
    RECOVERY_TOKEN_EXPIRY_HOURS,
};

fn row(expires_at: i64, used_at: Option<i64>) -> RecoveryTokenRow {
    RecoveryTokenRow { account_id: vec![7u8; 16], expires_at, used_at }
}

#[test]
fn issued_token_is_a_v4_uuid_valid_for_a_day() {
    let t = issue_recovery_token(1_000);
    assert_eq!(t.token.len(), 16);
    assert_eq!(t.token[6] >> 4, 4);
    assert_eq!(t.token[8] >> 6, 2);
    assert_eq!(t.created_at, 1_000);
    assert_eq!(t.expires_at, 1_000 + 24 * 3600);
    assert_eq!(RECOVERY_TOKEN_EXPIRY_HOURS, 24);
    assert_eq!(recovery_token_expiry(0), 86_400);
}

#[test]
fn two_issued_tokens_differ() {
    let a = issue_recovery_token(5);
    let b = issue_recovery_token(5);
    assert_ne!(a.token, b.token);
}

#[test]
fn unknown_token_is_invalid() {
    let r = check_recovery_token(None, 10);
    assert_eq!(r, Err(RecoveryTokenError::Invalid));
    assert_eq!(RecoveryTokenError::Invalid.message(), "Invalid recovery token");
    assert!(RecoveryTokenError::Invalid.message().contains("Invalid"));
}

#[test]
fn fresh_token_recovers_until_expiry_inclusive() {
    let t = row(100, None);
    assert_eq!(check_recovery_token(Some(&t), 100), Ok(vec![7u8; 16]));
    assert_eq!(check_recovery_token(Some(&t), 0), Ok(vec![7u8; 16]));
    assert_eq!(check_recovery_token(Some(&t), 101), Err(RecoveryTokenError::Expired));
    assert_eq!(RecoveryTokenError::Expired.message(), "Recovery token has expired");
}

#[test]
fn used_token_is_refused_before_expiry_is_considered() {
    let t = row(100, Some(50));
    assert_eq!(check_recovery_token(Some(&t), 60), Err(RecoveryTokenError::AlreadyUsed));
    assert_eq!(check_recovery_token(Some(&t), 500), Err(RecoveryTokenError::AlreadyUsed));
    assert_eq!(
        RecoveryTokenError::AlreadyUsed.message(),
        "Recovery token has already been used"
    );
}

#[test]
fn token_recovers_only_once() {
    let mut t = row(100, None);
    assert_eq!(consume_recovery_token(&mut t, 40), Ok(vec![7u8; 16]));
    assert_eq!(t.used_at, Some(40));
    assert_eq!(t.expires_at, 100);
    let again = consume_recovery_token(&mut t, 41);
    assert_eq!(again, Err(RecoveryTokenError::AlreadyUsed));
    assert!(again.unwrap_err().message().contains("already been used"));
    assert_eq!(t.used_at, Some(40));
}

#[test]
fn refused_consumption_leaves_token_unchanged() {
    let mut t = row(100, None);
    assert_eq!(consume_recovery_token(&mut t, 200), Err(RecoveryTokenError::Expired));
    assert_eq!(t.used_at, None);
}

#[test]
fn cleanup_removes_only_expired_tokens() {
    assert!(recovery_token_is_stale(99, 100));
    assert!(!recovery_token_is_stale(100, 100));
    assert!(!recovery_token_is_stale(101, 100));
    let stale = row(99, None);
    assert!(check_recovery_token(Some(&stale), 100).is_err());
}

#[test]
fn missing_account_message_names_the_email() {
    let m = no_account_message("nobody@example.com");
    assert_eq!(m, "No account found with email: nobody@example.com");
    assert!(m.contains("No account found"));
}
