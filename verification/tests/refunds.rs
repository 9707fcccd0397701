use dcc_api_core::refunds::{
    idempotency_key_basis, not_pending_message, refund_cap_check, refund_cents, refund_gate_result,
    refund_is_owed, refund_request_payload, refund_request_status, refund_response_payload,
    reviewed_request_status, AuditedRefundInput, IdempotencyKeyBasis, RefundGateOutcome,
};

#[test]
fn nothing_owed_for_non_positive_refunds() {
    assert!(!refund_is_owed(0));
    assert!(!refund_is_owed(-5));
    assert!(refund_is_owed(1));
    assert!(matches!(refund_gate_result(0, Some(10), None), RefundGateOutcome::NoRefund));
    assert!(matches!(refund_gate_result(-1, None, None), RefundGateOutcome::NoRefund));
}

#[test]
fn refund_within_latest_payment_is_issued() {
    match refund_gate_result(5_000_000_000, Some(5_000_000_000), Some("re_1".to_string())) {
        RefundGateOutcome::AutoIssued { refund_amount_e9s, stripe_refund_id } => {
            assert_eq!(refund_amount_e9s, 5_000_000_000);
            assert_eq!(stripe_refund_id.as_deref(), Some("re_1"));
        }
        _ => panic!("expected an issued refund"),
    }
}

#[test]
fn refund_above_latest_payment_is_held() {
    match refund_gate_result(6_000_000_000, Some(5_000_000_000), Some("re_1".to_string())) {
        RefundGateOutcome::PendingApproval { refund_amount_e9s, user_latest_payment_e9s } => {
            assert_eq!(refund_amount_e9s, 6_000_000_000);
            assert_eq!(user_latest_payment_e9s, 5_000_000_000);
        }
        _ => panic!("expected a held refund"),
    }
}

#[test]
fn refund_without_any_payment_is_held() {
    match refund_gate_result(1, None, None) {
        RefundGateOutcome::PendingApproval { user_latest_payment_e9s, .. } => {
            assert_eq!(user_latest_payment_e9s, 0)
        }
        _ => panic!("expected a held refund"),
    }
    let check = refund_cap_check(1, None);
    assert!(check.cap_exceeded);
    assert_eq!(check.user_latest_payment_e9s, 0);
}

#[test]
fn request_status_follows_the_cap() {
    assert_eq!(refund_request_status(true), "pending");
    assert_eq!(refund_request_status(false), "auto_issued");
    assert_eq!(reviewed_request_status(true), "approved");
    assert_eq!(reviewed_request_status(false), "declined");
}

#[test]
fn cents_truncate_toward_zero() {
    assert_eq!(refund_cents(1_234_567_890), 123);
    assert_eq!(refund_cents(9_999_999), 0);
    assert_eq!(refund_cents(-25_000_000), -2);
}

#[test]
fn idempotency_key_for_lost_dispute_uses_dispute_id() {
    match idempotency_key_basis("dispute_lost", Some("dp_9"), 77) {
        IdempotencyKeyBasis::Dispute(k) => assert_eq!(k, "dispute:dp_9"),
        _ => panic!("expected a dispute key"),
    }
    match idempotency_key_basis("dispute_lost", None, 77) {
        IdempotencyKeyBasis::Token(t) => assert_eq!(t, "dispute_lost:77"),
        _ => panic!("expected a token"),
    }
    match idempotency_key_basis("cancel", Some("dp_9"), -3) {
        IdempotencyKeyBasis::Token(t) => assert_eq!(t, "cancel:-3"),
        _ => panic!("expected a token"),
    }
}

#[test]
fn review_conflict_message() {
    assert_eq!(not_pending_message(12), "Refund request 12 not found or not in 'pending' status");
}

#[test]
fn audited_refund_payloads_are_json() {
    let contract = [1u8, 2, 3];
    let input = AuditedRefundInput {
        contract_id: &contract,
        idempotency_key: "k",
        payment_intent_id: "pi_\"1",
        refund_cents: 250,
        currency: "usd",
        reason: "cancel",
        stripe_dispute_id: None,
    };
    let text = refund_request_payload(&input);
    assert_eq!(text, r#"{"payment_intent_id":"pi_\"1","amount_cents":250,"currency":"usd","reason":"cancel"}"#);
    let v: serde_json::Value = serde_json::from_str(&text).unwrap();
    assert_eq!(v["payment_intent_id"], "pi_\"1");
    assert_eq!(v["amount_cents"], 250);
    let with_dispute = AuditedRefundInput { stripe_dispute_id: Some("dp_1"), ..input };
    let text = refund_request_payload(&with_dispute);
    assert!(text.ends_with(r#","stripe_dispute_id":"dp_1"}"#));
    assert_eq!(refund_response_payload("re_9"), r#"{"id":"re_9"}"#);
}

#[test]
fn payload_strings_are_escaped() {
    assert_eq!(
        refund_response_payload("a\"b\\c\n\t\u{1}\u{7f}é"),
        "{\"id\":\"a\\\"b\\\\c\\n\\t\\u0001\u{7f}é\"}"
    );
}
