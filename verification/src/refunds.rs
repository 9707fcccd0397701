//! The refund approval gate: which refunds are issued at once and which are
//! held for an administrator, and the records kept for them.

use vstd::prelude::*;
use crate::text::{owned, str_eq, signed_decimal, i64_to_string, lemma_decimal_round_trip};

verus! {

/// Materialized refund-request row.
#[derive(Debug, Clone)]
pub struct RefundRequest {
    pub id: i64,
    pub contract_id: Vec<u8>,
    pub requester_pubkey: Vec<u8>,
    pub refund_amount_e9s: i64,
    pub reason: String,
    pub status: String,
    pub user_latest_payment_e9s: i64,
    pub cap_exceeded: bool,
    pub payment_intent_id: String,
    pub currency: String,
    pub stripe_dispute_id: Option<String>,
    pub stripe_refund_id: Option<String>,
    pub idempotency_key: String,
    pub created_at_ns: i64,
    pub reviewed_at_ns: Option<i64>,
    pub reviewed_by: Option<Vec<u8>>,
    pub review_note: Option<String>,
}

/// Outcome of the refund gate.
#[derive(Debug)]
pub enum RefundGateOutcome {
    /// Cap passed; the refund was issued (`stripe_refund_id` is `None` when
    /// no payment processor is configured).
    AutoIssued { refund_amount_e9s: i64, stripe_refund_id: Option<String> },
    /// Cap exceeded; the refund is held for admin approval.
    PendingApproval { refund_amount_e9s: i64, user_latest_payment_e9s: i64 },
    /// Nothing owed (refund not positive).
    NoRefund,
}

/// Borrowed inputs of the refund gate.
pub struct GatedRefundInput<'a> {
    pub contract_id: &'a [u8],
    pub requester_pubkey: &'a [u8],
    pub refund_e9s: i64,
    pub reason: &'a str,
    pub payment_intent_id: &'a str,
    pub currency: &'a str,
    pub stripe_dispute_id: Option<&'a str>,
}

/// Inputs of one audited refund call.
pub struct AuditedRefundInput<'a> {
    pub contract_id: &'a [u8],
    pub idempotency_key: &'a str,
    pub payment_intent_id: &'a str,
    pub refund_cents: i64,
    pub currency: &'a str,
    pub reason: &'a str,
    /// Only set on the dispute-lost path.
    pub stripe_dispute_id: Option<&'a str>,
}

/// Whether a refund of `refund_e9s` is owed at all.
pub fn refund_is_owed(refund_e9s: i64) -> (r: bool)
    ensures
        r == (refund_e9s > 0),
{
    refund_e9s > 0
}

/// The cap a refund is held to: the user's latest successful card payment,
/// or zero when there is none.
pub open spec fn refund_cap(user_latest_payment_e9s: Option<i64>) -> int {
    match user_latest_payment_e9s {
        Some(p) => p as int,
        None => 0,
    }
}

/// The verdict on a refund that is owed.
pub struct RefundCapCheck {
    /// The cap that applied.
    pub user_latest_payment_e9s: i64,
    /// Whether the refund exceeds the cap and must be held.
    pub cap_exceeded: bool,
}

/// Holds `refund_e9s` against the user's latest payment.
pub fn refund_cap_check(refund_e9s: i64, user_latest_payment_e9s: Option<i64>) -> (r: RefundCapCheck)
    ensures
        r.user_latest_payment_e9s == refund_cap(user_latest_payment_e9s),
        r.cap_exceeded == (refund_e9s > refund_cap(user_latest_payment_e9s)),
{
    let cap = match user_latest_payment_e9s {
        Some(p) => p,
        None => 0,
    };
    RefundCapCheck { user_latest_payment_e9s: cap, cap_exceeded: refund_e9s > cap }
}

/// The status a new refund request is written with.
pub open spec fn request_status(cap_exceeded: bool) -> Seq<char> {
    if cap_exceeded { "pending"@ } else { "auto_issued"@ }
}

/// The status of a new refund request: "pending" when held, else
/// "auto_issued".
pub fn refund_request_status(cap_exceeded: bool) -> (r: &'static str)
    ensures
        r@ == request_status(cap_exceeded),
{
    if cap_exceeded { "pending" } else { "auto_issued" }
}

/// A refund amount in cents (e9s divided by 10^7, toward zero).
pub fn refund_cents(refund_e9s: i64) -> (r: i64)
    ensures
        r == (if refund_e9s >= 0 { refund_e9s / 10_000_000 } else { -((-refund_e9s) / 10_000_000) }),
{
    refund_e9s / 10_000_000
}

/// The outcome reported for a refund that is owed: held for approval when
/// the cap is exceeded, else issued with the processor's refund id.
pub fn refund_gate_outcome(
    refund_e9s: i64,
    check: &RefundCapCheck,
    stripe_refund_id: Option<String>,
) -> (r: RefundGateOutcome)
    ensures
        check.cap_exceeded ==> r == (RefundGateOutcome::PendingApproval {
            refund_amount_e9s: refund_e9s,
            user_latest_payment_e9s: check.user_latest_payment_e9s,
        }),
        !check.cap_exceeded ==> r == (RefundGateOutcome::AutoIssued {
            refund_amount_e9s: refund_e9s,
            stripe_refund_id,
        }),
{
    if check.cap_exceeded {
        RefundGateOutcome::PendingApproval {
            refund_amount_e9s: refund_e9s,
            user_latest_payment_e9s: check.user_latest_payment_e9s,
        }
    } else {
        RefundGateOutcome::AutoIssued { refund_amount_e9s: refund_e9s, stripe_refund_id }
    }
}

/// The outcome of the whole gate, as a function of the refund, the user's
/// latest payment and the processor's reply.
pub open spec fn gate_result(
    refund_e9s: i64,
    user_latest_payment_e9s: Option<i64>,
    stripe_refund_id: Option<String>,
) -> RefundGateOutcome {
    if refund_e9s <= 0 {
        RefundGateOutcome::NoRefund
    } else if refund_e9s > refund_cap(user_latest_payment_e9s) {
        RefundGateOutcome::PendingApproval {
            refund_amount_e9s: refund_e9s,
            user_latest_payment_e9s: refund_cap(user_latest_payment_e9s) as i64,
        }
    } else {
        RefundGateOutcome::AutoIssued { refund_amount_e9s: refund_e9s, stripe_refund_id }
    }
}

/// The outcome of the approval rule for a refund, the user's latest payment and,
/// when the refund was issued, the processor's refund id.
pub fn refund_gate_result(
    refund_e9s: i64,
    user_latest_payment_e9s: Option<i64>,
    stripe_refund_id: Option<String>,
) -> (r: RefundGateOutcome)
    ensures
        r == gate_result(refund_e9s, user_latest_payment_e9s, stripe_refund_id),
{
    if !refund_is_owed(refund_e9s) {
        return RefundGateOutcome::NoRefund;
    }
    let check = refund_cap_check(refund_e9s, user_latest_payment_e9s);
    refund_gate_outcome(refund_e9s, &check, stripe_refund_id)
}

/// The approval rule never issues a refund larger than the user's latest payment,
/// issues every owed refund up to it, and holds any positive refund of a
/// user with no payment on record.
pub proof fn lemma_gate_caps_refunds(
    refund_e9s: i64,
    user_latest_payment_e9s: Option<i64>,
    stripe_refund_id: Option<String>,
)
    ensures
        gate_result(refund_e9s, user_latest_payment_e9s, stripe_refund_id) is AutoIssued
            <==> 0 < refund_e9s <= refund_cap(user_latest_payment_e9s),
        gate_result(refund_e9s, user_latest_payment_e9s, stripe_refund_id) is NoRefund <==> refund_e9s <= 0,
        user_latest_payment_e9s is None && refund_e9s > 0
            ==> gate_result(refund_e9s, user_latest_payment_e9s, stripe_refund_id) is PendingApproval,
{
}

/// The approval rule measured against a payment on record: with a latest
/// payment of `p`, a refund is issued at once exactly when it is positive
/// and at most `p`, held (quoting `p`) exactly when it exceeds `p`, and
/// nothing happens when it is not positive. With no payment on record the
/// cap is zero. The issued outcome carries the refund and the processor's
/// refund id unchanged.
pub proof fn lemma_gate_against_payment(refund_e9s: i64, p: i64, stripe_refund_id: Option<String>)
    ensures
        gate_result(refund_e9s, Some(p), stripe_refund_id) is AutoIssued <==> 0 < refund_e9s <= p,
        refund_e9s > 0 && refund_e9s > p ==> gate_result(refund_e9s, Some(p), stripe_refund_id) == (RefundGateOutcome::PendingApproval {
            refund_amount_e9s: refund_e9s,
            user_latest_payment_e9s: p,
        }),
        0 < refund_e9s <= p ==> gate_result(refund_e9s, Some(p), stripe_refund_id) == (RefundGateOutcome::AutoIssued {
            refund_amount_e9s: refund_e9s,
            stripe_refund_id,
        }),
        refund_e9s > 0 ==> gate_result(refund_e9s, None, stripe_refund_id) == (RefundGateOutcome::PendingApproval {
            refund_amount_e9s: refund_e9s,
            user_latest_payment_e9s: 0,
        }),
        refund_e9s <= 0 ==> gate_result(refund_e9s, Some(p), stripe_refund_id) is NoRefund
            && gate_result(refund_e9s, None, stripe_refund_id) is NoRefund,
{
}

/// The statuses written for refund requests: a held request is "pending",
/// one issued at once is "auto_issued"; an approved request becomes
/// "approved" and a declined one "declined".
pub proof fn lemma_request_statuses()
    ensures
        request_status(true) == "pending"@,
        request_status(false) == "auto_issued"@,
        review_status(true) == "approved"@,
        review_status(false) == "declined"@,
{
}

/// Idempotency keys: a lost dispute with a dispute id is keyed by that id
/// alone, so every request about the same dispute gets the same key; any
/// other request is keyed by its reason and its time, so two requests with
/// the same reason made at different times get different keys.
pub proof fn lemma_idempotency_keys(reason: Seq<char>, dispute: Option<Seq<char>>, n1: i64, n2: i64)
    ensures
        reason == "dispute_lost"@ && dispute is Some ==> key_basis(reason, dispute, n1) == key_basis(reason, dispute, n2)
            && key_basis(reason, dispute, n1) == (true, "dispute:"@ + dispute.unwrap()),
        !(reason == "dispute_lost"@ && dispute is Some) && n1 != n2 ==> key_basis(reason, dispute, n1) != key_basis(reason, dispute, n2),
        !(reason == "dispute_lost"@ && dispute is Some) ==> !key_basis(reason, dispute, n1).0
            && key_basis(reason, dispute, n1).1.subrange(0, reason.len() as int + 1) == reason + ":"@,
{
    if !(reason == "dispute_lost"@ && dispute is Some) {
        reveal_strlit(":");
        let p = reason + ":"@;
        assert(p.len() == reason.len() + 1);
        let t1 = p + signed_decimal(n1 as int);
        let t2 = p + signed_decimal(n2 as int);
        assert(t1.subrange(0, p.len() as int) =~= p);
        if t1 == t2 {
            assert(t1.subrange(p.len() as int, t1.len() as int) =~= signed_decimal(n1 as int));
            assert(t2.subrange(p.len() as int, t2.len() as int) =~= signed_decimal(n2 as int));
            lemma_decimal_round_trip(n1);
            lemma_decimal_round_trip(n2);
        }
    }
}

/// How the idempotency key of a refund request is formed.
pub enum IdempotencyKeyBasis {
    /// A lost dispute: the key is "dispute:{dispute id}".
    Dispute(String),
    /// Otherwise: the token "{reason}:{now_ns}", which is combined with the
    /// contract id into the key.
    Token(String),
}

/// The basis of a refund request's idempotency key.
pub open spec fn key_basis(reason: Seq<char>, dispute: Option<Seq<char>>, now_ns: i64) -> (bool, Seq<char>) {
    if reason == "dispute_lost"@ && dispute is Some {
        (true, "dispute:"@ + dispute.unwrap())
    } else {
        (false, reason + ":"@ + signed_decimal(now_ns as int))
    }
}

/// The basis of the idempotency key: the dispute id for a lost dispute that
/// has one, else a token of the reason and the time.
pub fn idempotency_key_basis(reason: &str, stripe_dispute_id: Option<&str>, now_ns: i64) -> (r: IdempotencyKeyBasis)
    ensures
        match r {
            IdempotencyKeyBasis::Dispute(k) => {
                let d = match stripe_dispute_id { Some(x) => Some(x@), None => None };
                key_basis(reason@, d, now_ns) == (true, k@)
            },
            IdempotencyKeyBasis::Token(t) => {
                let d = match stripe_dispute_id { Some(x) => Some(x@), None => None };
                key_basis(reason@, d, now_ns) == (false, t@)
            },
        },
{
    if str_eq(reason, "dispute_lost") {
        if let Some(d) = stripe_dispute_id {
            let mut k = owned("dispute:");
            k.append(d);
            return IdempotencyKeyBasis::Dispute(k);
        }
    }
    let mut t = owned(reason);
    t.append(":");
    let n = i64_to_string(now_ns);
    t.append(n.as_str());
    IdempotencyKeyBasis::Token(t)
}

/// The status a reviewed refund request gets.
pub open spec fn review_status(approve: bool) -> Seq<char> {
    if approve { "approved"@ } else { "declined"@ }
}

/// The status written when an administrator approves or declines a request.
pub fn reviewed_request_status(approve: bool) -> (r: &'static str)
    ensures
        r@ == review_status(approve),
{
    if approve { "approved" } else { "declined" }
}

/// The error when a review finds no pending request with the id.
pub open spec fn not_pending_text(request_id: i64) -> Seq<char> {
    "Refund request "@ + signed_decimal(request_id as int) + " not found or not in 'pending' status"@
}

/// The error for a review of a request that does not exist or was already
/// reviewed.
pub fn not_pending_message(request_id: i64) -> (r: String)
    ensures
        r@ == not_pending_text(request_id),
{
    let mut m = owned("Refund request ");
    let n = i64_to_string(request_id);
    m.append(n.as_str());
    m.append(" not found or not in 'pending' status");
    m
}

/// The lower-case hex digit of a value below sixteen.
pub open spec fn hex_digit_lower(d: u32) -> char {
    if d < 10 { ((d + 0x30) as u32) as char } else { ((d - 10 + 0x61) as u32) as char }
}

/// How serde_json writes one character inside a JSON string: the quote and
/// the backslash escaped by a backslash; backspace, tab, line feed, form
/// feed and carriage return as `\b \t \n \f \r`; every other character
/// below U+0020 as `\u00` and two lower-case hex digits; anything else as
/// itself.
pub open spec fn json_escape(c: char) -> Seq<char> {
    let n = c as u32;
    if c == '"' { seq!['\\', '"'] }
    else if c == '\\' { seq!['\\', '\\'] }
    else if n == 0x08 { seq!['\\', 'b'] }
    else if n == 0x09 { seq!['\\', 't'] }
    else if n == 0x0A { seq!['\\', 'n'] }
    else if n == 0x0C { seq!['\\', 'f'] }
    else if n == 0x0D { seq!['\\', 'r'] }
    else if n < 0x20 { seq!['\\', 'u', '0', '0', hex_digit_lower(n / 16), hex_digit_lower(n % 16)] }
    else { seq![c] }
}

/// The escaped characters of a text, in order.
pub open spec fn json_escaped(s: Seq<char>) -> Seq<char>
    decreases s.len(),
{
    if s.len() == 0 { Seq::empty() } else { json_escaped(s.drop_last()) + json_escape(s.last()) }
}

/// The JSON string literal for a text, as `serde_json::to_string` writes a
/// `str`: the escaped text between double quotes.
pub open spec fn json_quoted(s: Seq<char>) -> Seq<char> {
    seq!['"'] + json_escaped(s) + seq!['"']
}

/// `serde_json::to_string` on a string slice: the text quoted and escaped
/// as `json_quoted` states (the crate's `format_escaped_str`). Serializing a
/// `str` into a `String` has no failure path in the crate, so the empty
/// default on the error arm is never taken.
#[verifier::external_body]
fn json_string(s: &str) -> (r: String)
    ensures
        r@ == json_quoted(s@),
{
    serde_json::to_string(s).unwrap_or_default()
}

/// The JSON object recorded as the request of an audited refund: the
/// payment intent, the amount in cents, the currency, the reason and, on
/// the dispute path, the dispute id.
pub open spec fn refund_payload_text(
    payment_intent_id: Seq<char>,
    refund_cents: i64,
    currency: Seq<char>,
    reason: Seq<char>,
    stripe_dispute_id: Option<Seq<char>>,
) -> Seq<char> {
    "{\"payment_intent_id\":"@ + json_quoted(payment_intent_id) + ",\"amount_cents\":"@
        + signed_decimal(refund_cents as int) + ",\"currency\":"@ + json_quoted(currency) + ",\"reason\":"@
        + json_quoted(reason) + match stripe_dispute_id {
            Some(d) => ",\"stripe_dispute_id\":"@ + json_quoted(d),
            None => Seq::empty(),
        } + "}"@
}

/// The JSON text of an audited refund's request record.
pub fn refund_request_payload(input: &AuditedRefundInput) -> (r: String)
    ensures
        r@ == refund_payload_text(
            input.payment_intent_id@,
            input.refund_cents,
            input.currency@,
            input.reason@,
            match input.stripe_dispute_id { Some(d) => Some(d@), None => None },
        ),
{
    let mut m = owned("{\"payment_intent_id\":");
    let pi = json_string(input.payment_intent_id);
    m.append(pi.as_str());
    m.append(",\"amount_cents\":");
    let cents = i64_to_string(input.refund_cents);
    m.append(cents.as_str());
    m.append(",\"currency\":");
    let cur = json_string(input.currency);
    m.append(cur.as_str());
    m.append(",\"reason\":");
    let rs = json_string(input.reason);
    m.append(rs.as_str());
    let ghost before_dispute = m@;
    if let Some(d) = input.stripe_dispute_id {
        m.append(",\"stripe_dispute_id\":");
        let dq = json_string(d);
        m.append(dq.as_str());
    }
    m.append("}");
    let ghost d = match input.stripe_dispute_id { Some(d) => Some(d@), None => None };
    assert(m@ =~= refund_payload_text(input.payment_intent_id@, input.refund_cents, input.currency@, input.reason@, d));
    m
}

/// The JSON text recorded as the processor's reply to a successful refund.
pub fn refund_response_payload(refund_id: &str) -> (r: String)
    ensures
        r@ == "{\"id\":"@ + json_quoted(refund_id@) + "}"@,
{
    let mut m = owned("{\"id\":");
    let q = json_string(refund_id);
    m.append(q.as_str());
    m.append("}");
    assert(m@ =~= "{\"id\":"@ + json_quoted(refund_id@) + "}"@);
    m
}

} // verus!
