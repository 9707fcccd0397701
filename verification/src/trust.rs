//! Provider trust scoring: the 0-100 trust score, the critical flags behind
//! it, and the integer-valued classifications of a provider's record.

use vstd::prelude::*;
use crate::text::{owned, i64_to_string, signed_decimal, views};

verus! {

/// Nanoseconds in one day.
pub const NS_PER_DAY: i64 = 86_400_000_000_000;

/// Integer division rounding toward zero, as Rust's `/` on `i64` does.
pub open spec fn div_trunc(a: int, b: int) -> int
    recommends
        b > 0,
{
    if a >= 0 { a / b } else { -((-a) / b) }
}

/// One exceeded threshold of a provider's record.
#[derive(PartialEq, Eq, Structural, Debug)]
pub enum TrustFlag {
    /// Early cancellation rate above 20%.
    HighEarlyCancellation,
    /// Provisioning failure rate above 15%.
    ProvisioningFailures,
    /// Rejection rate above 30%.
    HighRejection,
    /// Average response time above 48 hours.
    SlowResponse,
    /// More than 50 reputation points lost in 90 days.
    NegativeReputation { points: i64 },
    /// Active contracts but no recorded platform activity.
    GhostRiskNoActivity,
    /// Active contracts and more than 7 days without activity.
    GhostRisk { days: i64 },
    /// More than $5000 in contracts stuck for over 72 hours.
    StuckContracts { dollars: i64 },
    /// No public contact method.
    NoContactInfo,
}

/// The inputs of the trust score. The threshold tests on percentages and
/// hours (`rate > 20.0` and the like) are made by the caller on its
/// floating-point metrics and handed over as booleans.
pub struct TrustSignals {
    /// Early cancellation rate above 20%.
    pub early_cancellation_rate_high: bool,
    /// Provisioning failure rate above 15%.
    pub provisioning_failure_rate_high: bool,
    /// Rejection rate above 30%.
    pub rejection_rate_high: bool,
    /// Average response time above 48 hours.
    pub slow_response: bool,
    /// Average response time below 4 hours.
    pub fast_response: bool,
    /// Sum of negative reputation changes in the last 90 days.
    pub negative_reputation_90d: i64,
    /// Total value (e9s) of contracts stuck for more than 72 hours.
    pub stuck_contracts_value_e9s: i64,
    /// Days since last activity, or -1 when no activity was ever recorded.
    pub days_since_last_checkin: i64,
    /// Whether the provider has active contracts.
    pub has_active_contracts: bool,
    /// Number of users who rented more than once.
    pub repeat_customer_count: i64,
    /// Completion rate above 95%.
    pub high_completion_rate: bool,
    /// Whether the provider has at least one contact method.
    pub has_contact_info: bool,
}

/// Stuck contract value in whole dollars, truncated as Rust does.
pub open spec fn stuck_dollars(s: TrustSignals) -> int {
    div_trunc(s.stuck_contracts_value_e9s as int, 1_000_000_000)
}

pub open spec fn negative_reputation_hit(s: TrustSignals) -> bool {
    s.negative_reputation_90d < -50
}

pub open spec fn ghost_risk(s: TrustSignals) -> bool {
    s.has_active_contracts && (s.days_since_last_checkin > 7 || s.days_since_last_checkin == -1)
}

pub open spec fn stuck_hit(s: TrustSignals) -> bool {
    stuck_dollars(s) > 5000
}

/// `w` when `c` holds, else nothing.
#[verifier::opaque]
pub open spec fn weight_if(c: bool, w: int) -> int {
    if c { w } else { 0 }
}

/// Sum of the penalties that `s` incurs.
#[verifier::opaque]
pub open spec fn penalty_total(s: TrustSignals) -> int {
    weight_if(s.early_cancellation_rate_high, 25)
    + weight_if(s.provisioning_failure_rate_high, 20)
    + weight_if(s.rejection_rate_high, 15)
    + weight_if(s.slow_response, 15)
    + weight_if(negative_reputation_hit(s), 15)
    + weight_if(ghost_risk(s), 10)
    + weight_if(stuck_hit(s), 10)
    + weight_if(!s.has_contact_info, 10)
}

/// Sum of the bonuses that `s` earns.
#[verifier::opaque]
pub open spec fn bonus_total(s: TrustSignals) -> int {
    weight_if(s.repeat_customer_count > 10, 5)
    + weight_if(s.high_completion_rate, 5)
    + weight_if(s.fast_response, 5)
}

/// `x` clamped to `[lo, hi]`.
pub open spec fn clamp(x: int, lo: int, hi: int) -> int {
    if x < lo { lo } else if x > hi { hi } else { x }
}

/// The trust score: 100, minus penalties, plus bonuses, clamped to 0..=100.
pub open spec fn trust_score(s: TrustSignals) -> int {
    clamp(100 - penalty_total(s) + bonus_total(s), 0, 100)
}

pub open spec fn flag_if(c: bool, f: TrustFlag) -> Seq<TrustFlag> {
    if c { seq![f] } else { Seq::empty() }
}

/// The flags raised by `s`, in the order they are checked.
pub open spec fn trust_flags(s: TrustSignals) -> Seq<TrustFlag> {
    flag_if(s.early_cancellation_rate_high, TrustFlag::HighEarlyCancellation)
    + flag_if(s.provisioning_failure_rate_high, TrustFlag::ProvisioningFailures)
    + flag_if(s.rejection_rate_high, TrustFlag::HighRejection)
    + flag_if(s.slow_response, TrustFlag::SlowResponse)
    + flag_if(negative_reputation_hit(s), TrustFlag::NegativeReputation { points: s.negative_reputation_90d })
    + flag_if(ghost_risk(s), if s.days_since_last_checkin == -1 {
        TrustFlag::GhostRiskNoActivity
    } else {
        TrustFlag::GhostRisk { days: s.days_since_last_checkin }
    })
    + flag_if(stuck_hit(s), TrustFlag::StuckContracts { dollars: stuck_dollars(s) as i64 })
    + flag_if(!s.has_contact_info, TrustFlag::NoContactInfo)
}

fn weight(c: bool, w: i64) -> (r: i64)
    requires
        w >= 0,
    ensures
        r == weight_if(c, w as int),
        0 <= r <= w,
{
    proof {
        reveal(weight_if);
    }
    if c { w } else { 0 }
}

fn push_flag(flags: &mut Vec<TrustFlag>, c: bool, f: TrustFlag)
    ensures
        final(flags)@ == old(flags)@ + flag_if(c, f),
{
    if c {
        flags.push(f);
        assert(final(flags)@ =~= old(flags)@ + flag_if(c, f));
    } else {
        assert(final(flags)@ =~= old(flags)@ + flag_if(c, f));
    }
}

/// Stuck contract value in whole dollars (e9s divided by 10^9, toward zero).
pub fn stuck_contract_dollars(value_e9s: i64) -> (r: i64)
    ensures
        r == div_trunc(value_e9s as int, 1_000_000_000),
{
    value_e9s / 1_000_000_000
}

fn ghost_risk_exec(signals: &TrustSignals) -> (r: bool)
    ensures
        r == ghost_risk(*signals),
{
    let days = signals.days_since_last_checkin;
    signals.has_active_contracts && (days > 7 || days == -1)
}

fn penalty_of(signals: &TrustSignals) -> (r: i64)
    ensures
        r == penalty_total(*signals),
        0 <= r <= 120,
{
    let dollars = stuck_contract_dollars(signals.stuck_contracts_value_e9s);
    let ghost_hit = ghost_risk_exec(signals);
    let w1 = weight(signals.early_cancellation_rate_high, 25);
    let w2 = weight(signals.provisioning_failure_rate_high, 20);
    let w3 = weight(signals.rejection_rate_high, 15);
    let w4 = weight(signals.slow_response, 15);
    let w5 = weight(signals.negative_reputation_90d < -50, 15);
    let w6 = weight(ghost_hit, 10);
    let w7 = weight(dollars > 5000, 10);
    let w8 = weight(!signals.has_contact_info, 10);
    proof {
        reveal(penalty_total);
    }
    w1 + w2 + w3 + w4 + w5 + w6 + w7 + w8
}

fn bonus_of(signals: &TrustSignals) -> (r: i64)
    ensures
        r == bonus_total(*signals),
        0 <= r <= 15,
{
    let b1 = weight(signals.repeat_customer_count > 10, 5);
    let b2 = weight(signals.high_completion_rate, 5);
    let b3 = weight(signals.fast_response, 5);
    proof {
        reveal(bonus_total);
    }
    b1 + b2 + b3
}

/// The trust score of `signals`.
pub fn trust_score_of(signals: &TrustSignals) -> (r: i64)
    ensures
        r == trust_score(*signals),
        0 <= r <= 100,
{
    let penalty = penalty_of(signals);
    let bonus = bonus_of(signals);
    let raw: i64 = 100 - penalty + bonus;
    if raw < 0 { 0 } else if raw > 100 { 100 } else { raw }
}

/// The critical flags of `signals`, in the order they are checked.
pub fn trust_flags_of(signals: &TrustSignals) -> (r: Vec<TrustFlag>)
    ensures
        r@ == trust_flags(*signals),
{
    let ghost s = *signals;
    let dollars = stuck_contract_dollars(signals.stuck_contracts_value_e9s);
    let ghost_hit = ghost_risk_exec(signals);
    let mut flags: Vec<TrustFlag> = Vec::new();
    push_flag(&mut flags, signals.early_cancellation_rate_high, TrustFlag::HighEarlyCancellation);
    push_flag(&mut flags, signals.provisioning_failure_rate_high, TrustFlag::ProvisioningFailures);
    push_flag(&mut flags, signals.rejection_rate_high, TrustFlag::HighRejection);
    push_flag(&mut flags, signals.slow_response, TrustFlag::SlowResponse);
    push_flag(
        &mut flags,
        signals.negative_reputation_90d < -50,
        TrustFlag::NegativeReputation { points: signals.negative_reputation_90d },
    );
    let ghost_flag = if signals.days_since_last_checkin == -1 {
        TrustFlag::GhostRiskNoActivity
    } else {
        TrustFlag::GhostRisk { days: signals.days_since_last_checkin }
    };
    push_flag(&mut flags, ghost_hit, ghost_flag);
    push_flag(&mut flags, dollars > 5000, TrustFlag::StuckContracts { dollars });
    push_flag(&mut flags, !signals.has_contact_info, TrustFlag::NoContactInfo);
    flags
}

/// The penalty that one flag stands for.
pub open spec fn flag_weight(f: TrustFlag) -> int {
    match f {
        TrustFlag::HighEarlyCancellation => 25,
        TrustFlag::ProvisioningFailures => 20,
        TrustFlag::HighRejection => 15,
        TrustFlag::SlowResponse => 15,
        TrustFlag::NegativeReputation { .. } => 15,
        TrustFlag::GhostRiskNoActivity => 10,
        TrustFlag::GhostRisk { .. } => 10,
        TrustFlag::StuckContracts { .. } => 10,
        TrustFlag::NoContactInfo => 10,
    }
}

/// The total penalty of a list of flags.
pub open spec fn flags_weight(fs: Seq<TrustFlag>) -> int
    decreases fs.len(),
{
    if fs.len() == 0 { 0 } else { flags_weight(fs.drop_last()) + flag_weight(fs.last()) }
}

proof fn lemma_flags_weight_concat(a: Seq<TrustFlag>, b: Seq<TrustFlag>)
    ensures
        flags_weight(a + b) == flags_weight(a) + flags_weight(b),
    decreases b.len(),
{
    if b.len() == 0 {
        assert(a + b =~= a);
    } else {
        lemma_flags_weight_concat(a, b.drop_last());
        assert((a + b).drop_last() =~= a + b.drop_last());
    }
}

proof fn lemma_flag_if_weight(c: bool, f: TrustFlag)
    ensures
        flags_weight(flag_if(c, f)) == weight_if(c, flag_weight(f)),
{
    reveal(weight_if);
    assert(flags_weight(Seq::<TrustFlag>::empty()) == 0);
    if c {
        assert(seq![f].drop_last() =~= Seq::<TrustFlag>::empty());
        assert(seq![f].last() == f);
        assert(flags_weight(seq![f]) == flag_weight(f));
    }
}

/// Every penalty comes with a flag: the penalty a provider incurs is the
/// sum of the weights of the flags raised against it.
pub proof fn lemma_penalty_is_flag_weight(s: TrustSignals)
    ensures
        penalty_total(s) == flags_weight(trust_flags(s)),
{
    reveal(penalty_total);
    let f1 = flag_if(s.early_cancellation_rate_high, TrustFlag::HighEarlyCancellation);
    let f2 = flag_if(s.provisioning_failure_rate_high, TrustFlag::ProvisioningFailures);
    let f3 = flag_if(s.rejection_rate_high, TrustFlag::HighRejection);
    let f4 = flag_if(s.slow_response, TrustFlag::SlowResponse);
    let f5 = flag_if(negative_reputation_hit(s), TrustFlag::NegativeReputation { points: s.negative_reputation_90d });
    let gf = if s.days_since_last_checkin == -1 {
        TrustFlag::GhostRiskNoActivity
    } else {
        TrustFlag::GhostRisk { days: s.days_since_last_checkin }
    };
    let f6 = flag_if(ghost_risk(s), gf);
    let f7 = flag_if(stuck_hit(s), TrustFlag::StuckContracts { dollars: stuck_dollars(s) as i64 });
    let f8 = flag_if(!s.has_contact_info, TrustFlag::NoContactInfo);
    lemma_flag_if_weight(s.early_cancellation_rate_high, TrustFlag::HighEarlyCancellation);
    lemma_flag_if_weight(s.provisioning_failure_rate_high, TrustFlag::ProvisioningFailures);
    lemma_flag_if_weight(s.rejection_rate_high, TrustFlag::HighRejection);
    lemma_flag_if_weight(s.slow_response, TrustFlag::SlowResponse);
    lemma_flag_if_weight(negative_reputation_hit(s), TrustFlag::NegativeReputation { points: s.negative_reputation_90d });
    lemma_flag_if_weight(ghost_risk(s), gf);
    lemma_flag_if_weight(stuck_hit(s), TrustFlag::StuckContracts { dollars: stuck_dollars(s) as i64 });
    lemma_flag_if_weight(!s.has_contact_info, TrustFlag::NoContactInfo);
    lemma_flags_weight_concat(f1, f2);
    lemma_flags_weight_concat(f1 + f2, f3);
    lemma_flags_weight_concat(f1 + f2 + f3, f4);
    lemma_flags_weight_concat(f1 + f2 + f3 + f4, f5);
    lemma_flags_weight_concat(f1 + f2 + f3 + f4 + f5, f6);
    lemma_flags_weight_concat(f1 + f2 + f3 + f4 + f5 + f6, f7);
    lemma_flags_weight_concat(f1 + f2 + f3 + f4 + f5 + f6 + f7, f8);
}

/// More red flags and fewer bonuses never raise the trust score: if every
/// penalty that `a` incurs is also incurred by `b`, and every bonus `b`
/// earns is also earned by `a`, then `b` scores no higher than `a`.
pub proof fn lemma_score_monotone(a: TrustSignals, b: TrustSignals)
    requires
        a.early_cancellation_rate_high ==> b.early_cancellation_rate_high,
        a.provisioning_failure_rate_high ==> b.provisioning_failure_rate_high,
        a.rejection_rate_high ==> b.rejection_rate_high,
        a.slow_response ==> b.slow_response,
        negative_reputation_hit(a) ==> negative_reputation_hit(b),
        ghost_risk(a) ==> ghost_risk(b),
        stuck_hit(a) ==> stuck_hit(b),
        !a.has_contact_info ==> !b.has_contact_info,
        b.repeat_customer_count > 10 ==> a.repeat_customer_count > 10,
        b.high_completion_rate ==> a.high_completion_rate,
        b.fast_response ==> a.fast_response,
    ensures
        trust_score(b) <= trust_score(a),
{
    reveal(penalty_total);
    reveal(bonus_total);
    reveal(weight_if);
}

/// A record with no flag scores at least 100 before clamping, so its score
/// is exactly 100.
pub proof fn lemma_unflagged_scores_full(s: TrustSignals)
    requires
        trust_flags(s).len() == 0,
    ensures
        trust_score(s) == 100,
{
    lemma_penalty_is_flag_weight(s);
    reveal(bonus_total);
    reveal(weight_if);
    assert(penalty_total(s) == 0);
}

/// The figures quoted by the flags about rates and response time, each the
/// caller's rendering of its floating-point metric rounded to a whole number.
pub struct RateFigures {
    /// Early cancellation rate, in percent.
    pub early_cancellation_pct: String,
    /// Provisioning failure rate, in percent.
    pub provisioning_failure_pct: String,
    /// Rejection rate, in percent.
    pub rejection_pct: String,
    /// Average response time, in hours.
    pub response_hours: String,
}

/// The message of a flag.
pub open spec fn flag_text(f: TrustFlag, fig: RateFigures) -> Seq<char> {
    match f {
        TrustFlag::HighEarlyCancellation =>
            "High early cancellation rate: "@ + fig.early_cancellation_pct@ + "% of contracts cancelled quickly"@,
        TrustFlag::ProvisioningFailures =>
            "Provisioning failures: "@ + fig.provisioning_failure_pct@ + "% of accepted contracts never delivered"@,
        TrustFlag::HighRejection => "High rejection rate: "@ + fig.rejection_pct@ + "% of requests rejected"@,
        TrustFlag::SlowResponse => "Slow response time: average "@ + fig.response_hours@ + " hours to respond"@,
        TrustFlag::NegativeReputation { points } =>
            "Negative reputation trend: "@ + signed_decimal(points as int) + " points lost in 90 days"@,
        TrustFlag::GhostRiskNoActivity => "Ghost risk: no platform activity recorded but has active contracts"@,
        TrustFlag::GhostRisk { days } =>
            "Ghost risk: "@ + signed_decimal(days as int) + " days since last activity with active contracts"@,
        TrustFlag::StuckContracts { dollars } =>
            "Stuck contracts: ~$"@ + signed_decimal(dollars as int) + " in contracts without progress for >72h"@,
        TrustFlag::NoContactInfo => "No contact info: provider has no public contact methods"@,
    }
}

/// The messages of a list of flags, in order.
pub open spec fn flag_texts(fs: Seq<TrustFlag>, fig: RateFigures) -> Seq<Seq<char>> {
    fs.map_values(|f: TrustFlag| flag_text(f, fig))
}

fn wrap_number(prefix: &str, n: i64, suffix: &str) -> (r: String)
    ensures
        r@ == prefix@ + signed_decimal(n as int) + suffix@,
{
    let mut s = owned(prefix);
    let d = i64_to_string(n);
    s.append(d.as_str());
    s.append(suffix);
    s
}

fn wrap_text(prefix: &str, t: &String, suffix: &str) -> (r: String)
    ensures
        r@ == prefix@ + t@ + suffix@,
{
    let mut s = owned(prefix);
    s.append(t.as_str());
    s.append(suffix);
    s
}

/// The message of a flag.
pub fn trust_flag_message(flag: &TrustFlag, figures: &RateFigures) -> (r: String)
    ensures
        r@ == flag_text(*flag, *figures),
{
    match flag {
        TrustFlag::HighEarlyCancellation => wrap_text(
            "High early cancellation rate: ", &figures.early_cancellation_pct, "% of contracts cancelled quickly"),
        TrustFlag::ProvisioningFailures => wrap_text(
            "Provisioning failures: ", &figures.provisioning_failure_pct, "% of accepted contracts never delivered"),
        TrustFlag::HighRejection => wrap_text("High rejection rate: ", &figures.rejection_pct, "% of requests rejected"),
        TrustFlag::SlowResponse => wrap_text("Slow response time: average ", &figures.response_hours, " hours to respond"),
        TrustFlag::NegativeReputation { points } =>
            wrap_number("Negative reputation trend: ", *points, " points lost in 90 days"),
        TrustFlag::GhostRiskNoActivity => owned("Ghost risk: no platform activity recorded but has active contracts"),
        TrustFlag::GhostRisk { days } =>
            wrap_number("Ghost risk: ", *days, " days since last activity with active contracts"),
        TrustFlag::StuckContracts { dollars } =>
            wrap_number("Stuck contracts: ~$", *dollars, " in contracts without progress for >72h"),
        TrustFlag::NoContactInfo => owned("No contact info: provider has no public contact methods"),
    }
}

/// The messages of a list of flags, in order.
pub fn trust_flag_messages(flags: &[TrustFlag], figures: &RateFigures) -> (r: Vec<String>)
    ensures
        views(r@) == flag_texts(flags@, *figures),
{
    let mut out: Vec<String> = Vec::new();
    let mut i: usize = 0;
    while i < flags.len()
        invariant
            i <= flags@.len(),
            views(out@) == flag_texts(flags@.take(i as int), *figures),
        decreases flags@.len() - i,
    {
        let m = trust_flag_message(&flags[i], figures);
        let ghost before = out@;
        out.push(m);
        assert(flags@.take(i + 1) =~= flags@.take(i as int).push(flags@[i as int]));
        assert(views(out@) =~= views(before).push(m@));
        assert(flag_texts(flags@.take(i + 1), *figures) =~= flag_texts(flags@.take(i as int), *figures).push(
            flag_text(flags@[i as int], *figures),
        ));
        assert(views(out@) =~= flag_texts(flags@.take(i + 1), *figures));
        i = i + 1;
    }
    assert(flags@.take(flags@.len() as int) =~= flags@);
    out
}

/// Calculate trust score (0-100) and identify critical flags: the score,
/// whether any flag was raised, and the flags' messages in the order they
/// are checked.
pub fn calculate_trust_score_and_flags(signals: &TrustSignals, figures: &RateFigures) -> (r: (i64, bool, Vec<String>))
    ensures
        r.0 == trust_score(*signals),
        0 <= r.0 <= 100,
        views(r.2@) == flag_texts(trust_flags(*signals), *figures),
        r.1 == (trust_flags(*signals).len() > 0),
{
    let score = trust_score_of(signals);
    let flags = trust_flags_of(signals);
    let has_critical = flags.len() > 0;
    let messages = trust_flag_messages(flags.as_slice(), figures);
    (score, has_critical, messages)
}

/// Provider tenure classification by completed contracts.
#[derive(PartialEq, Eq, Structural, Clone, Copy, Debug)]
pub enum ProviderTenure {
    /// Fewer than 5 completed contracts.
    New,
    /// 5 to 20 completed contracts.
    Growing,
    /// More than 20 completed contracts.
    Established,
}

/// The tenure of a provider with `completed` completed contracts.
pub open spec fn tenure_of(completed: int) -> ProviderTenure {
    if completed < 5 {
        ProviderTenure::New
    } else if completed <= 20 {
        ProviderTenure::Growing
    } else {
        ProviderTenure::Established
    }
}

/// Classifies a provider by its completed contracts: "new" below 5,
/// "growing" up to 20, "established" above.
pub fn provider_tenure(completed_contracts: i64) -> (r: ProviderTenure)
    ensures
        r == tenure_of(completed_contracts as int),
{
    if completed_contracts < 5 {
        ProviderTenure::New
    } else if completed_contracts <= 20 {
        ProviderTenure::Growing
    } else {
        ProviderTenure::Established
    }
}

/// The label of a tenure class.
pub open spec fn tenure_label(t: ProviderTenure) -> Seq<char> {
    match t {
        ProviderTenure::New => "new"@,
        ProviderTenure::Growing => "growing"@,
        ProviderTenure::Established => "established"@,
    }
}

impl ProviderTenure {
    /// The label stored with trust metrics.
    pub fn as_str(&self) -> (r: &'static str)
        ensures
            r@ == tenure_label(*self),
    {
        match self {
            ProviderTenure::New => "new",
            ProviderTenure::Growing => "growing",
            ProviderTenure::Established => "established",
        }
    }
}

/// A provider is new while it has fewer than 5 completed contracts.
pub fn is_new_provider(completed_contracts: i64) -> (r: bool)
    ensures
        r == (completed_contracts < 5),
{
    completed_contracts < 5
}

/// A new provider is exactly one whose tenure is "new".
pub proof fn lemma_new_provider_tenure(completed: i64)
    ensures
        (completed < 5) <==> tenure_of(completed as int) == ProviderTenure::New,
{
}

/// Whole days since the last recorded activity, or -1 when none was
/// recorded (`last_active_ns` not positive).
pub fn days_since_last_activity(now_ns: i64, last_active_ns: i64) -> (r: i64)
    requires
        last_active_ns > 0 ==> i64::MIN <= now_ns - last_active_ns,
    ensures
        r == (if last_active_ns > 0 {
            div_trunc(now_ns - last_active_ns, NS_PER_DAY as int)
        } else {
            -1
        }),
{
    if last_active_ns > 0 {
        (now_ns - last_active_ns) / NS_PER_DAY
    } else {
        -1
    }
}

/// No flag in `fs` is about reputation.
pub open spec fn no_reputation_flag(fs: Seq<TrustFlag>) -> bool {
    forall|i: int| 0 <= i < fs.len() ==> !(#[trigger] fs[i] is NegativeReputation)
}

proof fn lemma_no_reputation_concat(a: Seq<TrustFlag>, b: Seq<TrustFlag>)
    requires
        no_reputation_flag(a),
        no_reputation_flag(b),
    ensures
        no_reputation_flag(a + b),
{
    assert forall|i: int| 0 <= i < (a + b).len() implies !(#[trigger] (a + b)[i] is NegativeReputation) by {
        if i < a.len() {
            assert((a + b)[i] == a[i]);
        } else {
            assert((a + b)[i] == b[i - a.len()]);
        }
    }
}

proof fn lemma_no_reputation_flag_if(c: bool, f: TrustFlag)
    requires
        !(f is NegativeReputation),
    ensures
        no_reputation_flag(flag_if(c, f)),
{
    if c {
        assert(seq![f][0] == f);
    }
}

proof fn lemma_flags_without_reputation(s: TrustSignals)
    requires
        s.negative_reputation_90d >= -50,
    ensures
        no_reputation_flag(trust_flags(s)),
        trust_flags(s) == trust_flags(TrustSignals { negative_reputation_90d: 0, ..s }),
{
    let gf = if s.days_since_last_checkin == -1 {
        TrustFlag::GhostRiskNoActivity
    } else {
        TrustFlag::GhostRisk { days: s.days_since_last_checkin }
    };
    let f1 = flag_if(s.early_cancellation_rate_high, TrustFlag::HighEarlyCancellation);
    let f2 = flag_if(s.provisioning_failure_rate_high, TrustFlag::ProvisioningFailures);
    let f3 = flag_if(s.rejection_rate_high, TrustFlag::HighRejection);
    let f4 = flag_if(s.slow_response, TrustFlag::SlowResponse);
    let f5 = flag_if(negative_reputation_hit(s), TrustFlag::NegativeReputation { points: s.negative_reputation_90d });
    let f6 = flag_if(ghost_risk(s), gf);
    let f7 = flag_if(stuck_hit(s), TrustFlag::StuckContracts { dollars: stuck_dollars(s) as i64 });
    let f8 = flag_if(!s.has_contact_info, TrustFlag::NoContactInfo);
    lemma_no_reputation_flag_if(s.early_cancellation_rate_high, TrustFlag::HighEarlyCancellation);
    lemma_no_reputation_flag_if(s.provisioning_failure_rate_high, TrustFlag::ProvisioningFailures);
    lemma_no_reputation_flag_if(s.rejection_rate_high, TrustFlag::HighRejection);
    lemma_no_reputation_flag_if(s.slow_response, TrustFlag::SlowResponse);
    lemma_no_reputation_flag_if(ghost_risk(s), gf);
    lemma_no_reputation_flag_if(stuck_hit(s), TrustFlag::StuckContracts { dollars: stuck_dollars(s) as i64 });
    lemma_no_reputation_flag_if(!s.has_contact_info, TrustFlag::NoContactInfo);
    assert(f5 =~= Seq::<TrustFlag>::empty());
    lemma_no_reputation_concat(f1, f2);
    lemma_no_reputation_concat(f1 + f2, f3);
    lemma_no_reputation_concat(f1 + f2 + f3, f4);
    lemma_no_reputation_concat(f1 + f2 + f3 + f4, f5);
    lemma_no_reputation_concat(f1 + f2 + f3 + f4 + f5, f6);
    lemma_no_reputation_concat(f1 + f2 + f3 + f4 + f5 + f6, f7);
    lemma_no_reputation_concat(f1 + f2 + f3 + f4 + f5 + f6 + f7, f8);
    assert(trust_flags(s) =~= trust_flags(TrustSignals { negative_reputation_90d: 0, ..s }));
}

/// The reputation flag is raised exactly when more than 50 reputation points
/// were lost in 90 days. A loss of 50 points or fewer changes neither the
/// score nor the flags: the provider is treated as if nothing was lost. A
/// larger loss raises the flag, quoting the points, and costs 15 points of
/// penalty more than no loss would.
pub proof fn lemma_reputation_threshold(s: TrustSignals)
    ensures
        s.negative_reputation_90d >= -50 ==> no_reputation_flag(trust_flags(s)),
        s.negative_reputation_90d >= -50 ==> trust_flags(s) == trust_flags(TrustSignals { negative_reputation_90d: 0, ..s }),
        s.negative_reputation_90d >= -50 ==> trust_score(s) == trust_score(TrustSignals { negative_reputation_90d: 0, ..s }),
        s.negative_reputation_90d < -50 ==> trust_flags(s).contains(TrustFlag::NegativeReputation { points: s.negative_reputation_90d }),
        s.negative_reputation_90d < -50 ==> flags_weight(trust_flags(s))
            == flags_weight(trust_flags(TrustSignals { negative_reputation_90d: 0, ..s })) + 15,
{
    let z = TrustSignals { negative_reputation_90d: 0, ..s };
    lemma_penalty_is_flag_weight(s);
    lemma_penalty_is_flag_weight(z);
    assert(penalty_total(s) == penalty_total(z) + weight_if(negative_reputation_hit(s), 15)) by {
        reveal(penalty_total);
        reveal(weight_if);
    }
    assert(bonus_total(s) == bonus_total(z)) by {
        reveal(bonus_total);
    }
    if s.negative_reputation_90d >= -50 {
        lemma_flags_without_reputation(s);
        reveal(weight_if);
    } else {
        reveal(weight_if);
        let f1 = flag_if(s.early_cancellation_rate_high, TrustFlag::HighEarlyCancellation);
        let f2 = flag_if(s.provisioning_failure_rate_high, TrustFlag::ProvisioningFailures);
        let f3 = flag_if(s.rejection_rate_high, TrustFlag::HighRejection);
        let f4 = flag_if(s.slow_response, TrustFlag::SlowResponse);
        let f5 = flag_if(negative_reputation_hit(s), TrustFlag::NegativeReputation { points: s.negative_reputation_90d });
        let k = (f1 + f2 + f3 + f4).len() as int;
        assert(f5 =~= seq![TrustFlag::NegativeReputation { points: s.negative_reputation_90d }]);
        assert(trust_flags(s)[k] == TrustFlag::NegativeReputation { points: s.negative_reputation_90d });
    }
}

proof fn lemma_contains_concat(a: Seq<TrustFlag>, b: Seq<TrustFlag>, x: TrustFlag)
    ensures
        (a + b).contains(x) <==> (a.contains(x) || b.contains(x)),
{
    if a.contains(x) {
        let i = choose|i: int| 0 <= i < a.len() && a[i] == x;
        assert((a + b)[i] == x);
    }
    if b.contains(x) {
        let i = choose|i: int| 0 <= i < b.len() && b[i] == x;
        assert((a + b)[a.len() + i] == x);
    }
    if (a + b).contains(x) {
        let i = choose|i: int| 0 <= i < (a + b).len() && (a + b)[i] == x;
        if i < a.len() {
            assert(a[i] == x);
        } else {
            assert(b[i - a.len()] == x);
        }
    }
}

proof fn lemma_flag_if_contains(c: bool, f: TrustFlag, x: TrustFlag)
    ensures
        flag_if(c, f).contains(x) <==> (c && f == x),
{
    if c {
        assert(seq![f][0] == f);
    }
}

proof fn lemma_flags_contain(s: TrustSignals, x: TrustFlag)
    ensures
        trust_flags(s).contains(x) <==> {
            ||| s.early_cancellation_rate_high && x == TrustFlag::HighEarlyCancellation
            ||| s.provisioning_failure_rate_high && x == TrustFlag::ProvisioningFailures
            ||| s.rejection_rate_high && x == TrustFlag::HighRejection
            ||| s.slow_response && x == TrustFlag::SlowResponse
            ||| negative_reputation_hit(s) && x == (TrustFlag::NegativeReputation { points: s.negative_reputation_90d })
            ||| ghost_risk(s) && x == (if s.days_since_last_checkin == -1 {
                TrustFlag::GhostRiskNoActivity
            } else {
                TrustFlag::GhostRisk { days: s.days_since_last_checkin }
            })
            ||| stuck_hit(s) && x == (TrustFlag::StuckContracts { dollars: stuck_dollars(s) as i64 })
            ||| !s.has_contact_info && x == TrustFlag::NoContactInfo
        },
{
    let gf = if s.days_since_last_checkin == -1 {
        TrustFlag::GhostRiskNoActivity
    } else {
        TrustFlag::GhostRisk { days: s.days_since_last_checkin }
    };
    let f1 = flag_if(s.early_cancellation_rate_high, TrustFlag::HighEarlyCancellation);
    let f2 = flag_if(s.provisioning_failure_rate_high, TrustFlag::ProvisioningFailures);
    let f3 = flag_if(s.rejection_rate_high, TrustFlag::HighRejection);
    let f4 = flag_if(s.slow_response, TrustFlag::SlowResponse);
    let f5 = flag_if(negative_reputation_hit(s), TrustFlag::NegativeReputation { points: s.negative_reputation_90d });
    let f6 = flag_if(ghost_risk(s), gf);
    let f7 = flag_if(stuck_hit(s), TrustFlag::StuckContracts { dollars: stuck_dollars(s) as i64 });
    let f8 = flag_if(!s.has_contact_info, TrustFlag::NoContactInfo);
    lemma_flag_if_contains(s.early_cancellation_rate_high, TrustFlag::HighEarlyCancellation, x);
    lemma_flag_if_contains(s.provisioning_failure_rate_high, TrustFlag::ProvisioningFailures, x);
    lemma_flag_if_contains(s.rejection_rate_high, TrustFlag::HighRejection, x);
    lemma_flag_if_contains(s.slow_response, TrustFlag::SlowResponse, x);
    lemma_flag_if_contains(negative_reputation_hit(s), TrustFlag::NegativeReputation { points: s.negative_reputation_90d }, x);
    lemma_flag_if_contains(ghost_risk(s), gf, x);
    lemma_flag_if_contains(stuck_hit(s), TrustFlag::StuckContracts { dollars: stuck_dollars(s) as i64 }, x);
    lemma_flag_if_contains(!s.has_contact_info, TrustFlag::NoContactInfo, x);
    lemma_contains_concat(f1, f2, x);
    lemma_contains_concat(f1 + f2, f3, x);
    lemma_contains_concat(f1 + f2 + f3, f4, x);
    lemma_contains_concat(f1 + f2 + f3 + f4, f5, x);
    lemma_contains_concat(f1 + f2 + f3 + f4 + f5, f6, x);
    lemma_contains_concat(f1 + f2 + f3 + f4 + f5 + f6, f7, x);
    lemma_contains_concat(f1 + f2 + f3 + f4 + f5 + f6 + f7, f8, x);
}

/// The thresholds behind each flag: a flag is raised exactly when its
/// threshold is crossed. Rates and response time come as the caller's
/// threshold tests; reputation needs more than 50 points lost in 90 days;
/// the ghost risk needs active contracts and no activity ever (-1) or more
/// than 7 days without it; stuck contracts need more than $5000 (value in
/// e9s, truncated to whole dollars); and a provider without a contact
/// method is flagged.
pub proof fn lemma_flag_thresholds(s: TrustSignals)
    ensures
        trust_flags(s).contains(TrustFlag::HighEarlyCancellation) <==> s.early_cancellation_rate_high,
        trust_flags(s).contains(TrustFlag::ProvisioningFailures) <==> s.provisioning_failure_rate_high,
        trust_flags(s).contains(TrustFlag::HighRejection) <==> s.rejection_rate_high,
        trust_flags(s).contains(TrustFlag::SlowResponse) <==> s.slow_response,
        trust_flags(s).contains(TrustFlag::NegativeReputation { points: s.negative_reputation_90d })
            <==> s.negative_reputation_90d < -50,
        trust_flags(s).contains(TrustFlag::GhostRiskNoActivity)
            <==> (s.has_active_contracts && s.days_since_last_checkin == -1),
        trust_flags(s).contains(TrustFlag::GhostRisk { days: s.days_since_last_checkin })
            <==> (s.has_active_contracts && s.days_since_last_checkin > 7),
        trust_flags(s).contains(TrustFlag::StuckContracts { dollars: (s.stuck_contracts_value_e9s / 1_000_000_000) as i64 })
            <==> s.stuck_contracts_value_e9s / 1_000_000_000 > 5000,
        trust_flags(s).contains(TrustFlag::NoContactInfo) <==> !s.has_contact_info,
        trust_flags(s).len() <= 8,
{
    lemma_flags_contain(s, TrustFlag::HighEarlyCancellation);
    lemma_flags_contain(s, TrustFlag::ProvisioningFailures);
    lemma_flags_contain(s, TrustFlag::HighRejection);
    lemma_flags_contain(s, TrustFlag::SlowResponse);
    lemma_flags_contain(s, TrustFlag::NegativeReputation { points: s.negative_reputation_90d });
    lemma_flags_contain(s, TrustFlag::GhostRiskNoActivity);
    lemma_flags_contain(s, TrustFlag::GhostRisk { days: s.days_since_last_checkin });
    lemma_flags_contain(s, TrustFlag::StuckContracts { dollars: (s.stuck_contracts_value_e9s / 1_000_000_000) as i64 });
    lemma_flags_contain(s, TrustFlag::NoContactInfo);
}

/// The score is 100, less the weights of the raised flags (25 for early
/// cancellations, 20 for provisioning failures, 15 for rejections, slow
/// responses and reputation, 10 for the others), plus 5 for each of more
/// than 10 repeat customers, a high completion rate and fast responses,
/// kept within 0..=100.
pub proof fn lemma_score_formula(s: TrustSignals)
    ensures
        trust_score(s) == clamp(
            100 - flags_weight(trust_flags(s))
                + (if s.repeat_customer_count > 10 { 5int } else { 0int })
                + (if s.high_completion_rate { 5int } else { 0int })
                + (if s.fast_response { 5int } else { 0int }),
            0,
            100,
        ),
        flag_weight(TrustFlag::HighEarlyCancellation) == 25,
        flag_weight(TrustFlag::ProvisioningFailures) == 20,
        flag_weight(TrustFlag::HighRejection) == 15,
        flag_weight(TrustFlag::SlowResponse) == 15,
        flag_weight(TrustFlag::NegativeReputation { points: s.negative_reputation_90d }) == 15,
        flag_weight(TrustFlag::GhostRiskNoActivity) == 10,
        flag_weight(TrustFlag::GhostRisk { days: s.days_since_last_checkin }) == 10,
        flag_weight(TrustFlag::StuckContracts { dollars: 0 }) == 10,
        flag_weight(TrustFlag::NoContactInfo) == 10,
        0 <= trust_score(s) <= 100,
{
    lemma_penalty_is_flag_weight(s);
    reveal(bonus_total);
    reveal(weight_if);
}

/// Tenure grows with completed contracts: fewer than 5 is new, 5 to 20
/// growing, more than 20 established, and a provider with more completed
/// contracts is never at an earlier stage.
pub proof fn lemma_tenure_stages(a: int, b: int)
    ensures
        a < 5 <==> tenure_of(a) == ProviderTenure::New,
        5 <= a <= 20 <==> tenure_of(a) == ProviderTenure::Growing,
        a > 20 <==> tenure_of(a) == ProviderTenure::Established,
        a <= b && tenure_of(b) == ProviderTenure::New ==> tenure_of(a) == ProviderTenure::New,
        a <= b && tenure_of(a) == ProviderTenure::Established ==> tenure_of(b) == ProviderTenure::Established,
{
}

} // verus!
