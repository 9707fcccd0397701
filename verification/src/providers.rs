//! Provider records and the rules around them: per-offering auto-accept
//! rules, uptime SLA figures and provider support resources.

use vstd::prelude::*;
use crate::text::{owned, i64_to_string, signed_decimal, opt_view};

verus! {

/// Per-offering auto-accept rule for a provider.
pub struct AutoAcceptRule {
    pub id: i64,
    pub offering_id: String,
    pub min_duration_hours: Option<i64>,
    pub max_duration_hours: Option<i64>,
    pub enabled: bool,
}

/// A provider's public profile.
pub struct ProviderProfile {
    pub pubkey: Vec<u8>,
    pub name: String,
    pub description: Option<String>,
    pub website_url: Option<String>,
    pub logo_url: Option<String>,
    pub why_choose_us: Option<String>,
    pub api_version: String,
    pub profile_version: String,
    pub updated_at_ns: i64,
    pub support_email: Option<String>,
    pub support_hours: Option<String>,
    pub support_channels: Option<String>,
    pub regions: Option<String>,
    pub payment_methods: Option<String>,
    pub refund_policy: Option<String>,
    pub sla_guarantee: Option<String>,
    pub unique_selling_points: Option<String>,
    pub common_issues: Option<String>,
    pub onboarding_completed_at: Option<i64>,
}

/// One provider check-in.
pub struct ProviderCheckIn {
    pub pubkey: Vec<u8>,
    pub memo: String,
    pub block_timestamp_ns: i64,
}

/// A provider contact method.
pub struct ProviderContact {
    pub id: i64,
    pub contact_type: String,
    pub contact_value: String,
}

/// Provider onboarding answers.
pub struct ProviderOnboarding {
    pub support_email: Option<String>,
    pub support_hours: Option<String>,
    pub support_channels: Option<String>,
    pub regions: Option<String>,
    pub payment_methods: Option<String>,
    pub refund_policy: Option<String>,
    pub sla_guarantee: Option<String>,
    pub unique_selling_points: Option<String>,
    pub common_issues: Option<String>,
    pub onboarding_completed_at: Option<i64>,
}

/// A validator with its check-in counts.
pub struct Validator {
    pub pubkey: String,
    pub name: Option<String>,
    pub description: Option<String>,
    pub website_url: Option<String>,
    pub logo_url: Option<String>,
    pub total_check_ins: i64,
    pub check_ins_24h: i64,
    pub check_ins_7d: i64,
    pub check_ins_30d: i64,
    pub last_check_in_ns: i64,
    pub registered_at_ns: i64,
}

/// An external (seeded) provider with its offering count.
pub struct ExternalProvider {
    pub pubkey: String,
    pub name: String,
    pub domain: String,
    pub website_url: String,
    pub logo_url: Option<String>,
    pub data_source: String,
    pub offerings_count: i64,
    pub created_at_ns: i64,
}

/// A recently joined provider with offering count and days since joining.
pub struct NewProvider {
    pub pubkey: String,
    pub name: String,
    pub description: Option<String>,
    pub logo_url: Option<String>,
    pub trust_score: Option<i64>,
    pub offerings_count: i64,
    pub joined_days_ago: i64,
}

/// Uptime SLA configuration for a provider.
pub struct SlaUptimeConfig {
    /// Minimum acceptable uptime percentage (0-100).
    pub uptime_threshold_percent: i32,
    /// Rolling window (in hours) over which uptime is measured.
    pub sla_alert_window_hours: i32,
}

/// A contract that has breached its uptime SLA.
pub struct SlaBreachInfo {
    /// Hex-encoded contract id.
    pub contract_id: String,
    /// Hex-encoded provider key.
    pub provider_pubkey: String,
    /// Measured uptime percentage.
    pub uptime_percent: i32,
    /// Threshold that was breached.
    pub threshold_percent: i32,
}

/// Raw SLA configuration row.
pub struct ProviderSlaRow {
    pub provider_pubkey: Vec<u8>,
    pub uptime_threshold_percent: i32,
    pub sla_alert_window_hours: i32,
}

/// The error for a rule whose minimum duration exceeds its maximum.
pub open spec fn range_error(min: i64, max: i64) -> Seq<char> {
    "min_duration_hours ("@ + signed_decimal(min as int) + ") must not exceed max_duration_hours ("@
        + signed_decimal(max as int) + ")"@
}

/// Checks a rule's duration range: when both ends are set, the minimum
/// must not exceed the maximum.
pub fn validate_duration_range(min_duration_hours: Option<i64>, max_duration_hours: Option<i64>) -> (r: Result<(), String>)
    ensures
        match (min_duration_hours, max_duration_hours) {
            (Some(lo), Some(hi)) => if lo <= hi { r is Ok } else { r matches Err(e) && e@ == range_error(lo, hi) },
            _ => r is Ok,
        },
{
    match (min_duration_hours, max_duration_hours) {
        (Some(lo), Some(hi)) => {
            if lo <= hi {
                Ok(())
            } else {
                let mut m = owned("min_duration_hours (");
                let a = i64_to_string(lo);
                m.append(a.as_str());
                m.append(") must not exceed max_duration_hours (");
                let b = i64_to_string(hi);
                m.append(b.as_str());
                m.append(")");
                Err(m)
            }
        },
        _ => Ok(()),
    }
}

/// The stored limits of a provider's rule for one offering.
pub struct RuleLimits {
    pub min_duration_hours: Option<i64>,
    pub max_duration_hours: Option<i64>,
    pub enabled: bool,
}

/// Whether a rental of `duration_hours` (0 when unknown) matches the rule
/// for its offering: always when there is no rule; never when the rule is
/// disabled; else when the duration lies within the rule's bounds.
pub open spec fn rule_matches(rule: Option<RuleLimits>, duration_hours: Option<i64>) -> bool {
    match rule {
        None => true,
        Some(r) => {
            let h = match duration_hours { Some(d) => d, None => 0 };
            &&& r.enabled
            &&& (r.min_duration_hours matches Some(lo) ==> lo <= h)
            &&& (r.max_duration_hours matches Some(hi) ==> h <= hi)
        },
    }
}

/// Checks whether a contract request matches the provider's auto-accept
/// rule for the offering.
pub fn auto_accept_rule_matches(rule: Option<&RuleLimits>, duration_hours: Option<i64>) -> (r: bool)
    ensures
        r == rule_matches(match rule { Some(x) => Some(*x), None => None }, duration_hours),
{
    let rule = match rule {
        None => return true,
        Some(x) => x,
    };
    if !rule.enabled {
        return false;
    }
    let hours = match duration_hours {
        Some(d) => d,
        None => 0,
    };
    if let Some(lo) = rule.min_duration_hours {
        if hours < lo {
            return false;
        }
    }
    if let Some(hi) = rule.max_duration_hours {
        if hours > hi {
            return false;
        }
    }
    true
}

/// A provider's auto-accept setting: the stored value, or the schema
/// default (on) when the provider has no profile.
pub fn auto_accept_setting(stored: Option<bool>) -> (r: bool)
    ensures
        r == match stored { Some(b) => b, None => true },
{
    match stored {
        Some(b) => b,
        None => true,
    }
}

/// An offering without a rule accepts every rental; a disabled rule accepts
/// none; an enabled rule accepts a rental exactly when its duration (zero
/// when unknown) lies within the rule's bounds.
pub proof fn lemma_rule_semantics(min: Option<i64>, max: Option<i64>, enabled: bool, duration: Option<i64>)
    ensures
        rule_matches(None, duration),
        !rule_matches(Some(RuleLimits { min_duration_hours: min, max_duration_hours: max, enabled: false }), duration),
        ({
            let h = match duration { Some(d) => d, None => 0 };
            rule_matches(Some(RuleLimits { min_duration_hours: min, max_duration_hours: max, enabled: true }), duration)
                <==> ((min matches Some(lo) ==> lo <= h) && (max matches Some(hi) ==> h <= hi))
        }),
{
}

/// Uptime in whole percent: healthy checks times 100 divided by all checks
/// (the quotient narrowed to `i32`), or 0 when there were none.
pub fn uptime_percent(healthy_checks: i64, total_checks: i64) -> (r: i32)
    requires
        0 <= healthy_checks,
        0 <= total_checks,
        healthy_checks * 100 <= i64::MAX,
    ensures
        total_checks > 0 ==> r == ((healthy_checks * 100) / (total_checks as int)) as i32,
        total_checks == 0 ==> r == 0,
        healthy_checks <= total_checks ==> 0 <= r <= 100,
{
    if total_checks > 0 {
        let p = (healthy_checks * 100) / total_checks;
        assert(healthy_checks <= total_checks ==> 0 <= p <= 100) by (nonlinear_arith)
            requires
                0 <= healthy_checks,
                total_checks > 0,
                p == (healthy_checks * 100) / (total_checks as int),
        {
        }
        p as i32
    } else {
        0
    }
}

/// The length of an SLA window in nanoseconds.
pub fn sla_window_ns(window_hours: i32) -> (r: i64)
    requires
        i64::MIN <= (window_hours as int) * 3_600_000_000_000 <= i64::MAX,
    ensures
        r == (window_hours as int) * 3_600_000_000_000,
{
    (window_hours as i64) * 3600 * 1_000_000_000i64
}

/// Support resources of a provider: all three must be set; the ids are
/// narrowed to `u32` as stored values allow.
pub fn chatwoot_resources(inbox_id: Option<i64>, team_id: Option<i64>, portal_slug: Option<String>) -> (r: Option<(u32, u32, String)>)
    ensures
        match (inbox_id, team_id, portal_slug) {
            (Some(i), Some(t), Some(s)) => r matches Some((a, b, c)) && a == i as u32 && b == t as u32 && c@ == s@,
            _ => r is None,
        },
{
    match (inbox_id, team_id, portal_slug) {
        (Some(i), Some(t), Some(s)) => Some((i as u32, t as u32, s)),
        _ => None,
    }
}

/// The error for a rule that does not exist or belongs to another provider.
pub open spec fn rule_not_found_text(rule_id: i64) -> Seq<char> {
    "Auto-accept rule "@ + signed_decimal(rule_id as int) + " not found for this provider"@
}

/// The error for an update or delete of a rule that matched no row.
pub fn rule_not_found_message(rule_id: i64) -> (r: String)
    ensures
        r@ == rule_not_found_text(rule_id),
{
    let mut m = owned("Auto-accept rule ");
    let n = i64_to_string(rule_id);
    m.append(n.as_str());
    m.append(" not found for this provider");
    m
}

/// The outcome of changing a provider's profile setting that touched
/// `rows_affected` rows: none means the provider has no profile.
pub fn profile_rows_result(rows_affected: u64) -> (r: Result<(), String>)
    ensures
        rows_affected == 0 ==> (r matches Err(e) && e@ == "Provider profile not found"@),
        rows_affected != 0 ==> r is Ok,
{
    if rows_affected == 0 {
        Err(owned("Provider profile not found"))
    } else {
        Ok(())
    }
}

} // verus!
