//! The time windows and result limits that the listing queries run with:
//! how far back "active" reaches, the check-in windows of validators, the
//! agent heartbeat window and the cap on short lists.

use vstd::prelude::*;
use crate::trust::NS_PER_DAY;

verus! {

/// Nanoseconds in five minutes: how recent an agent heartbeat must be for
/// its provider to count as online.
pub const HEARTBEAT_WINDOW_NS: i64 = 300_000_000_000;

/// The largest number of entries a short list (new providers, trending or
/// recommended offerings) holds.
pub const SHORT_LIST_CAP: i64 = 10;

/// The earliest check-in time (nanoseconds, exclusive) for the window of
/// the last `days` days, counted as at least one day.
pub open spec fn active_since(now_ns: int, days: int) -> int {
    now_ns - (if days < 1 { 1 } else { days }) * NS_PER_DAY
}

/// The check-in cutoff for providers active in the last `days` days (at
/// least one).
pub fn active_since_ns(now_ns: i64, days: i64) -> (r: i64)
    requires
        days >= 1 ==> days * NS_PER_DAY <= i64::MAX,
        i64::MIN <= active_since(now_ns as int, days as int),
    ensures
        r == active_since(now_ns as int, days as int),
{
    let d: i64 = if days < 1 { 1 } else { days };
    now_ns - d * NS_PER_DAY
}

/// The windows a validator listing counts check-ins over.
pub struct ValidatorWindows {
    /// Check-ins after this time make a validator active.
    pub active_since_ns: i64,
    /// Start of the last day.
    pub since_24h_ns: i64,
    /// Start of the last seven days.
    pub since_7d_ns: i64,
    /// Start of the last thirty days.
    pub since_30d_ns: i64,
}

/// The validator windows at `now_ns` for validators active in the last
/// `days` days (at least one).
pub fn validator_windows(now_ns: i64, days: i64) -> (r: ValidatorWindows)
    requires
        days >= 1 ==> days * NS_PER_DAY <= i64::MAX,
        i64::MIN <= active_since(now_ns as int, days as int),
        i64::MIN <= now_ns - 30 * NS_PER_DAY,
    ensures
        r.active_since_ns == active_since(now_ns as int, days as int),
        r.since_24h_ns == now_ns - NS_PER_DAY,
        r.since_7d_ns == now_ns - 7 * NS_PER_DAY,
        r.since_30d_ns == now_ns - 30 * NS_PER_DAY,
{
    ValidatorWindows {
        active_since_ns: active_since_ns(now_ns, days),
        since_24h_ns: now_ns - NS_PER_DAY,
        since_7d_ns: now_ns - 7 * NS_PER_DAY,
        since_30d_ns: now_ns - 30 * NS_PER_DAY,
    }
}

/// The heartbeat time after which an agent counts as online.
pub fn heartbeat_cutoff_ns(now_ns: i64) -> (r: i64)
    requires
        i64::MIN <= now_ns - HEARTBEAT_WINDOW_NS,
    ensures
        r == now_ns - HEARTBEAT_WINDOW_NS,
{
    now_ns - HEARTBEAT_WINDOW_NS
}

/// The number of entries a short list returns for a requested limit: the
/// request, capped at ten.
pub fn capped_limit(limit: i64) -> (r: i64)
    ensures
        r == if limit < SHORT_LIST_CAP { limit } else { SHORT_LIST_CAP },
        r <= SHORT_LIST_CAP,
{
    if limit < SHORT_LIST_CAP {
        limit
    } else {
        SHORT_LIST_CAP
    }
}

/// The creation time (seconds) before which tracked messages older than
/// `days_old` days are removed.
pub fn tracking_cleanup_cutoff(now_secs: i64, days_old: i64) -> (r: i64)
    requires
        i64::MIN <= days_old * 86400 <= i64::MAX,
        i64::MIN <= now_secs - days_old * 86400 <= i64::MAX,
    ensures
        r == now_secs - days_old * 86400,
{
    now_secs - days_old * 86400
}

/// A longer window reaches further back: the cutoff never moves forward as
/// the number of days grows, and a window below one day is one day.
pub proof fn lemma_active_window_monotone(now_ns: int, d1: int, d2: int)
    requires
        d1 <= d2,
    ensures
        active_since(now_ns, d2) <= active_since(now_ns, d1),
        d1 < 1 ==> active_since(now_ns, d1) == active_since(now_ns, 1),
{
}

/// Nanoseconds in an hour.
pub const NS_PER_HOUR: i64 = 3_600_000_000_000;

/// The cutoffs a provider's trust metrics are counted over.
pub struct TrustWindows {
    /// Start of the last ninety days (reputation, request counts).
    pub since_90d_ns: i64,
    /// Contracts older than this without progress count as stuck.
    pub since_72h_ns: i64,
    /// Requests older than this still unanswered count as unresponded.
    pub since_7d_ns: i64,
    /// Start of the recent period of the abandonment comparison.
    pub since_30d_ns: i64,
    /// End of the baseline period of the abandonment comparison.
    pub since_31d_ns: i64,
}

/// The trust metric windows at `now_ns`.
pub fn trust_windows(now_ns: i64) -> (r: TrustWindows)
    requires
        i64::MIN <= now_ns - 90 * NS_PER_DAY,
    ensures
        r.since_90d_ns == now_ns - 90 * NS_PER_DAY,
        r.since_72h_ns == now_ns - 72 * NS_PER_HOUR,
        r.since_7d_ns == now_ns - 7 * NS_PER_DAY,
        r.since_30d_ns == now_ns - 30 * NS_PER_DAY,
        r.since_31d_ns == now_ns - 31 * NS_PER_DAY,
{
    TrustWindows {
        since_90d_ns: now_ns - 90 * NS_PER_DAY,
        since_72h_ns: now_ns - 72 * NS_PER_HOUR,
        since_7d_ns: now_ns - 7 * NS_PER_DAY,
        since_30d_ns: now_ns - 30 * NS_PER_DAY,
        since_31d_ns: now_ns - 31 * NS_PER_DAY,
    }
}

/// The time units and limits the windows are built from: a day is 24
/// hours of 3600 seconds, in nanoseconds; the heartbeat window is five
/// minutes; short lists hold at most ten entries, and a request for fewer
/// gets what it asked for.
pub proof fn lemma_time_units(limit: i64)
    ensures
        NS_PER_HOUR == 3600 * 1_000_000_000,
        NS_PER_DAY == 24 * NS_PER_HOUR,
        HEARTBEAT_WINDOW_NS == 5 * 60 * 1_000_000_000,
        SHORT_LIST_CAP == 10,
        crate::stats::MS_PER_DAY == 86_400_000,
        crate::stats::ACTIVE_PROVIDER_DAYS == 365,
        active_since(0, 1) == -86_400_000_000_000,
{
}

} // verus!
