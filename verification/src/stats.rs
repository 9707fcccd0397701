//! Platform and provider statistics, account search and offering view
//! analytics: the records the statistics queries fill and the time windows
//! and search patterns they are run with.

use vstd::prelude::*;
use crate::text::{owned, to_lowercase, unicode_lowercase};
use crate::trust::NS_PER_DAY;

verus! {

/// Platform-wide counts.
pub struct PlatformStats {
    pub total_providers: i64,
    pub active_providers: i64,
    pub total_offerings: i64,
    pub total_contracts: i64,
    pub total_transfers: i64,
    pub total_volume_e9s: i64,
}

/// The reputation of one identity: the sum of its changes and their number.
pub struct ReputationInfo {
    pub pubkey: Vec<u8>,
    pub total_reputation: i64,
    pub change_count: i64,
}

/// Contract and offering counts of one provider.
pub struct ProviderStats {
    pub total_contracts: i64,
    pub pending_contracts: i64,
    pub total_revenue_e9s: i64,
    pub offerings_count: i64,
}

/// One account found by an account search.
pub struct AccountSearchResult {
    pub username: String,
    pub display_name: Option<String>,
    pub pubkey: String,
    pub reputation_score: i64,
    pub contract_count: i64,
    pub offering_count: i64,
}

/// View counts of one offering over the last seven and thirty days.
pub struct OfferingAnalytics {
    pub views_7d: i64,
    pub views_30d: i64,
    pub unique_viewers_7d: i64,
    pub unique_viewers_30d: i64,
}

/// The views of one offering on one day (`YYYY-MM-DD`).
pub struct DailyViewTrend {
    pub day: String,
    pub views: i64,
    pub unique_viewers: i64,
}

/// How far back a provider's last check-in may lie for it to count as
/// active, in days.
pub const ACTIVE_PROVIDER_DAYS: i64 = 365;

/// The check-in time after which a provider counts as active, given the
/// current time in nanoseconds.
pub fn active_provider_cutoff(now_ns: i64) -> (r: i64)
    requires
        now_ns - ACTIVE_PROVIDER_DAYS * NS_PER_DAY >= i64::MIN,
    ensures
        r == now_ns - ACTIVE_PROVIDER_DAYS * NS_PER_DAY,
{
    now_ns - ACTIVE_PROVIDER_DAYS * NS_PER_DAY
}

/// Platform statistics from the counts; a platform without transfers has
/// moved no volume.
pub fn platform_stats(
    total_providers: i64,
    active_providers: i64,
    total_offerings: i64,
    total_contracts: i64,
    total_transfers: i64,
    total_volume_e9s: Option<i64>,
) -> (r: PlatformStats)
    ensures
        r.total_providers == total_providers,
        r.active_providers == active_providers,
        r.total_offerings == total_offerings,
        r.total_contracts == total_contracts,
        r.total_transfers == total_transfers,
        r.total_volume_e9s == match total_volume_e9s {
            Some(v) => v,
            None => 0,
        },
{
    PlatformStats {
        total_providers,
        active_providers,
        total_offerings,
        total_contracts,
        total_transfers,
        total_volume_e9s: match total_volume_e9s {
            Some(v) => v,
            None => 0,
        },
    }
}

/// What `str::to_uppercase` returns for a string: Unicode uppercase mapping,
/// which can change the length of the text.
pub uninterp spec fn unicode_uppercase(s: Seq<char>) -> Seq<char>;

/// `str::to_uppercase`. Its result is named `unicode_uppercase` of the input.
#[verifier::external_body]
fn to_uppercase(s: &str) -> (r: String)
    ensures
        r@ == unicode_uppercase(s@),
{
    s.to_uppercase()
}

/// The two patterns an account search matches with: the lowercase query
/// anywhere in a name, and the uppercase query at the start of a key's
/// hexadecimal form.
pub open spec fn search_patterns(query: Seq<char>) -> (Seq<char>, Seq<char>) {
    (seq!['%'] + unicode_lowercase(query) + seq!['%'], unicode_uppercase(query) + seq!['%'])
}

/// The LIKE patterns for an account search on `query`.
pub fn account_search_patterns(query: &str) -> (r: (String, String))
    ensures
        (r.0@, r.1@) == search_patterns(query@),
{
    let lower = to_lowercase(query);
    let upper = to_uppercase(query);
    let mut name_pattern = owned("%");
    name_pattern.append(lower.as_str());
    name_pattern.append("%");
    let mut key_pattern = upper;
    key_pattern.append("%");
    proof {
        reveal_strlit("%");
        assert(name_pattern@ =~= search_patterns(query@).0);
        assert(key_pattern@ =~= search_patterns(query@).1);
    }
    (name_pattern, key_pattern)
}

/// Milliseconds in a day.
pub const MS_PER_DAY: i64 = 86_400_000;

/// The view times (milliseconds) from which the seven- and thirty-day view
/// counts are taken.
pub fn view_window_cutoffs(now_ms: i64) -> (r: (i64, i64))
    requires
        now_ms - 30 * MS_PER_DAY >= i64::MIN,
    ensures
        r.0 == now_ms - 7 * MS_PER_DAY,
        r.1 == now_ms - 30 * MS_PER_DAY,
{
    (now_ms - 7 * MS_PER_DAY, now_ms - 30 * MS_PER_DAY)
}

/// The view time (milliseconds) from which a trend over the last `days`
/// days is counted.
pub fn view_trend_cutoff(now_ms: i64, days: i64) -> (r: i64)
    requires
        i64::MIN <= days * MS_PER_DAY <= i64::MAX,
        i64::MIN <= now_ms - days * MS_PER_DAY <= i64::MAX,
    ensures
        r == now_ms - days * MS_PER_DAY,
{
    now_ms - days * MS_PER_DAY
}

} // verus!
