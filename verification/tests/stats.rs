use dcc_api_core::stats::{
    account_search_patterns, active_provider_cutoff, platform_stats, view_trend_cutoff,
    view_window_cutoffs, AccountSearchResult, DailyViewTrend, OfferingAnalytics, ProviderStats,
    ReputationInfo,
};

#[test]
fn platform_without_transfers_has_no_volume() {
    let s = platform_stats(3, 2, 10, 4, 0, None);
    assert_eq!(s.total_providers, 3);
    assert_eq!(s.active_providers, 2);
    assert_eq!(s.total_offerings, 10);
    assert_eq!(s.total_contracts, 4);
    assert_eq!(s.total_transfers, 0);
    assert_eq!(s.total_volume_e9s, 0);
    assert_eq!(platform_stats(0, 0, 0, 0, 2, Some(1_500)).total_volume_e9s, 1_500);
}

#[test]
fn active_providers_checked_in_within_a_year() {
    let day: i64 = 86_400_000_000_000;
    assert_eq!(active_provider_cutoff(400 * day), 35 * day);
}

#[test]
fn account_search_patterns_fold_case() {
    let (name, key) = account_search_patterns("AbC");
    assert_eq!(name, "%abc%");
    assert_eq!(key, "ABC%");
    let (name, key) = account_search_patterns("");
    assert_eq!(name, "%%");
    assert_eq!(key, "%");
}

#[test]
fn view_windows_in_milliseconds() {
    let day: i64 = 86_400_000;
    assert_eq!(view_window_cutoffs(100 * day), (93 * day, 70 * day));
    assert_eq!(view_trend_cutoff(100 * day, 14), 86 * day);
}

#[test]
fn statistics_records_hold_their_counts() {
    let p = ProviderStats { total_contracts: 5, pending_contracts: 1, total_revenue_e9s: 9, offerings_count: 2 };
    assert!(p.pending_contracts <= p.total_contracts);
    let r = ReputationInfo { pubkey: vec![1, 2], total_reputation: -3, change_count: 2 };
    assert_eq!(r.change_count, 2);
    let a = AccountSearchResult {
        username: "alice".to_string(),
        display_name: None,
        pubkey: "ab".to_string(),
        reputation_score: 0,
        contract_count: 1,
        offering_count: 0,
    };
    assert_eq!(a.username, "alice");
    let o = OfferingAnalytics { views_7d: 1, views_30d: 3, unique_viewers_7d: 1, unique_viewers_30d: 2 };
    assert!(o.views_7d <= o.views_30d);
    let d = DailyViewTrend { day: "2024-01-02".to_string(), views: 4, unique_viewers: 3 };
    assert_eq!(d.day, "2024-01-02");
}
