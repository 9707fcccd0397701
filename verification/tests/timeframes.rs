use dcc_api_core::timeframes::{
    active_since_ns, capped_limit, heartbeat_cutoff_ns, tracking_cleanup_cutoff, trust_windows, validator_windows,
    HEARTBEAT_WINDOW_NS, SHORT_LIST_CAP,
};

const DAY: i64 = 86_400_000_000_000;

#[test]
fn active_window_is_at_least_a_day() {
    assert_eq!(active_since_ns(100 * DAY, 30), 70 * DAY);
    assert_eq!(active_since_ns(100 * DAY, 0), 99 * DAY);
    assert_eq!(active_since_ns(100 * DAY, -5), 99 * DAY);
    assert!(active_since_ns(100 * DAY, 10) <= active_since_ns(100 * DAY, 5));
}

#[test]
fn validator_check_in_windows() {
    let w = validator_windows(100 * DAY, 2);
    assert_eq!(w.active_since_ns, 98 * DAY);
    assert_eq!(w.since_24h_ns, 99 * DAY);
    assert_eq!(w.since_7d_ns, 93 * DAY);
    assert_eq!(w.since_30d_ns, 70 * DAY);
}

#[test]
fn heartbeat_window_is_five_minutes() {
    assert_eq!(HEARTBEAT_WINDOW_NS, 5 * 60 * 1_000_000_000);
    assert_eq!(heartbeat_cutoff_ns(HEARTBEAT_WINDOW_NS + 1), 1);
}

#[test]
fn short_lists_hold_at_most_ten() {
    assert_eq!(SHORT_LIST_CAP, 10);
    assert_eq!(capped_limit(2), 2);
    assert_eq!(capped_limit(10), 10);
    assert_eq!(capped_limit(50), 10);
    assert_eq!(capped_limit(-1), -1);
}

#[test]
fn tracking_cleanup_counts_days_in_seconds() {
    assert_eq!(tracking_cleanup_cutoff(1_000_000, 7), 1_000_000 - 7 * 86_400);
}

#[test]
fn trust_metric_windows() {
    let hour: i64 = 3_600_000_000_000;
    let w = trust_windows(100 * DAY);
    assert_eq!(w.since_90d_ns, 10 * DAY);
    assert_eq!(w.since_72h_ns, 97 * DAY);
    assert_eq!(w.since_72h_ns, 100 * DAY - 72 * hour);
    assert_eq!(w.since_7d_ns, 93 * DAY);
    assert_eq!(w.since_30d_ns, 70 * DAY);
    assert_eq!(w.since_31d_ns, 69 * DAY);
}
