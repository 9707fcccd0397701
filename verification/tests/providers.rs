use dcc_api_core::providers::{
    auto_accept_rule_matches, auto_accept_setting, chatwoot_resources, profile_rows_result,
    rule_not_found_message, sla_window_ns, uptime_percent, validate_duration_range, RuleLimits,
};

fn rule(min: Option<i64>, max: Option<i64>, enabled: bool) -> RuleLimits {
    RuleLimits { min_duration_hours: min, max_duration_hours: max, enabled }
}

#[test]
fn duration_range_must_not_be_inverted() {
    assert_eq!(validate_duration_range(Some(24), Some(168)), Ok(()));
    assert_eq!(validate_duration_range(Some(24), Some(24)), Ok(()));
    assert_eq!(validate_duration_range(None, Some(5)), Ok(()));
    assert_eq!(validate_duration_range(Some(500), None), Ok(()));
    let err = validate_duration_range(Some(100), Some(10)).unwrap_err();
    assert_eq!(err, "min_duration_hours (100) must not exceed max_duration_hours (10)");
    assert!(err.contains("must not exceed"));
}

#[test]
fn offering_without_rule_accepts_everything() {
    assert!(auto_accept_rule_matches(None, Some(1)));
    assert!(auto_accept_rule_matches(None, None));
}

#[test]
fn disabled_rule_accepts_nothing() {
    let r = rule(None, None, false);
    assert!(!auto_accept_rule_matches(Some(&r), Some(10)));
}

#[test]
fn enabled_rule_accepts_durations_within_bounds() {
    let r = rule(Some(24), Some(168), true);
    assert!(!auto_accept_rule_matches(Some(&r), Some(23)));
    assert!(auto_accept_rule_matches(Some(&r), Some(24)));
    assert!(auto_accept_rule_matches(Some(&r), Some(168)));
    assert!(!auto_accept_rule_matches(Some(&r), Some(169)));
    // An unknown duration counts as zero hours.
    assert!(!auto_accept_rule_matches(Some(&r), None));
    let open_ended = rule(None, Some(48), true);
    assert!(auto_accept_rule_matches(Some(&open_ended), None));
}

#[test]
fn auto_accept_defaults_on_without_profile() {
    assert!(auto_accept_setting(None));
    assert!(!auto_accept_setting(Some(false)));
    assert!(auto_accept_setting(Some(true)));
}

#[test]
fn uptime_is_whole_percent() {
    assert_eq!(uptime_percent(0, 0), 0);
    assert_eq!(uptime_percent(9, 10), 90);
    assert_eq!(uptime_percent(2, 3), 66);
    assert_eq!(uptime_percent(10, 10), 100);
}

#[test]
fn sla_window_in_nanoseconds() {
    assert_eq!(sla_window_ns(1), 3_600_000_000_000);
    assert_eq!(sla_window_ns(24), 86_400_000_000_000);
}

#[test]
fn chatwoot_resources_need_all_three() {
    assert_eq!(
        chatwoot_resources(Some(3), Some(4), Some("help".to_string())),
        Some((3, 4, "help".to_string()))
    );
    assert_eq!(chatwoot_resources(None, Some(4), Some("help".to_string())), None);
    assert_eq!(chatwoot_resources(Some(3), None, Some("help".to_string())), None);
    assert_eq!(chatwoot_resources(Some(3), Some(4), None), None);
}

#[test]
fn rule_and_profile_errors() {
    assert_eq!(rule_not_found_message(42), "Auto-accept rule 42 not found for this provider");
    assert_eq!(profile_rows_result(0), Err("Provider profile not found".to_string()));
    assert_eq!(profile_rows_result(1), Ok(()));
}

#[test]
fn enabled_rule_accepts_exactly_its_range() {
    let r = rule(Some(10), None, true);
    for h in [0i64, 9, 10, 11, 1000] {
        assert_eq!(auto_accept_rule_matches(Some(&r), Some(h)), h >= 10);
    }
}
