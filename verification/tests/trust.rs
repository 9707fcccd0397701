use dcc_api_core::trust::{
    calculate_trust_score_and_flags, days_since_last_activity, is_new_provider, provider_tenure,
    stuck_contract_dollars, trust_flag_message, trust_flags_of, trust_score_of, ProviderTenure,
    RateFigures, TrustFlag, TrustSignals,
};

/// The library takes the threshold tests on the floating-point metrics as
/// booleans and their whole-number renderings as text; this helper makes
/// them from the same metrics the score is computed from.
#[allow(clippy::too_many_arguments)]
fn inputs(
    early_cancellation_rate_pct: Option<f64>,
    provisioning_failure_rate_pct: Option<f64>,
    rejection_rate_pct: Option<f64>,
    avg_response_time_hours: Option<f64>,
    negative_reputation_90d: i64,
    stuck_contracts_value_e9s: i64,
    days_since_last_checkin: i64,
    has_active_contracts: bool,
    repeat_customer_count: i64,
    completion_rate_pct: f64,
    has_contact_info: bool,
) -> (TrustSignals, RateFigures) {
    let above = |v: Option<f64>, t: f64| v.map(|x| x > t).unwrap_or(false);
    let figure = |v: Option<f64>| v.map(|x| format!("{:.0}", x)).unwrap_or_default();
    let signals = TrustSignals {
        early_cancellation_rate_high: above(early_cancellation_rate_pct, 20.0),
        provisioning_failure_rate_high: above(provisioning_failure_rate_pct, 15.0),
        rejection_rate_high: above(rejection_rate_pct, 30.0),
        slow_response: above(avg_response_time_hours, 48.0),
        fast_response: avg_response_time_hours.map(|h| h < 4.0).unwrap_or(false),
        negative_reputation_90d,
        stuck_contracts_value_e9s,
        days_since_last_checkin,
        has_active_contracts,
        repeat_customer_count,
        high_completion_rate: completion_rate_pct > 95.0,
        has_contact_info,
    };
    let figures = RateFigures {
        early_cancellation_pct: figure(early_cancellation_rate_pct),
        provisioning_failure_pct: figure(provisioning_failure_rate_pct),
        rejection_pct: figure(rejection_rate_pct),
        response_hours: figure(avg_response_time_hours),
    };
    (signals, figures)
}

#[allow(clippy::too_many_arguments)]
fn score(
    early_cancellation_rate_pct: Option<f64>,
    provisioning_failure_rate_pct: Option<f64>,
    rejection_rate_pct: Option<f64>,
    avg_response_time_hours: Option<f64>,
    negative_reputation_90d: i64,
    stuck_contracts_value_e9s: i64,
    days_since_last_checkin: i64,
    has_active_contracts: bool,
    repeat_customer_count: i64,
    completion_rate_pct: f64,
    has_contact_info: bool,
) -> (i64, bool, Vec<String>) {
    let (signals, figures) = inputs(
        early_cancellation_rate_pct,
        provisioning_failure_rate_pct,
        rejection_rate_pct,
        avg_response_time_hours,
        negative_reputation_90d,
        stuck_contracts_value_e9s,
        days_since_last_checkin,
        has_active_contracts,
        repeat_customer_count,
        completion_rate_pct,
        has_contact_info,
    );
    calculate_trust_score_and_flags(&signals, &figures)
}

#[test]
fn test_trust_score_perfect_provider() {
    let (score, has_flags, flags) = score(
        Some(0.0), // no early cancellations
        Some(0.0), // no provisioning failures
        Some(0.0), // no rejections
        Some(2.0), // 2 hour response time (fast!)
        0,         // no negative reputation
        0,         // no stuck contracts
        1,         // active yesterday
        false,     // no active contracts
        15,        // 15 repeat customers (bonus!)
        98.0,      // 98% completion rate (bonus!)
        true,      // has contact info
    );

    // Base 100 + 5 (repeat customers) + 5 (completion rate) + 5 (fast response) = 115, clamped to 100
    assert_eq!(score, 100);
    assert!(!has_flags);
    assert!(flags.is_empty());
}

#[test]
fn test_trust_score_high_early_cancellation() {
    let (score, has_flags, flags) = score(
        Some(25.0), // 25% early cancellation rate (>20% threshold)
        Some(0.0),
        Some(0.0),
        Some(10.0),
        0,
        0,
        1,
        false,
        0,
        50.0,
        true, // has contact info
    );

    // Base 100 - 25 (early cancellation penalty) = 75
    assert_eq!(score, 75);
    assert!(has_flags);
    assert_eq!(flags.len(), 1);
    assert!(flags[0].contains("early cancellation"));
}

#[test]
fn test_trust_score_provisioning_failure() {
    let (score, has_flags, flags) = score(
        None,
        Some(20.0), // 20% provisioning failure (>15% threshold)
        Some(0.0),
        Some(10.0),
        0,
        0,
        1,
        false,
        0,
        50.0,
        true, // has contact info
    );

    // Base 100 - 20 (provisioning failure penalty) = 80
    assert_eq!(score, 80);
    assert!(has_flags);
    assert_eq!(flags.len(), 1);
    assert!(flags[0].contains("Provisioning failures"));
}

#[test]
fn test_trust_score_slow_response() {
    let (score, has_flags, flags) = score(
        None,
        None,
        None,
        Some(72.0), // 72 hours response time (>48h threshold)
        0,
        0,
        1,
        false,
        0,
        50.0,
        true, // has contact info
    );

    // Base 100 - 15 (slow response penalty) = 85
    assert_eq!(score, 85);
    assert!(has_flags);
    assert_eq!(flags.len(), 1);
    assert!(flags[0].contains("Slow response"));
}

#[test]
fn test_trust_score_ghost_risk() {
    let (score, has_flags, flags) = score(
        None, None, None, None, 0, 0, 14,   // 14 days since last check-in
        true, // HAS active contracts
        0, 50.0, true, // has contact info
    );

    // Base 100 - 10 (ghost risk penalty) = 90
    assert_eq!(score, 90);
    assert!(has_flags);
    assert_eq!(flags.len(), 1);
    assert!(flags[0].contains("Ghost risk"));
    assert!(flags[0].contains("14 days since last activity"));
}

#[test]
fn test_trust_score_ghost_risk_never_checked_in() {
    // -1 means provider never checked in
    let (score, has_flags, flags) = score(
        None, None, None, None, 0, 0, -1,   // never checked in
        true, // HAS active contracts
        0, 50.0, true,
    );

    // Base 100 - 10 (ghost risk penalty) = 90
    assert_eq!(score, 90);
    assert!(has_flags);
    assert_eq!(flags.len(), 1);
    assert!(flags[0].contains("Ghost risk"));
    assert!(flags[0].contains("no platform activity"));
}

#[test]
fn test_trust_score_negative_reputation() {
    let (score, has_flags, flags) = score(
        None, None, None, None, -75, // -75 reputation points in 90 days (<-50 threshold)
        0, 1, false, 0, 50.0, true, // has contact info
    );

    // Base 100 - 15 (negative reputation penalty) = 85
    assert_eq!(score, 85);
    assert!(has_flags);
    assert_eq!(flags.len(), 1);
    assert!(flags[0].contains("Negative reputation"));
}

#[test]
fn test_trust_score_multiple_flags() {
    let (score, has_flags, flags) = score(
        Some(30.0),         // high early cancellation
        Some(25.0),         // high provisioning failure
        Some(40.0),         // high rejection rate
        Some(60.0),         // slow response
        -100,               // very negative reputation
        10_000_000_000_000, // $10k stuck (>$5k threshold)
        10,                 // 10 days inactive
        true,               // with active contracts (ghost risk)
        0,
        30.0,
        false, // no contact info (adds 8th flag)
    );

    // All penalties: -25 -20 -15 -15 -15 -10 -10 -10 = -120, clamped to 0
    assert_eq!(score, 0);
    assert!(has_flags);
    assert_eq!(flags.len(), 8); // All 8 flags triggered (including no contact)
}

#[test]
fn test_trust_score_bonuses() {
    let (score, has_flags, flags) = score(
        Some(5.0),  // low early cancellation (no penalty)
        Some(5.0),  // low provisioning failure (no penalty)
        Some(10.0), // low rejection rate (no penalty)
        Some(2.0),  // fast response (<4h = bonus!)
        0,
        0,
        1,
        false,
        20,   // lots of repeat customers (bonus!)
        99.0, // high completion rate (bonus!)
        true, // has contact info
    );

    // Base 100 + 5 + 5 + 5 = 115, clamped to 100
    assert_eq!(score, 100);
    assert!(!has_flags);
    assert!(flags.is_empty());
}

#[test]
fn test_trust_score_no_contact_info() {
    let (score, has_flags, flags) = score(
        None, None, None, None, 0, 0, 1, false, 0, 50.0, false, // no contact info
    );

    // Base 100 - 10 (no contact info penalty) = 90
    assert_eq!(score, 90);
    assert!(has_flags);
    assert_eq!(flags.len(), 1);
    assert!(flags[0].contains("No contact info"));
}

#[test]
fn flag_messages_render_exactly() {
    let (_, _, flags) = score(
        Some(30.4),
        Some(25.0),
        Some(40.0),
        Some(60.0),
        -100,
        10_000_000_000_000,
        10,
        true,
        0,
        30.0,
        false,
    );
    assert_eq!(
        flags,
        vec![
            "High early cancellation rate: 30% of contracts cancelled quickly".to_string(),
            "Provisioning failures: 25% of accepted contracts never delivered".to_string(),
            "High rejection rate: 40% of requests rejected".to_string(),
            "Slow response time: average 60 hours to respond".to_string(),
            "Negative reputation trend: -100 points lost in 90 days".to_string(),
            "Ghost risk: 10 days since last activity with active contracts".to_string(),
            "Stuck contracts: ~$10000 in contracts without progress for >72h".to_string(),
            "No contact info: provider has no public contact methods".to_string(),
        ]
    );
}

#[test]
fn every_penalty_raises_its_flag() {
    // Law on concrete values: the penalty equals the sum of flag weights.
    let (signals, _) = inputs(Some(30.0), None, None, Some(60.0), 0, 0, 1, false, 0, 50.0, true);
    let flags = trust_flags_of(&signals);
    assert_eq!(flags, vec![TrustFlag::HighEarlyCancellation, TrustFlag::SlowResponse]);
    assert_eq!(trust_score_of(&signals), 100 - 25 - 15);
}

#[test]
fn worse_record_never_scores_higher() {
    let (good, _) = inputs(None, None, None, Some(2.0), 0, 0, 1, false, 20, 99.0, true);
    let (bad, _) = inputs(Some(25.0), None, None, Some(2.0), 0, 0, 1, false, 20, 99.0, true);
    assert!(trust_score_of(&bad) <= trust_score_of(&good));
    assert_eq!(trust_score_of(&good), 100);
    assert_eq!(trust_score_of(&bad), 90);
}

#[test]
fn ghost_risk_needs_more_than_seven_days() {
    let (seven, _) = inputs(None, None, None, None, 0, 0, 7, true, 0, 50.0, true);
    assert!(trust_flags_of(&seven).is_empty());
    let (eight, _) = inputs(None, None, None, None, 0, 0, 8, true, 0, 50.0, true);
    assert_eq!(trust_flags_of(&eight), vec![TrustFlag::GhostRisk { days: 8 }]);
    let (idle, _) = inputs(None, None, None, None, 0, 0, 30, false, 0, 50.0, true);
    assert!(trust_flags_of(&idle).is_empty());
}

#[test]
fn stuck_value_is_truncated_to_dollars() {
    assert_eq!(stuck_contract_dollars(5_000_999_999_999), 5000);
    assert_eq!(stuck_contract_dollars(-1_500_000_000), -1);
    let (at_limit, _) = inputs(None, None, None, None, 0, 5_000_999_999_999, 1, false, 0, 50.0, true);
    assert!(trust_flags_of(&at_limit).is_empty());
    let (over, _) = inputs(None, None, None, None, 0, 5_001_000_000_000, 1, false, 0, 50.0, true);
    assert_eq!(trust_flags_of(&over), vec![TrustFlag::StuckContracts { dollars: 5001 }]);
}

#[test]
fn single_flag_message() {
    let figures = RateFigures {
        early_cancellation_pct: String::new(),
        provisioning_failure_pct: String::new(),
        rejection_pct: String::new(),
        response_hours: String::new(),
    };
    assert_eq!(
        trust_flag_message(&TrustFlag::GhostRiskNoActivity, &figures),
        "Ghost risk: no platform activity recorded but has active contracts"
    );
}

#[test]
fn tenure_classes() {
    assert_eq!(provider_tenure(0), ProviderTenure::New);
    assert_eq!(provider_tenure(4), ProviderTenure::New);
    assert_eq!(provider_tenure(5), ProviderTenure::Growing);
    assert_eq!(provider_tenure(20), ProviderTenure::Growing);
    assert_eq!(provider_tenure(21), ProviderTenure::Established);
    assert_eq!(provider_tenure(21).as_str(), "established");
    assert_eq!(provider_tenure(3).as_str(), "new");
    assert!(is_new_provider(4));
    assert!(!is_new_provider(5));
}

#[test]
fn days_since_activity() {
    let day: i64 = 86_400_000_000_000;
    assert_eq!(days_since_last_activity(10 * day + 5, 3 * day), 7);
    assert_eq!(days_since_last_activity(10 * day, 0), -1);
    assert_eq!(days_since_last_activity(day - 1, 1), 0);
}
