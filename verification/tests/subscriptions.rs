use dcc_api_core::subscriptions::{
    account_subscription, effective_plan_id, features_or_empty, subscription_has_feature,
    AccountSubscriptionRow, SubscriptionEventInput, SubscriptionPlan,
};

fn plan(features: Option<&str>) -> SubscriptionPlan {
    SubscriptionPlan {
        id: "pro".to_string(),
        name: "Pro".to_string(),
        description: None,
        stripe_price_id: Some("price_123".to_string()),
        monthly_price_cents: 1999,
        trial_days: 14,
        features: features.map(|f| f.to_string()),
    }
}

fn empty_row() -> AccountSubscriptionRow {
    AccountSubscriptionRow {
        subscription_plan_id: None,
        subscription_status: None,
        subscription_stripe_id: None,
        subscription_current_period_end: None,
        subscription_cancel_at_period_end: None,
    }
}

#[test]
fn plan_features_parse_from_json() {
    let p = plan(Some(r#"["marketplace_browse","priority_support"]"#));
    assert_eq!(p.features_list(), vec!["marketplace_browse".to_string(), "priority_support".to_string()]);
}

#[test]
fn plan_features_default_to_none() {
    assert!(plan(None).features_list().is_empty());
    assert!(plan(Some("not json")).features_list().is_empty());
    assert!(plan(Some(r#"{"a":1}"#)).features_list().is_empty());
    assert!(plan(Some("[1,2]")).features_list().is_empty());
    assert!(features_or_empty(None).is_empty());
    assert_eq!(features_or_empty(Some(vec!["x".to_string()])), vec!["x".to_string()]);
}

#[test]
fn account_without_subscription_gets_free_plan() {
    let row = empty_row();
    assert_eq!(effective_plan_id(&row), "free");
    let sub = account_subscription(&row, None);
    assert_eq!(sub.plan_id, "free");
    assert_eq!(sub.plan_name, "Free");
    assert_eq!(sub.status, "active");
    assert_eq!(sub.features, vec!["marketplace_browse".to_string()]);
    assert!(!sub.cancel_at_period_end);
    assert_eq!(sub.stripe_subscription_id, None);
    assert!(subscription_has_feature(&sub, "marketplace_browse"));
    assert!(!subscription_has_feature(&sub, "priority_support"));
}

#[test]
fn account_subscription_takes_stored_fields_and_plan() {
    let row = AccountSubscriptionRow {
        subscription_plan_id: Some("pro".to_string()),
        subscription_status: Some("trialing".to_string()),
        subscription_stripe_id: Some("sub_1".to_string()),
        subscription_current_period_end: Some(1_700_000_000),
        subscription_cancel_at_period_end: Some(true),
    };
    let p = plan(Some(r#"["priority_support"]"#));
    let sub = account_subscription(&row, Some(&p));
    assert_eq!(sub.plan_id, "pro");
    assert_eq!(sub.plan_name, "Pro");
    assert_eq!(sub.status, "trialing");
    assert_eq!(sub.stripe_subscription_id.as_deref(), Some("sub_1"));
    assert_eq!(sub.current_period_end, Some(1_700_000_000));
    assert!(sub.cancel_at_period_end);
    assert_eq!(sub.features, vec!["priority_support".to_string()]);
    assert!(subscription_has_feature(&sub, "priority_support"));
}

#[test]
fn lapsed_subscriptions_grant_nothing() {
    let row = AccountSubscriptionRow {
        subscription_plan_id: Some("pro".to_string()),
        subscription_status: Some("past_due".to_string()),
        subscription_stripe_id: None,
        subscription_current_period_end: None,
        subscription_cancel_at_period_end: None,
    };
    let p = plan(Some(r#"["priority_support"]"#));
    let sub = account_subscription(&row, Some(&p));
    assert!(!subscription_has_feature(&sub, "priority_support"));
    let canceled = AccountSubscriptionRow { subscription_status: Some("canceled".to_string()), ..row };
    let sub = account_subscription(&canceled, None);
    assert!(!subscription_has_feature(&sub, "marketplace_browse"));
}

#[test]
fn event_input_carries_borrowed_fields() {
    let input = SubscriptionEventInput {
        event_type: "subscription_created",
        stripe_event_id: Some("evt_1"),
        old_plan_id: None,
        new_plan_id: Some("pro"),
        stripe_subscription_id: Some("sub_1"),
        stripe_invoice_id: None,
        amount_cents: Some(1999),
        metadata: None,
    };
    assert_eq!(input.event_type, "subscription_created");
    assert_eq!(input.amount_cents, Some(1999));
}

fn catalogue_plan(id: &str, name: &str, features: &str) -> SubscriptionPlan {
    SubscriptionPlan {
        id: id.to_string(),
        name: name.to_string(),
        description: None,
        stripe_price_id: None,
        monthly_price_cents: 0,
        trial_days: 0,
        features: Some(features.to_string()),
    }
}

#[test]
fn free_and_pro_plan_features() {
    let free = catalogue_plan("free", "Free", r#"["marketplace_browse","one_rental"]"#);
    let pro = catalogue_plan(
        "pro",
        "Pro",
        r#"["marketplace_browse","unlimited_rentals","priority_support","api_access"]"#,
    );
    let row = empty_row();
    let free_sub = account_subscription(&row, Some(&free));
    assert!(subscription_has_feature(&free_sub, "one_rental"));
    assert!(subscription_has_feature(&free_sub, "marketplace_browse"));
    assert!(!subscription_has_feature(&free_sub, "unlimited_rentals"));
    let upgraded = AccountSubscriptionRow {
        subscription_plan_id: Some("pro".to_string()),
        subscription_status: Some("active".to_string()),
        ..empty_row()
    };
    let pro_sub = account_subscription(&upgraded, Some(&pro));
    assert!(subscription_has_feature(&pro_sub, "unlimited_rentals"));
    assert!(subscription_has_feature(&pro_sub, "marketplace_browse"));
    assert!(!subscription_has_feature(&pro_sub, "one_rental"));
    assert_eq!(pro.features_list().len(), 4);
}
