use dcc_api_core::reseller::{
    merge_relationship_update, new_relationship_status, order_rows_result,
    relationship_rows_result, validate_commission_percent, ResellerOrder, ResellerRelationship,
};

#[test]
fn commission_bounds_are_inclusive() {
    assert_eq!(validate_commission_percent(0), Ok(()));
    assert_eq!(validate_commission_percent(50), Ok(()));
    assert_eq!(validate_commission_percent(10), Ok(()));
}

#[test]
fn commission_outside_bounds_is_refused_with_its_value() {
    assert_eq!(
        validate_commission_percent(51),
        Err("commission_percent must be between 0 and 50, got 51".to_string())
    );
    assert_eq!(
        validate_commission_percent(-1),
        Err("commission_percent must be between 0 and 50, got -1".to_string())
    );
}

#[test]
fn update_keeps_what_it_does_not_set() {
    assert_eq!(
        merge_relationship_update(15, "active", None, None),
        Ok((15, "active".to_string()))
    );
    assert_eq!(
        merge_relationship_update(15, "active", Some(20), None),
        Ok((20, "active".to_string()))
    );
    assert_eq!(
        merge_relationship_update(15, "active", None, Some("suspended")),
        Ok((15, "suspended".to_string()))
    );
    assert_eq!(
        merge_relationship_update(15, "active", Some(25), Some("inactive")),
        Ok((25, "inactive".to_string()))
    );
}

#[test]
fn update_with_bad_commission_is_refused_whole() {
    assert_eq!(
        merge_relationship_update(15, "active", Some(60), Some("inactive")),
        Err("commission_percent must be between 0 and 50, got 60".to_string())
    );
}

#[test]
fn missing_rows_are_reported() {
    assert_eq!(relationship_rows_result(0), Err("Reseller relationship not found".to_string()));
    assert_eq!(relationship_rows_result(1), Ok(()));
    assert_eq!(order_rows_result(0), Err("Reseller order not found".to_string()));
    assert_eq!(order_rows_result(3), Ok(()));
}

#[test]
fn new_relationships_start_active() {
    assert_eq!(new_relationship_status(), "active");
    let rel = ResellerRelationship {
        id: 1,
        reseller_pubkey: vec![1; 32],
        external_provider_pubkey: vec![2; 32],
        commission_percent: 10,
        status: new_relationship_status(),
        created_at_ns: 0,
        updated_at_ns: None,
    };
    assert_eq!(rel.status, "active");
    let order = ResellerOrder {
        id: 1,
        contract_id: vec![3; 32],
        reseller_pubkey: vec![1; 32],
        external_provider_pubkey: vec![2; 32],
        offering_id: 9,
        base_price_e9s: 100,
        commission_e9s: 10,
        total_paid_e9s: 110,
        external_order_id: None,
        external_order_details: None,
        status: "pending".to_string(),
        created_at_ns: 0,
        fulfilled_at_ns: None,
    };
    assert_eq!(order.base_price_e9s + order.commission_e9s, order.total_paid_e9s);
}
