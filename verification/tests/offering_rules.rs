use dcc_api_core::offering_rules::{
    check_datacenter_country, duplicate_offering_id_message, price_change_body, price_change_direction,
    price_change_title, bytes_eq, check_duplicate_source, check_offering_owner, copy_offer_name,
    derive_provisioner_config, is_marketplace_listed, resolve_offering_pool,
    validate_offering_identity, PoolSummary,
};

fn pool(id: &str, name: &str, location: &str, online_count: i64) -> PoolSummary {
    PoolSummary {
        pool_id: id.to_string(),
        name: name.to_string(),
        location: location.to_string(),
        online_count,
    }
}

fn s(x: &str) -> Option<String> {
    Some(x.to_string())
}

#[test]
fn owner_check() {
    let me = [1u8, 2, 3];
    assert_eq!(check_offering_owner(None, &me), Err("Offering not found".to_string()));
    assert_eq!(
        check_offering_owner(Some(&[9u8, 9][..]), &me),
        Err("Unauthorized: You do not own this offering".to_string())
    );
    assert_eq!(check_offering_owner(Some(&me[..]), &me), Ok(()));
    assert!(bytes_eq(&me, &[1, 2, 3]));
    assert!(!bytes_eq(&me, &[1, 2]));
}

#[test]
fn duplicate_source_must_be_own_offering() {
    let me = [0xabu8, 0xcd];
    assert_eq!(check_duplicate_source(None, &me), Err("Source offering not found".to_string()));
    assert_eq!(
        check_duplicate_source(Some("zz"), &me),
        Err("Invalid pubkey hex in source offering".to_string())
    );
    assert_eq!(
        check_duplicate_source(Some("abc"), &me),
        Err("Invalid pubkey hex in source offering".to_string())
    );
    assert_eq!(check_duplicate_source(Some("abcd"), &me), Ok(()));
    assert_eq!(check_duplicate_source(Some("ABCD"), &me), Ok(()));
    assert_eq!(
        check_duplicate_source(Some("abce"), &me),
        Err("Unauthorized: You do not own this offering".to_string())
    );
}

#[test]
fn duplicated_offer_name() {
    assert_eq!(copy_offer_name("Basic VPS"), "Basic VPS (Copy)");
}

#[test]
fn identity_fields_are_required() {
    assert_eq!(validate_offering_identity("  ", "Name"), Err("offering_id is required".to_string()));
    assert_eq!(validate_offering_identity("id-1", "\t"), Err("offer_name is required".to_string()));
    assert_eq!(validate_offering_identity("", ""), Err("offering_id is required".to_string()));
    assert_eq!(validate_offering_identity(" id-1 ", " Name "), Ok(()));
}

#[test]
fn numeric_template_name_sets_template_vmid() {
    assert_eq!(derive_provisioner_config(&s("9000"), None), s("{\"template_vmid\":9000}"));
    assert_eq!(derive_provisioner_config(&s("+12"), None), s("{\"template_vmid\":12}"));
}

#[test]
fn given_configuration_or_other_template_names_stand() {
    assert_eq!(
        derive_provisioner_config(&s("9000"), s("{\"custom\":true}")),
        s("{\"custom\":true}")
    );
    // Non-numeric template_name should not generate provisioner_config
    assert_eq!(derive_provisioner_config(&s("ubuntu-22.04"), None), None);
    assert_eq!(derive_provisioner_config(&s("-1"), None), None);
    assert_eq!(derive_provisioner_config(&s("4294967296"), None), None);
    assert_eq!(derive_provisioner_config(&None, s("x")), s("x"));
    assert_eq!(derive_provisioner_config(&None, None), None);
}

#[test]
fn marketplace_listing_needs_pool_or_self_provisioning() {
    assert!(is_marketplace_listed(&s("pool-1"), &None));
    assert!(is_marketplace_listed(&None, &s("self_provisioned")));
    assert!(!is_marketplace_listed(&None, &s("seeded")));
    assert!(!is_marketplace_listed(&None, &None));
}

#[test]
fn self_provisioned_offerings_are_online() {
    let r = resolve_offering_pool(&s("self_provisioned"), &s("p1"), None, &[]);
    assert!(r.provider_online);
    assert_eq!(r.resolved, None);
}

#[test]
fn explicit_pool_resolves_by_id() {
    let pools = [pool("p1", "One", "europe", 0), pool("p2", "Two", "europe", 3)];
    let r = resolve_offering_pool(&None, &s("p2"), Some("na"), &pools);
    assert!(r.provider_online);
    assert_eq!(r.resolved, Some(("p2".to_string(), "Two".to_string())));
    let offline = resolve_offering_pool(&None, &s("p1"), None, &pools);
    assert!(!offline.provider_online);
    assert_eq!(offline.resolved, Some(("p1".to_string(), "One".to_string())));
    let missing = resolve_offering_pool(&None, &s("p9"), Some("europe"), &pools);
    assert!(!missing.provider_online);
    assert_eq!(missing.resolved, None);
}

#[test]
fn location_prefers_an_online_pool() {
    let pools = [
        pool("a", "A", "europe", 0),
        pool("b", "B", "europe", 2),
        pool("c", "C", "europe", 5),
        pool("d", "D", "na", 1),
    ];
    let r = resolve_offering_pool(&None, &None, Some("europe"), &pools);
    assert!(r.provider_online);
    assert_eq!(r.resolved, Some(("b".to_string(), "B".to_string())));
    let quiet = [pool("a", "A", "apac", 0), pool("b", "B", "apac", 0)];
    let r = resolve_offering_pool(&None, &None, Some("apac"), &quiet);
    assert!(!r.provider_online);
    assert_eq!(r.resolved, Some(("a".to_string(), "A".to_string())));
    let none = resolve_offering_pool(&None, &None, None, &pools);
    assert!(!none.provider_online);
    assert_eq!(none.resolved, None);
}

#[test]
fn datacenter_country_must_be_known_when_given() {
    assert_eq!(check_datacenter_country("", false), Ok(()));
    assert_eq!(check_datacenter_country("DE", true), Ok(()));
    assert_eq!(
        check_datacenter_country("XX", false),
        Err("Invalid datacenter_country 'XX': must be a valid ISO 3166-1 alpha-2 country code (e.g., US, DE, JP)".to_string())
    );
    assert_eq!(
        duplicate_offering_id_message("off-1"),
        "Offering with ID 'off-1' already exists for this provider"
    );
}

#[test]
fn own_key_in_hex_always_passes_the_duplicate_check() {
    for key in [vec![], vec![0u8], vec![0xde, 0xad, 0xbe, 0xef], (0u8..=255).collect::<Vec<u8>>()] {
        let encoded = hex::encode(&key);
        assert_eq!(check_duplicate_source(Some(&encoded), &key), Ok(()));
        assert_eq!(check_duplicate_source(Some(&encoded.to_uppercase()), &key), Ok(()));
    }
}

#[test]
fn price_change_notifications() {
    assert_eq!(price_change_direction(true), "down");
    assert_eq!(price_change_title(false), "Saved offering price up");
    assert_eq!(price_change_body("VPS", &[]), None);
    assert_eq!(
        price_change_body("VPS", &["monthly_price from USD 5.00 to USD 4.00".to_string()]),
        Some("VPS: monthly_price from USD 5.00 to USD 4.00.".to_string())
    );
    assert_eq!(
        price_change_body("VPS", &["a".to_string(), "b".to_string()]),
        Some("VPS pricing changed: a; b.".to_string())
    );
}

#[test]
fn online_offerings_have_a_live_pool() {
    let pools = [pool("a", "A", "europe", 0), pool("b", "B", "na", 2)];
    for (source, id, region) in [
        (None, Some("a"), None),
        (None, Some("b"), None),
        (None, None, Some("europe")),
        (None, None, Some("na")),
        (Some("seeded"), None, Some("na")),
    ] {
        let r = resolve_offering_pool(&source.map(String::from), &id.map(String::from), region, &pools);
        if r.provider_online {
            let (pid, _) = r.resolved.expect("online offerings resolve to a pool");
            assert!(pools.iter().any(|p| p.pool_id == pid && p.online_count > 0));
        }
    }
}

#[test]
fn blank_identity_of_spaces_is_rejected() {
    assert_eq!(validate_offering_identity("   ", "Test"), Err("offering_id is required".to_string()));
    assert_eq!(validate_offering_identity("id", "\u{3000}\u{a0}"), Err("offer_name is required".to_string()));
}
