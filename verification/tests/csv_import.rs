use dcc_api_core::csv_import::{
    apply_source_override, check_row_agent_pool, csv_row_number, parse_csv_record,
    prepare_csv_import, row_needs_pool_check, CsvColumns,
};

const HEADER: &str = "offering_id,offer_name,description,currency,monthly_price,setup_fee,visibility,product_type,billing_interval,billing_unit,is_subscription,stock_status,processor_cores,unmetered_bandwidth,datacenter_country,datacenter_city,datacenter_latitude,payment_methods,features,is_draft,product_page_url,agent_pool_id";

#[test]
fn rows_become_offering_fields() {
    let csv = format!(
        "{}\noff-1,Basic VPS, fast box ,USD,9.99,0,public,compute,monthly,,YES,in_stock, 4 ,1,DE,Berlin,52.5,\"BTC, ,ICP\", ssd ,no,https://example.com/p,pool-1\n",
        HEADER
    );
    let rows = prepare_csv_import(&csv, None).unwrap();
    assert_eq!(rows.len(), 1);
    let o = rows[0].as_ref().unwrap();
    assert_eq!(o.offering_id, "off-1");
    assert_eq!(o.offer_name, "Basic VPS");
    assert_eq!(o.description.as_deref(), Some("fast box"));
    assert_eq!(o.currency, "USD");
    assert_eq!(o.monthly_price_text, "9.99");
    assert_eq!(o.setup_fee_text, "0");
    assert_eq!(o.billing_unit, "month");
    assert!(o.is_subscription);
    assert_eq!(o.processor_cores, Some(4));
    assert!(o.unmetered_bandwidth);
    assert_eq!(o.datacenter_latitude_text.as_deref(), Some("52.5"));
    assert_eq!(o.datacenter_longitude_text, None);
    assert_eq!(o.payment_methods.as_deref(), Some("BTC,ICP"));
    assert_eq!(o.features.as_deref(), Some("ssd"));
    assert_eq!(o.operating_systems, None);
    assert!(!o.is_draft);
    assert_eq!(o.agent_pool_id.as_deref(), Some("pool-1"));
    assert_eq!(o.offering_source, None);
}

#[test]
fn rows_missing_required_fields_are_reported() {
    let csv = format!(
        "{}\n,Name,,USD,1,0,public,compute,monthly,month,false,in_stock,,,DE,Berlin,,,,,,\noff-2, ,,USD,1,0,public,compute,monthly,month,false,in_stock,,,DE,Berlin,,,,,,\n",
        HEADER
    );
    let rows = prepare_csv_import(&csv, None).unwrap();
    assert_eq!(rows.len(), 2);
    assert_eq!(rows[0].as_ref().err().map(|e| e.as_str()), Some("offering_id is required"));
    assert_eq!(rows[1].as_ref().err().map(|e| e.as_str()), Some("offer_name is required"));
    assert_eq!(csv_row_number(0), 2);
    assert_eq!(csv_row_number(1), 3);
}

#[test]
fn malformed_record_is_a_row_error() {
    let csv = format!("{}\noff-1,Name\n", HEADER);
    let rows = prepare_csv_import(&csv, None).unwrap();
    assert_eq!(rows.len(), 1);
    assert!(rows[0].as_ref().err().unwrap().starts_with("CSV parse error: "));
}

#[test]
fn seeded_source_links_checkout_to_product_page() {
    let csv = format!(
        "{}\noff-1,Basic,,USD,1,0,public,compute,monthly,month,false,in_stock,,,DE,Berlin,,,,,https://example.com/p,\n",
        HEADER
    );
    let rows = prepare_csv_import(&csv, Some("seeded")).unwrap();
    let o = rows[0].as_ref().unwrap();
    assert_eq!(o.offering_source.as_deref(), Some("seeded"));
    assert_eq!(o.external_checkout_url.as_deref(), Some("https://example.com/p"));
    let rows = prepare_csv_import(&csv, Some("provider")).unwrap();
    let o = rows.into_iter().next().unwrap().unwrap();
    assert_eq!(o.offering_source.as_deref(), Some("provider"));
    assert_eq!(o.external_checkout_url, None);
    let o = apply_source_override(o, None);
    assert_eq!(o.offering_source.as_deref(), Some("provider"));
}

fn strings(items: &[&str]) -> Vec<String> {
    items.iter().map(|s| s.to_string()).collect()
}

#[test]
fn headers_are_trimmed_and_missing_columns_default() {
    let columns = CsvColumns::from_headers(&strings(&[" offering_id ", "offer_name", "monthly_price", " setup_fee"]));
    let record = strings(&["x", "Y", " 12.5 ", "0"]);
    let o = parse_csv_record(&columns, &record).unwrap();
    assert_eq!(o.offering_id, "x");
    assert_eq!(o.currency, "");
    assert_eq!(o.monthly_price_text, "12.5");
    assert_eq!(o.setup_fee_text, "0");
    assert_eq!(o.billing_unit, "month");
    assert!(!o.is_subscription);
    assert_eq!(o.price_per_unit_text, None);
}

#[test]
fn missing_price_columns_are_reported_in_order() {
    let columns = CsvColumns::from_headers(&strings(&["offering_id", "offer_name"]));
    let r = parse_csv_record(&columns, &strings(&["x", "Y"]));
    assert_eq!(r.err(), Some("Missing column 'monthly_price'".to_string()));
    let columns = CsvColumns::from_headers(&strings(&["offering_id", "offer_name", "monthly_price"]));
    let r = parse_csv_record(&columns, &strings(&["x", "Y", "5"]));
    assert_eq!(r.err(), Some("Missing column 'setup_fee'".to_string()));
    // an invalid monthly price is reported before a missing setup fee
    let r = parse_csv_record(&columns, &strings(&["x", "Y", "abc"]));
    assert_eq!(r.err(), Some("Invalid number in column 'monthly_price'".to_string()));
    // required text fields come first
    let r = parse_csv_record(&columns, &strings(&["   ", "Y", "abc"]));
    assert_eq!(r.err(), Some("offering_id is required".to_string()));
}

#[test]
fn invalid_numbers_are_reported() {
    let columns = CsvColumns::from_headers(&strings(&["offering_id", "offer_name", "monthly_price", "setup_fee", "price_per_unit"]));
    let r = parse_csv_record(&columns, &strings(&["x", "Y", "1", "1,5", "2"]));
    assert_eq!(r.err(), Some("Invalid number in column 'setup_fee'".to_string()));
    let r = parse_csv_record(&columns, &strings(&["x", "Y", "", "1", "2"]));
    assert_eq!(r.err(), Some("Invalid number in column 'monthly_price'".to_string()));
    let o = parse_csv_record(&columns, &strings(&["x", "Y", "1e3", "-0.5", "lots"])).unwrap();
    assert_eq!(o.monthly_price_text, "1e3");
    assert_eq!(o.setup_fee_text, "-0.5");
    assert_eq!(o.price_per_unit_text, None);
}

#[test]
fn csv_rows_with_errors_are_numbered() {
    let csv = "offering_id,offer_name,description,product_page_url,currency,monthly_price,setup_fee,visibility,product_type,virtualization_type,billing_interval,stock_status,processor_brand,processor_amount,processor_cores,processor_speed,processor_name,memory_error_correction,memory_type,memory_amount,hdd_amount,total_hdd_capacity,ssd_amount,total_ssd_capacity,unmetered_bandwidth,uplink_speed,traffic,datacenter_country,datacenter_city,datacenter_latitude,datacenter_longitude,control_panel,gpu_name,min_contract_hours,max_contract_hours,payment_methods,features,operating_systems
off-1,Test Server,desc,,USD,100.0,0.0,public,dedicated,,monthly,in_stock,,,,,,,,,,,,,false,,,US,NYC,,,,,,,,,
,Missing ID,desc,,USD,100.0,0.0,public,dedicated,,monthly,in_stock,,,,,,,,,,,,,false,,,US,NYC,,,,,,,,,
off-3,,desc,,USD,100.0,0.0,public,dedicated,,monthly,in_stock,,,,,,,,,,,,,false,,,US,NYC,,,,,,,,,
off-4,Bad Price,desc,,USD,invalid,0.0,public,dedicated,,monthly,in_stock,,,,,,,,,,,,,false,,,US,NYC,,,,,,,,,";
    let rows = prepare_csv_import(csv, None).unwrap();
    assert_eq!(rows.len(), 4);
    assert!(rows[0].is_ok());
    assert_eq!(csv_row_number(1), 3);
    assert!(rows[1].as_ref().err().unwrap().contains("offering_id is required"));
    assert!(rows[2].as_ref().err().unwrap().contains("offer_name is required"));
    assert!(rows[3].as_ref().err().unwrap().contains("Invalid number"));
}

#[test]
fn column_order_does_not_matter() {
    let a = "offer_name,offering_id,currency,setup_fee,monthly_price,visibility,product_type,billing_interval,stock_status,datacenter_country,datacenter_city,unmetered_bandwidth
Reordered Server,reorder-1,USD,10.0,99.0,public,compute,monthly,in_stock,US,NYC,false";
    let b = "offering_id,offer_name,currency,monthly_price,setup_fee,visibility,product_type,billing_interval,stock_status,datacenter_country,datacenter_city,unmetered_bandwidth
reorder-1,Reordered Server,USD,99.0,10.0,public,compute,monthly,in_stock,US,NYC,false";
    let ra = prepare_csv_import(a, None).unwrap().into_iter().next().unwrap().unwrap();
    let rb = prepare_csv_import(b, None).unwrap().into_iter().next().unwrap().unwrap();
    for o in [&ra, &rb] {
        assert_eq!(o.offer_name, "Reordered Server");
        assert_eq!(o.monthly_price_text.parse::<f64>().unwrap(), 99.0);
        assert_eq!(o.setup_fee_text.parse::<f64>().unwrap(), 10.0);
        assert_eq!(o.datacenter_country, "US");
    }
    assert_eq!(ra.offering_id, rb.offering_id);
    assert_eq!(ra.currency, rb.currency);
}

#[test]
fn agent_pool_checks() {
    assert!(row_needs_pool_check(&Some("p".to_string())));
    assert!(!row_needs_pool_check(&Some(String::new())));
    assert!(!row_needs_pool_check(&None));
    let me = [0xabu8, 0x01];
    assert_eq!(check_row_agent_pool("p", Ok(Some("ab01".to_string())), &me), Ok(()));
    assert_eq!(
        check_row_agent_pool("p", Ok(Some("ff00".to_string())), &me),
        Err("Pool 'p' belongs to different provider".to_string())
    );
    assert_eq!(
        check_row_agent_pool("p", Ok(None), &me),
        Err("Pool 'p' does not exist".to_string())
    );
    assert_eq!(
        check_row_agent_pool("p", Err("db down".to_string()), &me),
        Err("Failed to validate agent_pool_id: db down".to_string())
    );
}
