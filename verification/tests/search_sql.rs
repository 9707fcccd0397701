use dcc_api_core::search_sql::{
    check_all_owned, listed_page, owned_ids_sql, page_placeholders, placeholder_list,
    query_where_clause, search_fetch_limit, search_filter_clauses, search_filter_sql,
    stock_update_sql, text_search_pattern, SearchFilters,
};

const ORDER: &str = " ORDER BY p.reliability_score DESC NULLS LAST, p.trust_score DESC NULLS LAST, o.monthly_price ASC, o.id ASC LIMIT ";

fn filters(
    product_type: bool,
    country: bool,
    in_stock_only: bool,
    has_recipe: bool,
    text_search: bool,
    min_price: bool,
    max_price: bool,
) -> SearchFilters {
    SearchFilters { product_type, country, in_stock_only, has_recipe, text_search, min_price, max_price }
}

#[test]
fn search_without_filters_pages_from_three() {
    let (sql, last) = search_filter_sql(&filters(false, false, false, false, false, false, false));
    assert_eq!(last, 2);
    assert_eq!(sql, format!("{}$3 OFFSET $4", ORDER));
}

#[test]
fn search_filters_are_numbered_in_order() {
    let f = filters(true, false, true, true, true, false, true);
    let (clauses, last) = search_filter_clauses(&f);
    assert_eq!(last, 6);
    assert_eq!(
        clauses,
        " AND o.product_type = $3 AND o.stock_status = $4 AND o.post_provision_script IS NOT NULL AND (o.offer_name ILIKE $5 OR o.description ILIKE $5 OR o.product_type ILIKE $5) AND o.monthly_price <= $6"
    );
    let (sql, _) = search_filter_sql(&f);
    assert_eq!(sql, format!("{}{}$7 OFFSET $8", clauses, ORDER));
}

#[test]
fn all_search_filters() {
    let (sql, last) = search_filter_sql(&filters(true, true, true, true, true, true, true));
    assert_eq!(last, 8);
    assert!(sql.starts_with(" AND o.product_type = $3 AND o.datacenter_country = $4 AND o.stock_status = $5"));
    assert!(sql.contains("ILIKE $6)"));
    assert!(sql.contains(" AND o.monthly_price >= $7 AND o.monthly_price <= $8"));
    assert!(sql.ends_with("LIMIT $9 OFFSET $10"));
}

#[test]
fn text_search_matches_anywhere() {
    assert_eq!(text_search_pattern("gpu"), "%gpu%");
}

#[test]
fn fetches_three_pages_to_filter() {
    assert_eq!(search_fetch_limit(20), 60);
}

#[test]
fn page_keeps_listed_offerings_up_to_limit() {
    let listed = [true, false, true, true, false, true];
    assert_eq!(listed_page(&listed, 10), vec![0, 2, 3, 5]);
    assert_eq!(listed_page(&listed, 2), vec![0, 2]);
    assert_eq!(listed_page(&listed, 0), Vec::<usize>::new());
    assert_eq!(listed_page(&[], 3), Vec::<usize>::new());
}

#[test]
fn query_conditions_are_wrapped() {
    assert_eq!(query_where_clause(""), "WHERE LOWER(o.visibility) = 'public' AND o.is_draft = FALSE");
    assert_eq!(
        query_where_clause("o.gpu_count >= $3"),
        "WHERE LOWER(o.visibility) = 'public' AND o.is_draft = FALSE AND (o.gpu_count >= $3)"
    );
    assert_eq!(page_placeholders(2), format!("{}$5 OFFSET $6", ORDER));
}

#[test]
fn placeholder_lists() {
    assert_eq!(placeholder_list(1, 3), "$1,$2,$3");
    assert_eq!(placeholder_list(2, 1), "$2");
    assert_eq!(placeholder_list(5, 0), "");
    assert_eq!(placeholder_list(9, 3), "$9,$10,$11");
}

#[test]
fn bulk_queries() {
    assert_eq!(
        owned_ids_sql("SELECT COUNT(*) as count FROM provider_offerings WHERE id IN (", 2),
        "SELECT COUNT(*) as count FROM provider_offerings WHERE id IN ($1,$2) AND pubkey = $3"
    );
    assert_eq!(stock_update_sql(3), "UPDATE provider_offerings SET stock_status = $1 WHERE id IN ($2,$3,$4)");
    assert_eq!(check_all_owned(2, 2), Ok(()));
    assert_eq!(
        check_all_owned(1, 2),
        Err("Not all offerings belong to this provider or some IDs are invalid".to_string())
    );
}

#[test]
fn page_holds_only_listed_offerings_in_order() {
    let listed = [false, true, true, false, true, true, true];
    for limit in 0..9usize {
        let page = listed_page(&listed, limit);
        assert!(page.len() <= limit);
        assert!(page.iter().all(|&i| listed[i]));
        assert!(page.windows(2).all(|w| w[0] < w[1]));
        if page.len() < limit {
            assert_eq!(page.len(), listed.iter().filter(|&&b| b).count());
        }
    }
}
