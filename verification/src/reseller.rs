//! Reseller relationships between a reseller and an external provider, and
//! the orders placed through them: commission bounds and how an update is
//! merged into the stored relationship.

use vstd::prelude::*;
use crate::text::{owned, i64_to_string, signed_decimal};

verus! {

/// A reseller's relationship with an external provider.
pub struct ResellerRelationship {
    pub id: i64,
    pub reseller_pubkey: Vec<u8>,
    pub external_provider_pubkey: Vec<u8>,
    pub commission_percent: i64,
    pub status: String,
    pub created_at_ns: i64,
    pub updated_at_ns: Option<i64>,
}

/// An order a reseller placed with an external provider.
pub struct ResellerOrder {
    pub id: i64,
    pub contract_id: Vec<u8>,
    pub reseller_pubkey: Vec<u8>,
    pub external_provider_pubkey: Vec<u8>,
    pub offering_id: i64,
    pub base_price_e9s: i64,
    pub commission_e9s: i64,
    pub total_paid_e9s: i64,
    pub external_order_id: Option<String>,
    pub external_order_details: Option<String>,
    pub status: String,
    pub created_at_ns: i64,
    pub fulfilled_at_ns: Option<i64>,
}

/// The largest commission a reseller may take, in percent.
pub const MAX_COMMISSION_PERCENT: i64 = 50;

/// Whether a commission lies in the accepted range, 0 to 50 percent.
pub open spec fn commission_in_range(pct: i64) -> bool {
    0 <= pct <= MAX_COMMISSION_PERCENT
}

/// The error for a commission outside the accepted range.
pub open spec fn commission_error_text(pct: i64) -> Seq<char> {
    "commission_percent must be between 0 and 50, got "@ + signed_decimal(pct as int)
}

/// Checks a commission percentage: accepted from 0 to 50 inclusive,
/// otherwise refused with a message that names it.
pub fn validate_commission_percent(pct: i64) -> (r: Result<(), String>)
    ensures
        commission_in_range(pct) ==> r is Ok,
        !commission_in_range(pct) ==> (r matches Err(e) && e@ == commission_error_text(pct)),
{
    if 0 <= pct && pct <= MAX_COMMISSION_PERCENT {
        Ok(())
    } else {
        let mut m = owned("commission_percent must be between 0 and 50, got ");
        let n = i64_to_string(pct);
        m.append(n.as_str());
        Err(m)
    }
}

/// The status a new relationship starts in.
pub open spec fn initial_status() -> Seq<char> {
    "active"@
}

/// The status of a newly created relationship.
pub fn new_relationship_status() -> (r: String)
    ensures
        r@ == initial_status(),
{
    owned("active")
}

/// The commission and status a relationship has after an update: each field
/// the update sets replaces the stored one, the others stay.
pub open spec fn merged_update(
    current_commission: i64,
    current_status: Seq<char>,
    commission: Option<i64>,
    status: Option<Seq<char>>,
) -> (i64, Seq<char>) {
    (
        match commission { Some(c) => c, None => current_commission },
        match status { Some(s) => s, None => current_status },
    )
}

/// Merges an update into the stored relationship's commission and status.
/// A commission outside the accepted range refuses the whole update.
pub fn merge_relationship_update(
    current_commission: i64,
    current_status: &str,
    commission: Option<i64>,
    status: Option<&str>,
) -> (r: Result<(i64, String), String>)
    ensures
        match commission {
            Some(c) if !commission_in_range(c) => r matches Err(e) && e@ == commission_error_text(c),
            _ => r matches Ok((c, s)) && (c, s@) == merged_update(
                current_commission,
                current_status@,
                commission,
                match status { Some(x) => Some(x@), None => None },
            ),
        },
{
    if let Some(pct) = commission {
        match validate_commission_percent(pct) {
            Ok(()) => {},
            Err(e) => return Err(e),
        }
    }
    let c = match commission {
        Some(x) => x,
        None => current_commission,
    };
    let s = match status {
        Some(x) => owned(x),
        None => owned(current_status),
    };
    Ok((c, s))
}

/// An update that sets nothing leaves the relationship as it was, and one
/// that sets both fields gives exactly what it sets.
pub proof fn lemma_update_merge(current_commission: i64, current_status: Seq<char>, c: i64, s: Seq<char>)
    ensures
        merged_update(current_commission, current_status, None, None) == (current_commission, current_status),
        merged_update(current_commission, current_status, Some(c), Some(s)) == (c, s),
        merged_update(current_commission, current_status, Some(c), None).1 == current_status,
        merged_update(current_commission, current_status, None, Some(s)).0 == current_commission,
{
}

/// The error when no relationship matches the two keys.
pub open spec fn relationship_not_found_text() -> Seq<char> {
    "Reseller relationship not found"@
}

/// The error when no order matches the contract.
pub open spec fn order_not_found_text() -> Seq<char> {
    "Reseller order not found"@
}

/// The outcome of an update or delete that touched `rows_affected` rows:
/// none means that no relationship matched.
pub fn relationship_rows_result(rows_affected: u64) -> (r: Result<(), String>)
    ensures
        rows_affected == 0 ==> (r matches Err(e) && e@ == relationship_not_found_text()),
        rows_affected != 0 ==> r is Ok,
{
    if rows_affected == 0 {
        Err(owned("Reseller relationship not found"))
    } else {
        Ok(())
    }
}

/// The outcome of fulfilling an order that touched `rows_affected` rows:
/// none means that no order belongs to the contract.
pub fn order_rows_result(rows_affected: u64) -> (r: Result<(), String>)
    ensures
        rows_affected == 0 ==> (r matches Err(e) && e@ == order_not_found_text()),
        rows_affected != 0 ==> r is Ok,
{
    if rows_affected == 0 {
        Err(owned("Reseller order not found"))
    } else {
        Ok(())
    }
}

/// The commission bounds and the fixed texts of reseller records: a
/// commission is accepted from 0 to 50 percent inclusive and nowhere else;
/// a partial update sets exactly the field it names; new relationships start
/// "active"; and the not-found errors have fixed messages.
pub proof fn lemma_reseller_rules(pct: i64, current_commission: i64, current_status: Seq<char>, c: i64, s: Seq<char>)
    ensures
        commission_in_range(pct) <==> 0 <= pct <= 50,
        merged_update(current_commission, current_status, Some(c), None) == (c, current_status),
        merged_update(current_commission, current_status, None, Some(s)) == (current_commission, s),
        initial_status() == "active"@,
        relationship_not_found_text() == "Reseller relationship not found"@,
        order_not_found_text() == "Reseller order not found"@,
{
}

} // verus!
