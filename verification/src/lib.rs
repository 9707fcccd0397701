//! Verified core of the marketplace API: offering tiers and suggestions,
//! provider trust scoring, refund gating and the other decisions that the
//! database layer makes around its queries.

pub mod text;
pub mod float_text;
pub mod tiers;
pub mod trust;
pub mod refunds;
pub mod hexcodec;
pub mod offering_rules;
pub mod csv_import;
pub mod providers;
pub mod recovery;
pub mod reseller;
pub mod subscriptions;
pub mod stats;
pub mod ledger;
pub mod timeframes;
pub mod search_sql;
