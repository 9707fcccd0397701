//! Subscription plans and an account's subscription: the defaults an
//! account without a plan gets, the features a plan lists, and which
//! subscriptions grant a feature.

use vstd::prelude::*;
use crate::text::{owned, str_eq, views, opt_view, clone_opt};

verus! {

/// A subscription plan.
pub struct SubscriptionPlan {
    pub id: String,
    pub name: String,
    pub description: Option<String>,
    pub stripe_price_id: Option<String>,
    pub monthly_price_cents: i64,
    pub trial_days: i64,
    /// The plan's features, as a JSON array of strings.
    pub features: Option<String>,
}

/// An account's subscription as shown to the account.
pub struct AccountSubscription {
    pub plan_id: String,
    pub plan_name: String,
    pub status: String,
    pub stripe_subscription_id: Option<String>,
    pub current_period_end: Option<i64>,
    pub cancel_at_period_end: bool,
    pub features: Vec<String>,
}

/// A recorded subscription event (audit trail).
pub struct SubscriptionEvent {
    pub id: i64,
    pub account_id: Vec<u8>,
    pub event_type: String,
    pub stripe_event_id: Option<String>,
    pub old_plan_id: Option<String>,
    pub new_plan_id: Option<String>,
    pub stripe_subscription_id: Option<String>,
    pub stripe_invoice_id: Option<String>,
    pub amount_cents: Option<i64>,
    pub metadata: Option<String>,
    pub created_at: i64,
}

/// The fields of a subscription event to record.
pub struct SubscriptionEventInput<'a> {
    pub event_type: &'a str,
    pub stripe_event_id: Option<&'a str>,
    pub old_plan_id: Option<&'a str>,
    pub new_plan_id: Option<&'a str>,
    pub stripe_subscription_id: Option<&'a str>,
    pub stripe_invoice_id: Option<&'a str>,
    pub amount_cents: Option<i64>,
    pub metadata: Option<&'a str>,
}

/// The strings of `text` read as a JSON array of strings
/// (`serde_json::from_str::<Vec<String>>`), or none where `text` is no such
/// array.
pub uninterp spec fn json_string_array(text: Seq<char>) -> Option<Seq<Seq<char>>>;

/// `serde_json::from_str::<Vec<String>>(text).ok()`: the result is named by
/// `json_string_array`; what serde_json accepts as such an array is not
/// restated here.
#[verifier::external_body]
fn parse_json_string_array(text: &str) -> (r: Option<Vec<String>>)
    ensures
        match r {
            Some(v) => json_string_array(text@) == Some(views(v@)),
            None => json_string_array(text@) is None,
        },
{
    serde_json::from_str::<Vec<String>>(text).ok()
}

/// The features a plan lists: the strings of its JSON array; none when the
/// plan stores no features or they are no JSON array of strings.
pub open spec fn plan_features(features: Option<Seq<char>>) -> Seq<Seq<char>> {
    match features {
        None => Seq::empty(),
        Some(f) => match json_string_array(f) {
            Some(v) => v,
            None => Seq::empty(),
        },
    }
}

/// The feature list for a parse result: its strings, or no features when
/// the text did not parse.
pub fn features_or_empty(parsed: Option<Vec<String>>) -> (r: Vec<String>)
    ensures
        views(r@) == match parsed {
            Some(v) => views(v@),
            None => Seq::<Seq<char>>::empty(),
        },
{
    match parsed {
        Some(v) => v,
        None => {
            let v: Vec<String> = Vec::new();
            assert(views(v@) =~= Seq::<Seq<char>>::empty());
            v
        },
    }
}

impl SubscriptionPlan {
    /// The features this plan lists.
    pub fn features_list(&self) -> (r: Vec<String>)
        ensures
            views(r@) == plan_features(opt_view(self.features)),
    {
        match &self.features {
            Some(f) => features_or_empty(parse_json_string_array(f.as_str())),
            None => features_or_empty(None),
        }
    }
}

/// An account's stored subscription fields.
pub struct AccountSubscriptionRow {
    pub subscription_plan_id: Option<String>,
    pub subscription_status: Option<String>,
    pub subscription_stripe_id: Option<String>,
    pub subscription_current_period_end: Option<i64>,
    pub subscription_cancel_at_period_end: Option<bool>,
}

/// The plan an account without a stored plan is on.
pub open spec fn default_plan_id() -> Seq<char> {
    "free"@
}

/// The plan name shown when the account's plan is not in the catalogue.
pub open spec fn fallback_plan_name() -> Seq<char> {
    "Free"@
}

/// The features of the fallback plan.
pub open spec fn fallback_features() -> Seq<Seq<char>> {
    seq!["marketplace_browse"@]
}

/// The status of an account without a stored status.
pub open spec fn default_status() -> Seq<char> {
    "active"@
}

/// The plan id an account is on: the stored one, or the free plan.
pub fn effective_plan_id(row: &AccountSubscriptionRow) -> (r: String)
    ensures
        r@ == match row.subscription_plan_id {
            Some(p) => p@,
            None => default_plan_id(),
        },
{
    match &row.subscription_plan_id {
        Some(p) => p.clone(),
        None => owned("free"),
    }
}

/// The fallback plan's feature list.
fn fallback_feature_list() -> (r: Vec<String>)
    ensures
        views(r@) == fallback_features(),
{
    let mut v: Vec<String> = Vec::new();
    v.push(owned("marketplace_browse"));
    assert(views(v@) =~= fallback_features());
    v
}

/// An account's subscription from its stored fields and the catalogue entry
/// of its plan (`plan`, looked up by `effective_plan_id`): the plan's name
/// and features, or the fallback plan's when the catalogue has none; the
/// status defaults to active and cancellation at period end to off.
pub fn account_subscription(row: &AccountSubscriptionRow, plan: Option<&SubscriptionPlan>) -> (r: AccountSubscription)
    ensures
        r.plan_id@ == match row.subscription_plan_id {
            Some(p) => p@,
            None => default_plan_id(),
        },
        r.plan_name@ == match plan {
            Some(p) => p.name@,
            None => fallback_plan_name(),
        },
        views(r.features@) == match plan {
            Some(p) => plan_features(opt_view(p.features)),
            None => fallback_features(),
        },
        r.status@ == match row.subscription_status {
            Some(s) => s@,
            None => default_status(),
        },
        opt_view(r.stripe_subscription_id) == opt_view(row.subscription_stripe_id),
        r.current_period_end == row.subscription_current_period_end,
        r.cancel_at_period_end == match row.subscription_cancel_at_period_end {
            Some(b) => b,
            None => false,
        },
{
    let plan_id = effective_plan_id(row);
    let (plan_name, features) = match plan {
        Some(p) => (p.name.clone(), p.features_list()),
        None => (owned("Free"), fallback_feature_list()),
    };
    let status = match &row.subscription_status {
        Some(s) => s.clone(),
        None => owned("active"),
    };
    let cancel = match row.subscription_cancel_at_period_end {
        Some(b) => b,
        None => false,
    };
    AccountSubscription {
        plan_id,
        plan_name,
        status,
        stripe_subscription_id: clone_opt(&row.subscription_stripe_id),
        current_period_end: row.subscription_current_period_end,
        cancel_at_period_end: cancel,
        features,
    }
}

/// Whether a subscription in `status` listing `features` grants `feature`:
/// only active or trialing subscriptions grant anything, and then exactly
/// the features they list.
pub open spec fn grants_feature(status: Seq<char>, features: Seq<Seq<char>>, feature: Seq<char>) -> bool {
    (status == "active"@ || status == "trialing"@) && features.contains(feature)
}

/// Whether the subscription grants `feature`.
pub fn subscription_has_feature(sub: &AccountSubscription, feature: &str) -> (r: bool)
    ensures
        r == grants_feature(sub.status@, views(sub.features@), feature@),
{
    if !str_eq(sub.status.as_str(), "active") && !str_eq(sub.status.as_str(), "trialing") {
        return false;
    }
    let mut i: usize = 0;
    while i < sub.features.len()
        invariant
            i <= sub.features@.len(),
            sub.status@ == "active"@ || sub.status@ == "trialing"@,
            forall|k: int| 0 <= k < i ==> sub.features@[k]@ != feature@,
        decreases sub.features@.len() - i,
    {
        if str_eq(sub.features[i].as_str(), feature) {
            assert(views(sub.features@)[i as int] == feature@);
            assert(views(sub.features@).contains(feature@));
            return true;
        }
        i = i + 1;
    }
    assert(!views(sub.features@).contains(feature@)) by {
        if views(sub.features@).contains(feature@) {
            let k = choose|k: int| 0 <= k < views(sub.features@).len() && views(sub.features@)[k] == feature@;
            assert(sub.features@[k]@ == feature@);
        }
    }
    false
}

/// A subscription that is neither active nor trialing grants no feature,
/// whatever it lists.
pub proof fn lemma_lapsed_grants_nothing(status: Seq<char>, features: Seq<Seq<char>>, feature: Seq<char>)
    requires
        status != "active"@,
        status != "trialing"@,
    ensures
        !grants_feature(status, features, feature),
{
}

/// An account with no stored subscription, whose plan the catalogue does
/// not hold, can browse the marketplace and nothing else.
pub proof fn lemma_fallback_browses(feature: Seq<char>)
    ensures
        grants_feature(default_status(), fallback_features(), "marketplace_browse"@),
        grants_feature(default_status(), fallback_features(), feature) <==> feature == "marketplace_browse"@,
{
    assert(fallback_features()[0] == "marketplace_browse"@);
}

/// An active or trialing subscription grants exactly the features it
/// lists; an account without a stored plan is on the "free" plan, without a
/// stored status it is "active", and a plan missing from the catalogue shows
/// as "Free".
pub proof fn lemma_live_subscription_grants_listed(features: Seq<Seq<char>>, feature: Seq<char>)
    ensures
        grants_feature("active"@, features, feature) <==> features.contains(feature),
        grants_feature("trialing"@, features, feature) <==> features.contains(feature),
        default_plan_id() == "free"@,
        default_status() == "active"@,
        fallback_plan_name() == "Free"@,
{
}

} // verus!
