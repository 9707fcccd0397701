//! Decisions the offering store makes around its queries: ownership checks,
//! required fields, provisioner configuration, marketplace visibility and
//! the resolution of an offering to an agent pool.

use vstd::prelude::*;
use vstd::string::StringSliceAdditionalSpecFns;
use crate::text::{lemma_u32_decimal_round_trip, owned, chars_of, trim_str, trimmed, parse_u32, parse_u32_spec, decimal, u64_to_string,
    string_from_chars, str_eq, opt_view, clone_opt, join, u64_decimal_chars, append_chars, views, join_strings};
use crate::hexcodec::{hex_decode, hex_decoded, hex_encode, hex_lower};

verus! {

/// Whether two byte slices are equal.
pub fn bytes_eq(a: &[u8], b: &[u8]) -> (r: bool)
    ensures
        r == (a@ == b@),
{
    if a.len() != b.len() {
        return false;
    }
    let mut i: usize = 0;
    while i < a.len()
        invariant
            i <= a@.len(),
            a@.len() == b@.len(),
            forall|k: int| 0 <= k < i ==> a@[k] == b@[k],
        decreases a@.len() - i,
    {
        if a[i] != b[i] {
            return false;
        }
        i = i + 1;
    }
    assert(a@ =~= b@);
    true
}

/// The error for an offering that does not exist.
pub open spec fn not_found_message() -> Seq<char> {
    "Offering not found"@
}

/// The error for an offering owned by someone else.
pub open spec fn unauthorized_message() -> Seq<char> {
    "Unauthorized: You do not own this offering"@
}

/// Checks that the offering's recorded owner is `pubkey`: an error when
/// there is no such offering or it belongs to another provider.
pub fn check_offering_owner(owner: Option<&[u8]>, pubkey: &[u8]) -> (r: Result<(), String>)
    ensures
        match owner {
            None => r matches Err(e) && e@ == not_found_message(),
            Some(o) => if o@ == pubkey@ { r is Ok } else { r matches Err(e) && e@ == unauthorized_message() },
        },
{
    match owner {
        None => Err(owned("Offering not found")),
        Some(o) => {
            if bytes_eq(o, pubkey) {
                Ok(())
            } else {
                Err(owned("Unauthorized: You do not own this offering"))
            }
        },
    }
}

/// Checks that the source of a duplication belongs to `pubkey`, given the
/// source's hex-encoded owner key (none when the source does not exist).
pub fn check_duplicate_source(source_pubkey_hex: Option<&str>, pubkey: &[u8]) -> (r: Result<(), String>)
    ensures
        match source_pubkey_hex {
            None => r matches Err(e) && e@ == "Source offering not found"@,
            Some(h) => match hex_decoded(h.spec_bytes()) {
                None => r matches Err(e) && e@ == "Invalid pubkey hex in source offering"@,
                Some(k) => if k == pubkey@ { r is Ok } else { r matches Err(e) && e@ == unauthorized_message() },
            },
        },
{
    match source_pubkey_hex {
        None => Err(owned("Source offering not found")),
        Some(h) => match hex_decode(h.as_bytes()) {
            None => Err(owned("Invalid pubkey hex in source offering")),
            Some(k) => {
                if bytes_eq(k.as_slice(), pubkey) {
                    Ok(())
                } else {
                    Err(owned("Unauthorized: You do not own this offering"))
                }
            },
        },
    }
}

/// The name given to a duplicated offering.
pub fn copy_offer_name(offer_name: &str) -> (r: String)
    ensures
        r@ == offer_name@ + " (Copy)"@,
{
    let mut s = owned(offer_name);
    s.append(" (Copy)");
    s
}

/// Checks the required identity fields of a new offering: both must hold
/// something besides whitespace, the offering id checked first.
pub fn validate_offering_identity(offering_id: &str, offer_name: &str) -> (r: Result<(), String>)
    ensures
        trimmed(offering_id@).len() == 0 ==> (r matches Err(e) && e@ == "offering_id is required"@),
        trimmed(offering_id@).len() != 0 && trimmed(offer_name@).len() == 0
            ==> (r matches Err(e) && e@ == "offer_name is required"@),
        trimmed(offering_id@).len() != 0 && trimmed(offer_name@).len() != 0 ==> r is Ok,
{
    let id = trim_str(offering_id);
    if id.len() == 0 {
        return Err(owned("offering_id is required"));
    }
    let name = trim_str(offer_name);
    if name.len() == 0 {
        return Err(owned("offer_name is required"));
    }
    Ok(())
}

/// The provisioner configuration stored with an offering. When a template
/// name is given without a configuration and the name is a `u32`, the
/// configuration names that number as the template VM id
/// (`{"template_vmid":N}`); otherwise the given configuration stands.
pub open spec fn provisioner_config_spec(
    template_name: Option<Seq<char>>,
    provisioner_config: Option<Seq<char>>,
) -> Option<Seq<char>> {
    match (template_name, provisioner_config) {
        (Some(t), None) => match parse_u32_spec(t) {
            Some(vmid) => Some("{\"template_vmid\":"@ + decimal(vmid as nat) + "}"@),
            None => None,
        },
        _ => provisioner_config,
    }
}

/// Fills in the provisioner configuration from a numeric template name.
pub fn derive_provisioner_config(
    template_name: &Option<String>,
    provisioner_config: Option<String>,
) -> (r: Option<String>)
    ensures
        opt_view(r) == provisioner_config_spec(opt_view(*template_name), opt_view(provisioner_config)),
{
    match (template_name, &provisioner_config) {
        (Some(t), None) => {
            let chars = chars_of(t.as_str());
            match parse_u32(chars.as_slice()) {
                Some(vmid) => {
                    let mut s = owned("{\"template_vmid\":");
                    let n = u64_to_string(vmid as u64);
                    s.append(n.as_str());
                    s.append("}");
                    Some(s)
                },
                None => None,
            }
        },
        _ => provisioner_config,
    }
}

/// Whether an offering may be listed on the marketplace: it resolved to an
/// agent pool, or it is self-provisioned.
pub open spec fn listed(resolved_pool_id: Option<Seq<char>>, offering_source: Option<Seq<char>>) -> bool {
    resolved_pool_id is Some || offering_source == Some("self_provisioned"@)
}

/// Whether an offering may be listed on the marketplace.
pub fn is_marketplace_listed(resolved_pool_id: &Option<String>, offering_source: &Option<String>) -> (r: bool)
    ensures
        r == listed(opt_view(*resolved_pool_id), opt_view(*offering_source)),
{
    if resolved_pool_id.is_some() {
        return true;
    }
    match offering_source {
        Some(s) => str_eq(s.as_str(), "self_provisioned"),
        None => false,
    }
}

/// An agent pool of a provider, with the number of its online agents.
pub struct PoolSummary {
    pub pool_id: String,
    pub name: String,
    pub location: String,
    pub online_count: i64,
}

/// The mathematical content of a `PoolSummary`.
pub struct PoolView {
    pub pool_id: Seq<char>,
    pub name: Seq<char>,
    pub location: Seq<char>,
    pub online_count: i64,
}

impl View for PoolSummary {
    type V = PoolView;

    open spec fn view(&self) -> PoolView {
        PoolView {
            pool_id: self.pool_id@,
            name: self.name@,
            location: self.location@,
            online_count: self.online_count,
        }
    }
}

/// The views of a list of pools.
pub open spec fn pool_views(v: Seq<PoolSummary>) -> Seq<PoolView> {
    v.map_values(|p: PoolSummary| p@)
}

/// The index of the last pool with id `id`, if any.
pub open spec fn pool_by_id(pools: Seq<PoolView>, id: Seq<char>) -> Option<int>
    decreases pools.len(),
{
    if pools.len() == 0 {
        None
    } else if pools.last().pool_id == id {
        Some(pools.len() - 1)
    } else {
        pool_by_id(pools.drop_last(), id)
    }
}

/// The index of the first pool at `location` satisfying `online == want`
/// (any pool when `want` is none), if any.
pub open spec fn first_at(pools: Seq<PoolView>, location: Seq<char>, want: Option<bool>) -> Option<int>
    decreases pools.len(),
{
    if pools.len() == 0 {
        None
    } else {
        match first_at(pools.drop_last(), location, want) {
            Some(i) => Some(i),
            None => {
                let p = pools.last();
                if p.location == location && (match want {
                    Some(w) => (p.online_count > 0) == w,
                    None => true,
                }) {
                    Some(pools.len() - 1)
                } else {
                    None
                }
            },
        }
    }
}

/// The pool chosen for a location: the first online pool there, else the
/// first pool there.
pub open spec fn pool_by_location(pools: Seq<PoolView>, location: Seq<char>) -> Option<int> {
    match first_at(pools, location, Some(true)) {
        Some(i) => Some(i),
        None => first_at(pools, location, None),
    }
}

/// How an offering resolves against its provider's pools.
pub struct PoolResolution {
    /// Whether the provider counts as online for this offering.
    pub provider_online: bool,
    /// The pool the offering resolved to, as (id, name); none leaves the
    /// offering's resolved pool as it was.
    pub resolved: Option<(String, String)>,
}

/// Whether pool `i` exists and has an online agent.
pub open spec fn pool_online(pools: Seq<PoolView>, i: Option<int>) -> bool {
    match i {
        Some(k) => pools[k].online_count > 0,
        None => false,
    }
}

/// The resolution of an offering: self-provisioned offerings are always
/// online and keep their pool; an offering naming a pool resolves to the
/// last pool with that id and is online when the id is not empty and that
/// pool has an online agent; any other offering resolves through the
/// region of its datacenter country to the pool chosen for that location.
pub open spec fn resolution_spec(
    offering_source: Option<Seq<char>>,
    agent_pool_id: Option<Seq<char>>,
    region: Option<Seq<char>>,
    pools: Seq<PoolView>,
) -> (bool, Option<int>) {
    if offering_source == Some("self_provisioned"@) {
        (true, None)
    } else {
        match agent_pool_id {
            Some(id) => {
                let found = pool_by_id(pools, id);
                (id.len() > 0 && pool_online(pools, found), found)
            },
            None => match region {
                Some(r) => {
                    let found = pool_by_location(pools, r);
                    (pool_online(pools, found), found)
                },
                None => (false, None),
            },
        }
    }
}

fn last_pool_with_id(pools: &[PoolSummary], id: &str) -> (r: Option<usize>)
    ensures
        match r {
            Some(k) => pool_by_id(pool_views(pools@), id@) == Some(k as int) && k < pools@.len(),
            None => pool_by_id(pool_views(pools@), id@) is None,
        },
{
    let mut found: Option<usize> = None;
    let mut i: usize = 0;
    while i < pools.len()
        invariant
            i <= pools@.len(),
            match found {
                Some(k) => pool_by_id(pool_views(pools@.subrange(0, i as int)), id@) == Some(k as int) && k < i,
                None => pool_by_id(pool_views(pools@.subrange(0, i as int)), id@) is None,
            },
        decreases pools@.len() - i,
    {
        let ghost next = pool_views(pools@.subrange(0, i + 1));
        assert(next.drop_last() =~= pool_views(pools@.subrange(0, i as int)));
        assert(next.last() == pools@[i as int]@);
        if str_eq(pools[i].pool_id.as_str(), id) {
            found = Some(i);
        }
        i = i + 1;
    }
    assert(pools@.subrange(0, pools@.len() as int) =~= pools@);
    found
}

fn first_pool_at(pools: &[PoolSummary], location: &str, want: Option<bool>) -> (r: Option<usize>)
    ensures
        match r {
            Some(k) => first_at(pool_views(pools@), location@, want) == Some(k as int) && k < pools@.len(),
            None => first_at(pool_views(pools@), location@, want) is None,
        },
{
    let mut i: usize = 0;
    while i < pools.len()
        invariant
            i <= pools@.len(),
            first_at(pool_views(pools@.subrange(0, i as int)), location@, want) is None,
        decreases pools@.len() - i,
    {
        let ghost next = pool_views(pools@.subrange(0, i + 1));
        assert(next.drop_last() =~= pool_views(pools@.subrange(0, i as int)));
        assert(next.last() == pools@[i as int]@);
        let p = &pools[i];
        let matches = match want {
            Some(w) => (p.online_count > 0) == w,
            None => true,
        };
        if matches && str_eq(p.location.as_str(), location) {
            proof {
                assert(first_at(next, location@, want) == Some(i as int));
                assert(pool_views(pools@).subrange(0, i + 1) =~= next);
                lemma_first_at_extend(pool_views(pools@), location@, want, i as int + 1);
            }
            return Some(i);
        }
        i = i + 1;
    }
    assert(pools@.subrange(0, pools@.len() as int) =~= pools@);
    None
}

proof fn lemma_first_at_extend(pools: Seq<PoolView>, location: Seq<char>, want: Option<bool>, n: int)
    requires
        0 <= n <= pools.len(),
        first_at(pools.subrange(0, n), location, want) is Some,
    ensures
        first_at(pools, location, want) == first_at(pools.subrange(0, n), location, want),
    decreases pools.len() - n,
{
    if n == pools.len() {
        assert(pools.subrange(0, n) =~= pools);
    } else {
        assert(pools.drop_last().subrange(0, n) =~= pools.subrange(0, n));
        lemma_first_at_extend(pools.drop_last(), location, want, n);
    }
}

proof fn lemma_pool_by_id_in_range(pools: Seq<PoolView>, id: Seq<char>)
    ensures
        pool_by_id(pools, id) matches Some(k) ==> 0 <= k < pools.len() && pools[k].pool_id == id,
    decreases pools.len(),
{
    if pools.len() > 0 {
        lemma_pool_by_id_in_range(pools.drop_last(), id);
    }
}

proof fn lemma_first_at_in_range(pools: Seq<PoolView>, location: Seq<char>, want: Option<bool>)
    ensures
        first_at(pools, location, want) matches Some(k) ==> 0 <= k < pools.len() && pools[k].location == location,
    decreases pools.len(),
{
    if pools.len() > 0 {
        lemma_first_at_in_range(pools.drop_last(), location, want);
    }
}

/// A self-provisioned offering is always online and tied to no pool. Any
/// other offering is online only when it resolved to one of its provider's
/// pools that has online agents: the pool it names, or, naming none, a pool
/// in its region.
pub proof fn lemma_online_needs_live_pool(
    offering_source: Option<Seq<char>>,
    agent_pool_id: Option<Seq<char>>,
    region: Option<Seq<char>>,
    pools: Seq<PoolView>,
)
    ensures
        offering_source == Some("self_provisioned"@)
            ==> resolution_spec(offering_source, agent_pool_id, region, pools) == (true, None::<int>),
        offering_source != Some("self_provisioned"@) && resolution_spec(offering_source, agent_pool_id, region, pools).0
            ==> (resolution_spec(offering_source, agent_pool_id, region, pools).1 matches Some(k)
                && 0 <= k < pools.len() && pools[k].online_count > 0
                && match agent_pool_id {
                    Some(id) => pools[k].pool_id == id,
                    None => region == Some(pools[k].location),
                }),
{
    if let Some(id) = agent_pool_id {
        lemma_pool_by_id_in_range(pools, id);
    }
    if let Some(r) = region {
        lemma_first_at_in_range(pools, r, Some(true));
        lemma_first_at_in_range(pools, r, None);
    }
}

/// Resolves an offering to one of its provider's pools. `region` is the
/// region of the offering's datacenter country, when it has one.
pub fn resolve_offering_pool(
    offering_source: &Option<String>,
    agent_pool_id: &Option<String>,
    region: Option<&str>,
    pools: &[PoolSummary],
) -> (r: PoolResolution)
    ensures
        ({
            let reg = match region { Some(x) => Some(x@), None => None };
            let (online, found) = resolution_spec(opt_view(*offering_source), opt_view(*agent_pool_id), reg, pool_views(pools@));
            &&& r.provider_online == online
            &&& match found {
                Some(k) => r.resolved matches Some((id, name)) && id@ == pools@[k]@.pool_id && name@ == pools@[k]@.name,
                None => r.resolved is None,
            }
        }),
{
    let self_provisioned = match offering_source {
        Some(s) => str_eq(s.as_str(), "self_provisioned"),
        None => false,
    };
    if self_provisioned {
        return PoolResolution { provider_online: true, resolved: None };
    }
    let found = match agent_pool_id {
        Some(id) => last_pool_with_id(pools, id.as_str()),
        None => match region {
            Some(r) => match first_pool_at(pools, r, Some(true)) {
                Some(k) => Some(k),
                None => first_pool_at(pools, r, None),
            },
            None => None,
        },
    };
    let explicit_empty = match agent_pool_id {
        Some(id) => id.as_str().is_empty(),
        None => false,
    };
    match found {
        Some(k) => {
            let p = &pools[k];
            PoolResolution {
                provider_online: !explicit_empty && p.online_count > 0,
                resolved: Some((p.pool_id.clone(), p.name.clone())),
            }
        },
        None => PoolResolution { provider_online: false, resolved: None },
    }
}

/// The error for a datacenter country that is no ISO 3166-1 alpha-2 code.
pub open spec fn invalid_country_text(country: Seq<char>) -> Seq<char> {
    "Invalid datacenter_country '"@ + country
        + "': must be a valid ISO 3166-1 alpha-2 country code (e.g., US, DE, JP)"@
}

/// Checks an offering's datacenter country: an empty country is accepted,
/// any other must be a known country code (`known`, from the country table).
pub fn check_datacenter_country(country: &str, known: bool) -> (r: Result<(), String>)
    ensures
        country@.len() == 0 || known ==> r is Ok,
        country@.len() != 0 && !known ==> (r matches Err(e) && e@ == invalid_country_text(country@)),
{
    if country.unicode_len() == 0 || known {
        Ok(())
    } else {
        let mut m = owned("Invalid datacenter_country '");
        m.append(country);
        m.append("': must be a valid ISO 3166-1 alpha-2 country code (e.g., US, DE, JP)");
        Err(m)
    }
}

/// The error for an offering id the provider already uses.
pub open spec fn duplicate_offering_id_text(offering_id: Seq<char>) -> Seq<char> {
    "Offering with ID '"@ + offering_id + "' already exists for this provider"@
}

/// The error returned when the provider already has an offering with this id.
pub fn duplicate_offering_id_message(offering_id: &str) -> (r: String)
    ensures
        r@ == duplicate_offering_id_text(offering_id@),
{
    let mut m = owned("Offering with ID '");
    m.append(offering_id);
    m.append("' already exists for this provider");
    m
}

/// The direction of a saved offering's price change: down when any price
/// dropped, else up.
pub open spec fn price_direction(dropped: bool) -> Seq<char> {
    if dropped { "down"@ } else { "up"@ }
}

/// The direction word of a price change.
pub fn price_change_direction(dropped: bool) -> (r: &'static str)
    ensures
        r@ == price_direction(dropped),
{
    if dropped { "down" } else { "up" }
}

/// The title of a price change notification.
pub fn price_change_title(dropped: bool) -> (r: String)
    ensures
        r@ == "Saved offering price "@ + price_direction(dropped),
{
    let mut m = owned("Saved offering price ");
    m.append(price_change_direction(dropped));
    m
}

/// The body of a price change notification: the one change after the
/// offering's name, or all of them joined by semicolons; none without
/// changes.
pub open spec fn price_change_text(offer_name: Seq<char>, changes: Seq<Seq<char>>) -> Option<Seq<char>> {
    if changes.len() == 0 {
        None
    } else if changes.len() == 1 {
        Some(offer_name + ": "@ + changes[0] + "."@)
    } else {
        Some(offer_name + " pricing changed: "@ + join(changes, "; "@) + "."@)
    }
}

/// The body of a price change notification for the described changes.
pub fn price_change_body(offer_name: &str, changes: &[String]) -> (r: Option<String>)
    ensures
        opt_view(r) == price_change_text(offer_name@, views(changes@)),
{
    if changes.len() == 0 {
        return None;
    }
    let mut m = owned(offer_name);
    if changes.len() == 1 {
        m.append(": ");
        m.append(changes[0].as_str());
    } else {
        m.append(" pricing changed: ");
        let joined = join_strings(changes, "; ");
        let text = string_from_chars(joined.as_slice());
        m.append(text.as_str());
    }
    m.append(".");
    Some(m)
}

/// The fixed rules around an offering's record: a numeric template name
/// without a configuration yields the configuration naming that template
/// VM id; a given configuration is always kept, and without a template name
/// nothing is derived. An offering is listed on the marketplace exactly
/// when it resolved to a pool or is self-provisioned. Price notices say
/// "down" when a price dropped and "up" otherwise; ownership checks refuse
/// with fixed messages.
pub proof fn lemma_offering_record_rules(
    vmid: u32,
    template_name: Option<Seq<char>>,
    config: Seq<char>,
    pool: Option<Seq<char>>,
    source: Option<Seq<char>>,
)
    ensures
        provisioner_config_spec(Some(decimal(vmid as nat)), None)
            == Some("{\"template_vmid\":"@ + decimal(vmid as nat) + "}"@),
        provisioner_config_spec(template_name, Some(config)) == Some(config),
        provisioner_config_spec(None, None) is None,
        pool is Some ==> listed(pool, source),
        listed(None, source) <==> source == Some("self_provisioned"@),
        price_direction(true) == "down"@,
        price_direction(false) == "up"@,
        not_found_message() == "Offering not found"@,
        unauthorized_message() == "Unauthorized: You do not own this offering"@,
{
    lemma_u32_decimal_round_trip(vmid);
}

} // verus!
