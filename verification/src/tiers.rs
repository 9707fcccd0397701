//! Offering tiers: which of the default tiers a pool of agents can host, why
//! the others cannot be offered, and the offering suggestions built from them.

use vstd::prelude::*;
use crate::text::{decimal, owned, u64_to_string, str_eq, to_lowercase, unicode_lowercase, contains_seq, contains_chars, chars_of, join, join_strings, views, string_from_chars, opt_view, clone_opt};

verus! {

/// Aggregate resources of an agent pool, as reported by its online agents.
pub struct PoolCapabilities {
    pub pool_id: String,
    pub online_agents: u32,
    pub total_cpu_cores: u32,
    pub min_agent_cpu_cores: u32,
    pub total_memory_mb: u64,
    pub min_agent_memory_mb: u64,
    pub total_storage_gb: u64,
    pub min_agent_storage_gb: u64,
    pub cpu_models: Vec<String>,
    pub has_gpu: bool,
    pub gpu_models: Vec<String>,
    pub available_templates: Vec<String>,
}

/// A tier definition for auto-generating offerings.
pub struct OfferingTier {
    /// Tier identifier (e.g. "small", "gpu-small").
    pub name: String,
    /// Human-readable tier name (e.g. "Basic VPS").
    pub display_name: String,
    /// CPU cores of one instance of this tier.
    pub cpu_cores: u32,
    /// Memory in GB of one instance.
    pub memory_gb: u32,
    /// Storage in GB of one instance.
    pub storage_gb: u32,
    /// Number of GPUs (None for non-GPU tiers).
    pub gpu_count: Option<u32>,
    /// Minimum pool CPU cores required to offer this tier.
    pub min_pool_cpu: u32,
    /// Minimum pool memory (GB) required to offer this tier.
    pub min_pool_memory_gb: u32,
    /// Minimum pool storage (GB) required to offer this tier.
    pub min_pool_storage_gb: u32,
}

/// The mathematical content of an `OfferingTier`.
pub struct TierView {
    pub name: Seq<char>,
    pub display_name: Seq<char>,
    pub cpu_cores: u32,
    pub memory_gb: u32,
    pub storage_gb: u32,
    pub gpu_count: Option<u32>,
    pub min_pool_cpu: u32,
    pub min_pool_memory_gb: u32,
    pub min_pool_storage_gb: u32,
}

impl View for OfferingTier {
    type V = TierView;

    open spec fn view(&self) -> TierView {
        TierView {
            name: self.name@,
            display_name: self.display_name@,
            cpu_cores: self.cpu_cores,
            memory_gb: self.memory_gb,
            storage_gb: self.storage_gb,
            gpu_count: self.gpu_count,
            min_pool_cpu: self.min_pool_cpu,
            min_pool_memory_gb: self.min_pool_memory_gb,
            min_pool_storage_gb: self.min_pool_storage_gb,
        }
    }
}

impl OfferingTier {
    /// A field-by-field copy of this tier.
    pub fn duplicate(&self) -> (r: OfferingTier)
        ensures
            r@ == self@,
    {
        OfferingTier {
            name: self.name.clone(),
            display_name: self.display_name.clone(),
            cpu_cores: self.cpu_cores,
            memory_gb: self.memory_gb,
            storage_gb: self.storage_gb,
            gpu_count: self.gpu_count,
            min_pool_cpu: self.min_pool_cpu,
            min_pool_memory_gb: self.min_pool_memory_gb,
            min_pool_storage_gb: self.min_pool_storage_gb,
        }
    }
}

/// The tier views of a list of tiers.
pub open spec fn tier_views(v: Seq<OfferingTier>) -> Seq<TierView> {
    v.map_values(|t: OfferingTier| t@)
}

/// Reason why a tier is unavailable.
pub struct UnavailableTier {
    /// Tier name.
    pub tier: String,
    /// Human-readable reason why the tier is unavailable.
    pub reason: String,
}

/// The mathematical content of an `UnavailableTier`.
pub struct UnavailableView {
    pub tier: Seq<char>,
    pub reason: Seq<char>,
}

impl View for UnavailableTier {
    type V = UnavailableView;

    open spec fn view(&self) -> UnavailableView {
        UnavailableView { tier: self.tier@, reason: self.reason@ }
    }
}

/// The views of a list of unavailable tiers.
pub open spec fn unavailable_views(v: Seq<UnavailableTier>) -> Seq<UnavailableView> {
    v.map_values(|u: UnavailableTier| u@)
}

pub open spec fn tier_spec(
    name: Seq<char>,
    display_name: Seq<char>,
    cpu_cores: u32,
    memory_gb: u32,
    storage_gb: u32,
    gpu_count: Option<u32>,
    min_pool_cpu: u32,
    min_pool_memory_gb: u32,
    min_pool_storage_gb: u32,
) -> TierView {
    TierView {
        name,
        display_name,
        cpu_cores,
        memory_gb,
        storage_gb,
        gpu_count,
        min_pool_cpu,
        min_pool_memory_gb,
        min_pool_storage_gb,
    }
}

/// The four default compute tiers, smallest first.
pub open spec fn compute_tier_views() -> Seq<TierView> {
    seq![
        tier_spec("small"@, "Basic VPS"@, 1, 2, 25, None, 4, 8, 100),
        tier_spec("medium"@, "Standard VPS"@, 2, 4, 50, None, 8, 16, 200),
        tier_spec("large"@, "Performance VPS"@, 4, 8, 100, None, 16, 32, 400),
        tier_spec("xlarge"@, "High Performance VPS"@, 8, 16, 200, None, 32, 64, 800),
    ]
}

/// The default GPU tier.
pub open spec fn gpu_tier_views() -> Seq<TierView> {
    seq![tier_spec("gpu-small"@, "GPU Instance"@, 4, 16, 100, Some(1u32), 8, 32, 200)]
}

fn make_tier(
    name: &str,
    display_name: &str,
    cpu_cores: u32,
    memory_gb: u32,
    storage_gb: u32,
    gpu_count: Option<u32>,
    min_pool_cpu: u32,
    min_pool_memory_gb: u32,
    min_pool_storage_gb: u32,
) -> (t: OfferingTier)
    ensures
        t@ == tier_spec(
            name@,
            display_name@,
            cpu_cores,
            memory_gb,
            storage_gb,
            gpu_count,
            min_pool_cpu,
            min_pool_memory_gb,
            min_pool_storage_gb,
        ),
{
    OfferingTier {
        name: owned(name),
        display_name: owned(display_name),
        cpu_cores,
        memory_gb,
        storage_gb,
        gpu_count,
        min_pool_cpu,
        min_pool_memory_gb,
        min_pool_storage_gb,
    }
}

/// Get default compute tiers.
pub fn default_compute_tiers() -> (r: Vec<OfferingTier>)
    ensures
        tier_views(r@) == compute_tier_views(),
{
    let mut v: Vec<OfferingTier> = Vec::new();
    v.push(make_tier("small", "Basic VPS", 1, 2, 25, None, 4, 8, 100));
    v.push(make_tier("medium", "Standard VPS", 2, 4, 50, None, 8, 16, 200));
    v.push(make_tier("large", "Performance VPS", 4, 8, 100, None, 16, 32, 400));
    v.push(make_tier("xlarge", "High Performance VPS", 8, 16, 200, None, 32, 64, 800));
    assert(tier_views(v@) =~= compute_tier_views());
    v
}

/// Get default GPU tiers.
pub fn default_gpu_tiers() -> (r: Vec<OfferingTier>)
    ensures
        tier_views(r@) == gpu_tier_views(),
{
    let mut v: Vec<OfferingTier> = Vec::new();
    v.push(make_tier("gpu-small", "GPU Instance", 4, 16, 100, Some(1), 8, 32, 200));
    assert(tier_views(v@) =~= gpu_tier_views());
    v
}

/// The reason given when a pool has no GPU.
pub open spec fn no_gpu_reason() -> Seq<char> {
    "No GPU devices available in pool"@
}

/// Why `cap` cannot offer tier `t`: the first failed check, in the order
/// pool CPU, pool memory, pool storage, smallest-agent CPU, memory and
/// storage, then GPU presence; `None` when every check passes.
pub open spec fn tier_shortfall(cap: PoolCapabilities, t: TierView) -> Option<Seq<char>> {
    if cap.total_cpu_cores < t.min_pool_cpu {
        Some("Need "@ + decimal(t.min_pool_cpu as nat) + " total CPU cores (have "@
            + decimal(cap.total_cpu_cores as nat) + ")"@)
    } else if cap.total_memory_mb / 1024 < t.min_pool_memory_gb {
        Some("Need "@ + decimal(t.min_pool_memory_gb as nat) + " GB total memory (have "@
            + decimal((cap.total_memory_mb / 1024) as nat) + " GB)"@)
    } else if cap.total_storage_gb < t.min_pool_storage_gb {
        Some("Need "@ + decimal(t.min_pool_storage_gb as nat) + " GB total storage (have "@
            + decimal(cap.total_storage_gb as nat) + " GB)"@)
    } else if cap.min_agent_cpu_cores < t.cpu_cores {
        Some("Smallest agent has "@ + decimal(cap.min_agent_cpu_cores as nat) + " cores, tier needs "@
            + decimal(t.cpu_cores as nat))
    } else if cap.min_agent_memory_mb / 1024 < t.memory_gb {
        Some("Smallest agent has "@ + decimal((cap.min_agent_memory_mb / 1024) as nat)
            + " GB memory, tier needs "@ + decimal(t.memory_gb as nat) + " GB"@)
    } else if cap.min_agent_storage_gb < t.storage_gb {
        Some("Smallest agent has "@ + decimal(cap.min_agent_storage_gb as nat)
            + " GB storage, tier needs "@ + decimal(t.storage_gb as nat) + " GB"@)
    } else if t.gpu_count is Some && !cap.has_gpu {
        Some(no_gpu_reason())
    } else {
        None
    }
}

/// Whether `cap` has every resource that tier `t` needs.
pub open spec fn can_host(cap: PoolCapabilities, t: TierView) -> bool {
    &&& t.min_pool_cpu <= cap.total_cpu_cores
    &&& t.min_pool_memory_gb <= cap.total_memory_mb / 1024
    &&& t.min_pool_storage_gb <= cap.total_storage_gb
    &&& t.cpu_cores <= cap.min_agent_cpu_cores
    &&& t.memory_gb <= cap.min_agent_memory_mb / 1024
    &&& t.storage_gb <= cap.min_agent_storage_gb
    &&& (t.gpu_count is Some ==> cap.has_gpu)
}

/// A tier has no shortfall exactly when the pool can host it.
pub proof fn lemma_shortfall_iff_cannot_host(cap: PoolCapabilities, t: TierView)
    ensures
        tier_shortfall(cap, t) is None <==> can_host(cap, t),
{
}

fn message4(a: &str, b: u64, c: &str, d: u64, e: &str) -> (r: String)
    ensures
        r@ == a@ + decimal(b as nat) + c@ + decimal(d as nat) + e@,
{
    let mut s = owned(a);
    let x = u64_to_string(b);
    s.append(x.as_str());
    s.append(c);
    let y = u64_to_string(d);
    s.append(y.as_str());
    s.append(e);
    s
}

/// Check if a tier can be offered based on pool capabilities.
pub fn check_tier_eligibility(capabilities: &PoolCapabilities, tier: &OfferingTier) -> (r: Result<(), String>)
    ensures
        match tier_shortfall(*capabilities, tier@) {
            None => r is Ok,
            Some(msg) => r matches Err(e) && e@ == msg,
        },
{
    if capabilities.total_cpu_cores < tier.min_pool_cpu {
        return Err(message4("Need ", tier.min_pool_cpu as u64, " total CPU cores (have ",
            capabilities.total_cpu_cores as u64, ")"));
    }
    let total_memory_gb = capabilities.total_memory_mb / 1024;
    if total_memory_gb < tier.min_pool_memory_gb as u64 {
        return Err(message4("Need ", tier.min_pool_memory_gb as u64, " GB total memory (have ",
            total_memory_gb, " GB)"));
    }
    if capabilities.total_storage_gb < tier.min_pool_storage_gb as u64 {
        return Err(message4("Need ", tier.min_pool_storage_gb as u64, " GB total storage (have ",
            capabilities.total_storage_gb, " GB)"));
    }
    if capabilities.min_agent_cpu_cores < tier.cpu_cores {
        proof {
            reveal_strlit("");
            assert(""@ =~= Seq::<char>::empty());
        }
        return Err(message4("Smallest agent has ", capabilities.min_agent_cpu_cores as u64,
            " cores, tier needs ", tier.cpu_cores as u64, ""));
    }
    let min_agent_memory_gb = capabilities.min_agent_memory_mb / 1024;
    if min_agent_memory_gb < tier.memory_gb as u64 {
        return Err(message4("Smallest agent has ", min_agent_memory_gb, " GB memory, tier needs ",
            tier.memory_gb as u64, " GB"));
    }
    if capabilities.min_agent_storage_gb < tier.storage_gb as u64 {
        return Err(message4("Smallest agent has ", capabilities.min_agent_storage_gb,
            " GB storage, tier needs ", tier.storage_gb as u64, " GB"));
    }
    if tier.gpu_count.is_some() && !capabilities.has_gpu {
        return Err(owned("No GPU devices available in pool"));
    }
    Ok(())
}


/// Splits `tiers`, in order, into those `cap` can host and, for the others,
/// the tier name with the reason it cannot be offered.
pub open spec fn partition_tiers(cap: PoolCapabilities, tiers: Seq<TierView>) -> (Seq<TierView>, Seq<UnavailableView>)
    decreases tiers.len(),
{
    if tiers.len() == 0 {
        (Seq::empty(), Seq::empty())
    } else {
        let (a, u) = partition_tiers(cap, tiers.drop_last());
        let t = tiers.last();
        match tier_shortfall(cap, t) {
            None => (a.push(t), u),
            Some(reason) => (a, u.push(UnavailableView { tier: t.name, reason })),
        }
    }
}

/// The GPU tiers marked unavailable for want of a GPU.
pub open spec fn no_gpu_entries(tiers: Seq<TierView>) -> Seq<UnavailableView> {
    tiers.map_values(|t: TierView| UnavailableView { tier: t.name, reason: no_gpu_reason() })
}

/// The tiers a pool can offer and the ones it cannot: compute tiers first,
/// then the GPU tiers, which are only checked when the pool has a GPU.
pub open spec fn tier_selection(cap: PoolCapabilities) -> (Seq<TierView>, Seq<UnavailableView>) {
    let (a1, u1) = partition_tiers(cap, compute_tier_views());
    if cap.has_gpu {
        let (a2, u2) = partition_tiers(cap, gpu_tier_views());
        (a1 + a2, u1 + u2)
    } else {
        (a1, u1 + no_gpu_entries(gpu_tier_views()))
    }
}

fn partition_into(
    capabilities: &PoolCapabilities,
    tiers: &Vec<OfferingTier>,
    applicable: &mut Vec<OfferingTier>,
    unavailable: &mut Vec<UnavailableTier>,
)
    ensures
        tier_views(final(applicable)@) == tier_views(old(applicable)@) + partition_tiers(*capabilities, tier_views(tiers@)).0,
        unavailable_views(final(unavailable)@) == unavailable_views(old(unavailable)@) + partition_tiers(*capabilities, tier_views(tiers@)).1,
{
    let ghost a0 = tier_views(applicable@);
    let ghost u0 = unavailable_views(unavailable@);
    let mut i: usize = 0;
    while i < tiers.len()
        invariant
            i <= tiers@.len(),
            tier_views(applicable@) == a0 + partition_tiers(*capabilities, tier_views(tiers@.subrange(0, i as int))).0,
            unavailable_views(unavailable@) == u0 + partition_tiers(*capabilities, tier_views(tiers@.subrange(0, i as int))).1,
        decreases tiers@.len() - i,
    {
        let ghost prefix = tier_views(tiers@.subrange(0, i as int));
        let ghost next = tier_views(tiers@.subrange(0, i + 1));
        assert(next.drop_last() =~= prefix);
        assert(next.last() == tiers@[i as int]@);
        let tier = &tiers[i];
        let ghost app_before = applicable@;
        let ghost un_before = unavailable@;
        let ghost pp = partition_tiers(*capabilities, prefix);
        assert(partition_tiers(*capabilities, next) == (match tier_shortfall(*capabilities, tier@) {
            None => (pp.0.push(tier@), pp.1),
            Some(reason) => (pp.0, pp.1.push(UnavailableView { tier: tier@.name, reason })),
        }));
        match check_tier_eligibility(capabilities, tier) {
            Ok(()) => {
                applicable.push(tier.duplicate());
                assert(tier_views(applicable@) =~= tier_views(app_before).push(tier@));
                assert(tier_views(applicable@) =~= a0 + partition_tiers(*capabilities, next).0);
            },
            Err(reason) => {
                let entry = UnavailableTier { tier: tier.name.clone(), reason };
                unavailable.push(entry);
                assert(unavailable_views(unavailable@) =~= unavailable_views(un_before).push(entry@));
                assert(unavailable_views(unavailable@) =~= u0 + partition_tiers(*capabilities, next).1);
            },
        }
        i = i + 1;
    }
    assert(tiers@.subrange(0, tiers@.len() as int) =~= tiers@);
}

/// Every tier of `partition_tiers(cap, tiers).0` can be hosted, none in the
/// unavailable part has an empty reason, and the two parts together hold as
/// many entries as `tiers`.
pub proof fn lemma_partition_sound(cap: PoolCapabilities, tiers: Seq<TierView>)
    ensures
        forall|k: int| 0 <= k < partition_tiers(cap, tiers).0.len() ==> can_host(cap, #[trigger] partition_tiers(cap, tiers).0[k]),
        forall|k: int| 0 <= k < partition_tiers(cap, tiers).1.len() ==> (#[trigger] partition_tiers(cap, tiers).1[k]).reason.len() > 0,
        partition_tiers(cap, tiers).0.len() + partition_tiers(cap, tiers).1.len() == tiers.len(),
    decreases tiers.len(),
{
    reveal_strlit("Need ");
    reveal_strlit("Smallest agent has ");
    reveal_strlit("No GPU devices available in pool");
    if tiers.len() > 0 {
        lemma_partition_sound(cap, tiers.drop_last());
        let (a, u) = partition_tiers(cap, tiers.drop_last());
        let t = tiers.last();
        match tier_shortfall(cap, t) {
            None => {
                assert forall|k: int| 0 <= k < a.push(t).len() implies can_host(cap, #[trigger] a.push(t)[k]) by {
                    if k < a.len() {
                        assert(a.push(t)[k] == a[k]);
                    }
                }
            },
            Some(reason) => {
                assert(reason.len() > 0);
                let e = UnavailableView { tier: t.name, reason };
                assert forall|k: int| 0 <= k < u.push(e).len() implies (#[trigger] u.push(e)[k]).reason.len() > 0 by {
                    if k < u.len() {
                        assert(u.push(e)[k] == u[k]);
                    }
                }
            },
        }
    }
}

/// Select applicable tiers based on pool capabilities.
pub fn select_applicable_tiers(capabilities: &PoolCapabilities) -> (r: (Vec<OfferingTier>, Vec<UnavailableTier>))
    ensures
        tier_views(r.0@) == tier_selection(*capabilities).0,
        unavailable_views(r.1@) == tier_selection(*capabilities).1,
{
    let mut applicable: Vec<OfferingTier> = Vec::new();
    let mut unavailable: Vec<UnavailableTier> = Vec::new();
    let compute = default_compute_tiers();
    partition_into(capabilities, &compute, &mut applicable, &mut unavailable);
    assert(tier_views(applicable@) =~= partition_tiers(*capabilities, compute_tier_views()).0);
    assert(unavailable_views(unavailable@) =~= partition_tiers(*capabilities, compute_tier_views()).1);
    let gpu = default_gpu_tiers();
    if capabilities.has_gpu {
        partition_into(capabilities, &gpu, &mut applicable, &mut unavailable);
    } else {
        let ghost u1 = unavailable_views(unavailable@);
        let mut i: usize = 0;
        while i < gpu.len()
            invariant
                i <= gpu@.len(),
                tier_views(gpu@) == gpu_tier_views(),
                unavailable_views(unavailable@) == u1 + no_gpu_entries(tier_views(gpu@).subrange(0, i as int)),
            decreases gpu@.len() - i,
        {
            unavailable.push(UnavailableTier {
                tier: gpu[i].name.clone(),
                reason: owned("No GPU devices available in pool"),
            });
            i = i + 1;
            assert(unavailable_views(unavailable@) =~= u1 + no_gpu_entries(tier_views(gpu@).subrange(0, i as int)));
        }
        assert(tier_views(gpu@).subrange(0, gpu@.len() as int) =~= gpu_tier_views());
    }
    (applicable, unavailable)
}

/// Every tier that `select_applicable_tiers` offers can be hosted by the
/// pool, and every default tier comes out either as offered or as
/// unavailable with a non-empty reason.
pub proof fn lemma_selection_sound(cap: PoolCapabilities)
    ensures
        forall|k: int| 0 <= k < tier_selection(cap).0.len() ==> can_host(cap, #[trigger] tier_selection(cap).0[k]),
        forall|k: int| 0 <= k < tier_selection(cap).1.len() ==> (#[trigger] tier_selection(cap).1[k]).reason.len() > 0,
        tier_selection(cap).0.len() + tier_selection(cap).1.len() == compute_tier_views().len() + gpu_tier_views().len(),
{
    reveal_strlit("No GPU devices available in pool");
    lemma_partition_sound(cap, compute_tier_views());
    lemma_partition_sound(cap, gpu_tier_views());
    let (a1, u1) = partition_tiers(cap, compute_tier_views());
    let (a2, u2) = partition_tiers(cap, gpu_tier_views());
    let (a, u) = tier_selection(cap);
    assert forall|k: int| 0 <= k < a.len() implies can_host(cap, #[trigger] a[k]) by {
        if k >= a1.len() {
            assert(a[k] == a2[k - a1.len()]);
        }
    }
    assert forall|k: int| 0 <= k < u.len() implies (#[trigger] u[k]).reason.len() > 0 by {
        if k >= u1.len() {
            if cap.has_gpu {
                assert(u[k] == u2[k - u1.len()]);
            } else {
                assert(u[k] == no_gpu_entries(gpu_tier_views())[k - u1.len()]);
            }
        }
    }
}


/// The default country code for a pool location.
pub open spec fn region_country(region: Seq<char>) -> Seq<char> {
    if region == "europe"@ {
        "DE"@
    } else if region == "na"@ {
        "US"@
    } else if region == "apac"@ {
        "SG"@
    } else if region == "sa"@ {
        "BR"@
    } else if region == "africa"@ {
        "ZA"@
    } else if region == "oceania"@ {
        "AU"@
    } else if region == "mena"@ {
        "AE"@
    } else {
        "US"@
    }
}

/// Region to country code mapping for offerings.
pub fn region_to_country_code(region: &str) -> (r: &'static str)
    ensures
        r@ == region_country(region@),
{
    if str_eq(region, "europe") {
        "DE"
    } else if str_eq(region, "na") {
        "US"
    } else if str_eq(region, "apac") {
        "SG"
    } else if str_eq(region, "sa") {
        "BR"
    } else if str_eq(region, "africa") {
        "ZA"
    } else if str_eq(region, "oceania") {
        "AU"
    } else if str_eq(region, "mena") {
        "AE"
    } else {
        "US"
    }
}

/// Suggested offering based on pool capabilities.
pub struct OfferingSuggestion {
    /// Tier this suggestion is based on.
    pub tier_name: String,
    /// Suggested offering ID (format: "{pool_id}-{tier_name}").
    pub offering_id: String,
    /// Suggested display name.
    pub offer_name: String,
    /// CPU brand from pool capabilities.
    pub processor_brand: Option<String>,
    /// CPU model from pool capabilities.
    pub processor_name: Option<String>,
    /// Number of CPU cores.
    pub processor_cores: i64,
    /// Memory amount as string (e.g. "2 GB").
    pub memory_amount: String,
    /// Storage amount as string (e.g. "25 GB").
    pub total_ssd_capacity: String,
    /// GPU name if applicable.
    pub gpu_name: Option<String>,
    /// GPU count if applicable.
    pub gpu_count: Option<i64>,
    /// Available templates/operating systems.
    pub operating_systems: Option<String>,
    /// Country code from pool location.
    pub datacenter_country: String,
    /// Requires pricing to be set.
    pub needs_pricing: bool,
}

/// The mathematical content of an `OfferingSuggestion`.
pub struct SuggestionView {
    pub tier_name: Seq<char>,
    pub offering_id: Seq<char>,
    pub offer_name: Seq<char>,
    pub processor_brand: Option<Seq<char>>,
    pub processor_name: Option<Seq<char>>,
    pub processor_cores: i64,
    pub memory_amount: Seq<char>,
    pub total_ssd_capacity: Seq<char>,
    pub gpu_name: Option<Seq<char>>,
    pub gpu_count: Option<i64>,
    pub operating_systems: Option<Seq<char>>,
    pub datacenter_country: Seq<char>,
    pub needs_pricing: bool,
}

impl View for OfferingSuggestion {
    type V = SuggestionView;

    open spec fn view(&self) -> SuggestionView {
        SuggestionView {
            tier_name: self.tier_name@,
            offering_id: self.offering_id@,
            offer_name: self.offer_name@,
            processor_brand: opt_view(self.processor_brand),
            processor_name: opt_view(self.processor_name),
            processor_cores: self.processor_cores,
            memory_amount: self.memory_amount@,
            total_ssd_capacity: self.total_ssd_capacity@,
            gpu_name: opt_view(self.gpu_name),
            gpu_count: self.gpu_count,
            operating_systems: opt_view(self.operating_systems),
            datacenter_country: self.datacenter_country@,
            needs_pricing: self.needs_pricing,
        }
    }
}

/// The first item of a list, if any.
pub open spec fn first_of(items: Seq<Seq<char>>) -> Option<Seq<char>> {
    if items.len() == 0 { None } else { Some(items[0]) }
}

/// The CPU brand read off the first CPU model: "AMD" when its lowercase form
/// mentions "amd", else "Intel" when it mentions "intel", else none.
pub open spec fn cpu_brand(models: Seq<Seq<char>>) -> Option<Seq<char>> {
    if models.len() == 0 {
        None
    } else if contains_seq(unicode_lowercase(models[0]), "amd"@) {
        Some("AMD"@)
    } else if contains_seq(unicode_lowercase(models[0]), "intel"@) {
        Some("Intel"@)
    } else {
        None
    }
}

/// The templates as one comma-separated list, or none when there are none.
pub open spec fn templates_list(templates: Seq<Seq<char>>) -> Option<Seq<char>> {
    if templates.len() == 0 { None } else { Some(join(templates, ", "@)) }
}

/// The suggestion made for tier `t` of a pool.
pub open spec fn suggestion_for(
    pool_id: Seq<char>,
    pool_name: Seq<char>,
    pool_location: Seq<char>,
    cap: PoolCapabilities,
    t: TierView,
) -> SuggestionView {
    SuggestionView {
        tier_name: t.name,
        offering_id: pool_id + "-"@ + t.name,
        offer_name: t.display_name + " ("@ + pool_name + ")"@,
        processor_brand: cpu_brand(views(cap.cpu_models@)),
        processor_name: first_of(views(cap.cpu_models@)),
        processor_cores: t.cpu_cores as i64,
        memory_amount: decimal(t.memory_gb as nat) + " GB"@,
        total_ssd_capacity: decimal(t.storage_gb as nat) + " GB"@,
        gpu_name: if t.gpu_count is Some { first_of(views(cap.gpu_models@)) } else { None },
        gpu_count: match t.gpu_count {
            Some(c) => Some(c as i64),
            None => None,
        },
        operating_systems: templates_list(views(cap.available_templates@)),
        datacenter_country: region_country(pool_location),
        needs_pricing: true,
    }
}

fn first_string(items: &Vec<String>) -> (r: Option<String>)
    ensures
        opt_view(r) == first_of(views(items@)),
{
    if items.len() == 0 {
        None
    } else {
        Some(items[0].clone())
    }
}

fn brand_of(models: &Vec<String>) -> (r: Option<String>)
    ensures
        opt_view(r) == cpu_brand(views(models@)),
{
    if models.len() == 0 {
        return None;
    }
    let lower = to_lowercase(models[0].as_str());
    let lower_chars = chars_of(lower.as_str());
    let amd = chars_of("amd");
    if contains_chars(lower_chars.as_slice(), amd.as_slice()) {
        return Some(owned("AMD"));
    }
    let intel = chars_of("intel");
    if contains_chars(lower_chars.as_slice(), intel.as_slice()) {
        return Some(owned("Intel"));
    }
    None
}

fn with_gb_suffix(n: u32) -> (r: String)
    ensures
        r@ == decimal(n as nat) + " GB"@,
{
    let mut s = u64_to_string(n as u64);
    s.append(" GB");
    s
}

/// Generate offering suggestions from pool capabilities, one per tier, in
/// the order of `tiers`.
pub fn generate_suggestions(
    pool_id: &str,
    pool_name: &str,
    pool_location: &str,
    capabilities: &PoolCapabilities,
    tiers: &[OfferingTier],
) -> (r: Vec<OfferingSuggestion>)
    ensures
        r@.len() == tiers@.len(),
        forall|k: int| 0 <= k < tiers@.len() ==> (#[trigger] r@[k])@ == suggestion_for(
            pool_id@,
            pool_name@,
            pool_location@,
            *capabilities,
            tiers@[k]@,
        ),
{
    let brand = brand_of(&capabilities.cpu_models);
    let cpu_model = first_string(&capabilities.cpu_models);
    let gpu_model = first_string(&capabilities.gpu_models);
    let templates_csv = if capabilities.available_templates.len() == 0 {
        None
    } else {
        let joined = join_strings(capabilities.available_templates.as_slice(), ", ");
        Some(string_from_chars(joined.as_slice()))
    };
    let country_code = region_to_country_code(pool_location);
    let mut out: Vec<OfferingSuggestion> = Vec::new();
    let mut i: usize = 0;
    while i < tiers.len()
        invariant
            i <= tiers@.len(),
            out@.len() == i,
            opt_view(brand) == cpu_brand(views(capabilities.cpu_models@)),
            opt_view(cpu_model) == first_of(views(capabilities.cpu_models@)),
            opt_view(gpu_model) == first_of(views(capabilities.gpu_models@)),
            opt_view(templates_csv) == templates_list(views(capabilities.available_templates@)),
            country_code@ == region_country(pool_location@),
            forall|k: int| 0 <= k < i ==> (#[trigger] out@[k])@ == suggestion_for(
                pool_id@,
                pool_name@,
                pool_location@,
                *capabilities,
                tiers@[k]@,
            ),
        decreases tiers@.len() - i,
    {
        let tier = &tiers[i];
        let mut offering_id = owned(pool_id);
        offering_id.append("-");
        offering_id.append(tier.name.as_str());
        let mut offer_name = tier.display_name.clone();
        offer_name.append(" (");
        offer_name.append(pool_name);
        offer_name.append(")");
        let suggestion = OfferingSuggestion {
            tier_name: tier.name.clone(),
            offering_id,
            offer_name,
            processor_brand: clone_opt(&brand),
            processor_name: clone_opt(&cpu_model),
            processor_cores: tier.cpu_cores as i64,
            memory_amount: with_gb_suffix(tier.memory_gb),
            total_ssd_capacity: with_gb_suffix(tier.storage_gb),
            gpu_name: if tier.gpu_count.is_some() { clone_opt(&gpu_model) } else { None },
            gpu_count: match tier.gpu_count {
                Some(c) => Some(c as i64),
                None => None,
            },
            operating_systems: clone_opt(&templates_csv),
            datacenter_country: owned(country_code),
            needs_pricing: true,
        };
        out.push(suggestion);
        i = i + 1;
    }
    out
}

/// The GPU fields of a suggestion: a tier without a GPU count is suggested
/// without a GPU, whatever GPUs the pool has; a GPU tier names the pool's
/// first GPU model (none when the pool lists none) and carries the tier's
/// GPU count. The CPU cores are the tier's.
pub proof fn lemma_suggestion_gpu(
    pool_id: Seq<char>,
    pool_name: Seq<char>,
    pool_location: Seq<char>,
    cap: PoolCapabilities,
    t: TierView,
)
    ensures
        t.gpu_count is None ==> suggestion_for(pool_id, pool_name, pool_location, cap, t).gpu_name is None
            && suggestion_for(pool_id, pool_name, pool_location, cap, t).gpu_count is None,
        t.gpu_count matches Some(c) ==> suggestion_for(pool_id, pool_name, pool_location, cap, t).gpu_count == Some(c as i64),
        t.gpu_count is Some && cap.gpu_models@.len() > 0 ==> suggestion_for(pool_id, pool_name, pool_location, cap, t).gpu_name
            == Some(cap.gpu_models@[0]@),
        cap.gpu_models@.len() == 0 ==> suggestion_for(pool_id, pool_name, pool_location, cap, t).gpu_name is None,
        suggestion_for(pool_id, pool_name, pool_location, cap, t).gpu_name is Some
            ==> suggestion_for(pool_id, pool_name, pool_location, cap, t).gpu_count is Some,
        suggestion_for(pool_id, pool_name, pool_location, cap, t).processor_cores == t.cpu_cores,
        suggestion_for(pool_id, pool_name, pool_location, cap, t).tier_name == t.name,
        suggestion_for(pool_id, pool_name, pool_location, cap, t).offering_id == pool_id + "-"@ + t.name,
        suggestion_for(pool_id, pool_name, pool_location, cap, t).offer_name == t.display_name + " ("@ + pool_name + ")"@,
        suggestion_for(pool_id, pool_name, pool_location, cap, t).memory_amount == decimal(t.memory_gb as nat) + " GB"@,
        suggestion_for(pool_id, pool_name, pool_location, cap, t).total_ssd_capacity == decimal(t.storage_gb as nat) + " GB"@,
        suggestion_for(pool_id, pool_name, pool_location, cap, t).datacenter_country == region_country(pool_location),
        suggestion_for(pool_id, pool_name, pool_location, cap, t).needs_pricing,
        cap.cpu_models@.len() > 0 ==> suggestion_for(pool_id, pool_name, pool_location, cap, t).processor_name == Some(cap.cpu_models@[0]@),
        cap.cpu_models@.len() == 0 ==> suggestion_for(pool_id, pool_name, pool_location, cap, t).processor_name is None
            && suggestion_for(pool_id, pool_name, pool_location, cap, t).processor_brand is None,
        cap.available_templates@.len() == 0 ==> suggestion_for(pool_id, pool_name, pool_location, cap, t).operating_systems is None,
{
}

/// The country an offering in each pool region defaults to: Europe "DE",
/// North America "US", Asia-Pacific "SG", South America "BR", Africa "ZA",
/// Oceania "AU", the Middle East and North Africa "AE"; any other region
/// "US".
pub proof fn lemma_region_countries(region: Seq<char>)
    ensures
        region_country("europe"@) == "DE"@,
        region_country("na"@) == "US"@,
        region_country("apac"@) == "SG"@,
        region_country("sa"@) == "BR"@,
        region_country("africa"@) == "ZA"@,
        region_country("oceania"@) == "AU"@,
        region_country("mena"@) == "AE"@,
        region != "europe"@ && region != "na"@ && region != "apac"@ && region != "sa"@ && region != "africa"@
            && region != "oceania"@ && region != "mena"@ ==> region_country(region) == "US"@,
{
    reveal_strlit("europe");
    reveal_strlit("na");
    reveal_strlit("apac");
    reveal_strlit("sa");
    reveal_strlit("africa");
    reveal_strlit("oceania");
    reveal_strlit("mena");
    assert("na"@.len() != "europe"@.len());
    assert("apac"@.len() != "europe"@.len());
    assert("apac"@.len() != "na"@.len());
    assert("sa"@.len() != "europe"@.len());
    assert("sa"@[0] != "na"@[0]);
    assert("sa"@.len() != "apac"@.len());
    assert("africa"@[0] != "europe"@[0]);
    assert("africa"@.len() != "na"@.len());
    assert("africa"@.len() != "apac"@.len());
    assert("africa"@.len() != "sa"@.len());
    assert("oceania"@.len() != "europe"@.len());
    assert("oceania"@.len() != "na"@.len());
    assert("oceania"@.len() != "apac"@.len());
    assert("oceania"@.len() != "sa"@.len());
    assert("oceania"@.len() != "africa"@.len());
    assert("mena"@.len() != "europe"@.len());
    assert("mena"@.len() != "na"@.len());
    assert("mena"@[0] != "apac"@[0]);
    assert("mena"@.len() != "sa"@.len());
    assert("mena"@.len() != "africa"@.len());
    assert("mena"@.len() != "oceania"@.len());
}

/// A pool without a GPU is offered no GPU tier: every tier it gets has no
/// GPU count, and every default GPU tier is listed as unavailable for want
/// of a GPU.
pub proof fn lemma_no_gpu_pool(cap: PoolCapabilities)
    requires
        !cap.has_gpu,
    ensures
        forall|k: int| 0 <= k < tier_selection(cap).0.len() ==> (#[trigger] tier_selection(cap).0[k]).gpu_count is None,
        forall|k: int| 0 <= k < gpu_tier_views().len() ==> tier_selection(cap).1.contains(
            UnavailableView { tier: #[trigger] gpu_tier_views()[k].name, reason: "No GPU devices available in pool"@ }),
{
    lemma_partition_sound(cap, compute_tier_views());
    let (a1, u1) = partition_tiers(cap, compute_tier_views());
    assert forall|k: int| 0 <= k < a1.len() implies (#[trigger] a1[k]).gpu_count is None by {
        assert(can_host(cap, a1[k]));
    }
    assert forall|k: int| 0 <= k < gpu_tier_views().len() implies tier_selection(cap).1.contains(
        UnavailableView { tier: #[trigger] gpu_tier_views()[k].name, reason: "No GPU devices available in pool"@ }) by {
        let u = tier_selection(cap).1;
        assert(u[u1.len() + k] == no_gpu_entries(gpu_tier_views())[k]);
    }
}

} // verus!
