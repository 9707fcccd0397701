use dcc_api_core::tiers::{
    check_tier_eligibility, default_compute_tiers, default_gpu_tiers, generate_suggestions,
    region_to_country_code, select_applicable_tiers, PoolCapabilities,
};

fn pool(
    pool_id: &str,
    online_agents: u32,
    total_cpu_cores: u32,
    min_agent_cpu_cores: u32,
    total_memory_mb: u64,
    min_agent_memory_mb: u64,
    total_storage_gb: u64,
    min_agent_storage_gb: u64,
    cpu_models: Vec<String>,
    has_gpu: bool,
    gpu_models: Vec<String>,
    available_templates: Vec<String>,
) -> PoolCapabilities {
    PoolCapabilities {
        pool_id: pool_id.to_string(),
        online_agents,
        total_cpu_cores,
        min_agent_cpu_cores,
        total_memory_mb,
        min_agent_memory_mb,
        total_storage_gb,
        min_agent_storage_gb,
        cpu_models,
        has_gpu,
        gpu_models,
        available_templates,
    }
}

#[test]
fn test_tier_selection_with_sufficient_resources() {
    // Pool with resources sufficient for small and medium tiers
    let capabilities = PoolCapabilities {
        pool_id: "test-pool".to_string(),
        online_agents: 2,
        total_cpu_cores: 16,
        min_agent_cpu_cores: 8,
        total_memory_mb: 32 * 1024, // 32 GB
        min_agent_memory_mb: 16 * 1024,
        total_storage_gb: 500,
        min_agent_storage_gb: 250,
        cpu_models: vec!["AMD EPYC 7763".to_string()],
        has_gpu: false,
        gpu_models: vec![],
        available_templates: vec!["ubuntu-22.04".to_string()],
    };

    let (applicable, unavailable) = select_applicable_tiers(&capabilities);

    // Should have small, medium, and large (but not xlarge)
    let tier_names: Vec<_> = applicable.iter().map(|t| t.name.as_str()).collect();
    assert!(tier_names.contains(&"small"), "Small tier should be available");
    assert!(tier_names.contains(&"medium"), "Medium tier should be available");
    assert!(tier_names.contains(&"large"), "Large tier should be available");
    assert!(
        !tier_names.contains(&"xlarge"),
        "XLarge tier should NOT be available (need 32 cores)"
    );

    // GPU tier should be unavailable
    let unavailable_names: Vec<_> = unavailable.iter().map(|t| t.tier.as_str()).collect();
    assert!(
        unavailable_names.contains(&"gpu-small"),
        "GPU tier should be unavailable (no GPU)"
    );
}

#[test]
fn test_tier_selection_with_gpu() {
    // Pool with GPU
    let capabilities = PoolCapabilities {
        pool_id: "gpu-pool".to_string(),
        online_agents: 1,
        total_cpu_cores: 32,
        min_agent_cpu_cores: 32,
        total_memory_mb: 128 * 1024, // 128 GB
        min_agent_memory_mb: 128 * 1024,
        total_storage_gb: 2000,
        min_agent_storage_gb: 2000,
        cpu_models: vec!["AMD EPYC 7763".to_string()],
        has_gpu: true,
        gpu_models: vec!["NVIDIA RTX 4090".to_string()],
        available_templates: vec!["ubuntu-22.04".to_string()],
    };

    let (applicable, _unavailable) = select_applicable_tiers(&capabilities);

    // Should have all tiers including GPU
    let tier_names: Vec<_> = applicable.iter().map(|t| t.name.as_str()).collect();
    assert!(tier_names.contains(&"small"), "Small tier should be available");
    assert!(tier_names.contains(&"medium"), "Medium tier should be available");
    assert!(tier_names.contains(&"large"), "Large tier should be available");
    assert!(tier_names.contains(&"xlarge"), "XLarge tier should be available");
    assert!(tier_names.contains(&"gpu-small"), "GPU tier should be available");
}

#[test]
fn test_tier_selection_with_insufficient_resources() {
    // Pool with minimal resources
    let capabilities = PoolCapabilities {
        pool_id: "tiny-pool".to_string(),
        online_agents: 1,
        total_cpu_cores: 2,
        min_agent_cpu_cores: 2,
        total_memory_mb: 4 * 1024, // 4 GB
        min_agent_memory_mb: 4 * 1024,
        total_storage_gb: 50,
        min_agent_storage_gb: 50,
        cpu_models: vec!["Intel Xeon".to_string()],
        has_gpu: false,
        gpu_models: vec![],
        available_templates: vec![],
    };

    let (applicable, unavailable) = select_applicable_tiers(&capabilities);

    // No tiers should be available (need at least 4 cores for small)
    assert!(
        applicable.is_empty(),
        "No tiers should be available with insufficient resources"
    );

    // All tiers should be unavailable with reasons
    assert!(
        unavailable.len() >= 4,
        "All compute tiers + GPU tier should be marked unavailable"
    );

    // Check that reasons are provided
    for tier in &unavailable {
        assert!(
            !tier.reason.is_empty(),
            "Unavailable tier {} should have a reason",
            tier.tier
        );
    }
}

#[test]
fn test_generate_suggestions() {
    let capabilities = PoolCapabilities {
        pool_id: "eu-pool".to_string(),
        online_agents: 2,
        total_cpu_cores: 16,
        min_agent_cpu_cores: 8,
        total_memory_mb: 32 * 1024,
        min_agent_memory_mb: 16 * 1024,
        total_storage_gb: 500,
        min_agent_storage_gb: 250,
        cpu_models: vec!["AMD EPYC 7763 64-Core Processor".to_string()],
        has_gpu: false,
        gpu_models: vec![],
        available_templates: vec!["ubuntu-22.04".to_string(), "debian-12".to_string()],
    };

    // Generate suggestions for first 2 tiers
    let tiers: Vec<_> = default_compute_tiers().into_iter().take(2).collect();
    let suggestions = generate_suggestions("eu-pool", "EU Pool", "europe", &capabilities, &tiers);

    assert_eq!(suggestions.len(), 2, "Should generate 2 suggestions");

    // Check first suggestion
    let small = &suggestions[0];
    assert_eq!(small.tier_name, "small");
    assert_eq!(small.offering_id, "eu-pool-small");
    assert_eq!(small.offer_name, "Basic VPS (EU Pool)");
    assert_eq!(small.processor_cores, 1);
    assert_eq!(small.memory_amount, "2 GB");
    assert_eq!(small.total_ssd_capacity, "25 GB");
    assert_eq!(small.datacenter_country, "DE"); // Default for Europe
    assert!(small.processor_brand.is_some());
    assert_eq!(small.processor_brand.as_deref(), Some("AMD"));
    assert!(small.needs_pricing);

    // Check medium suggestion
    let medium = &suggestions[1];
    assert_eq!(medium.tier_name, "medium");
    assert_eq!(medium.processor_cores, 2);
    assert_eq!(medium.memory_amount, "4 GB");
}

#[test]
fn test_tier_eligibility_min_agent_check() {
    // Pool has lots of total resources, but smallest agent is tiny
    let capabilities = PoolCapabilities {
        pool_id: "heterogeneous-pool".to_string(),
        online_agents: 10,
        total_cpu_cores: 100,        // Lots total
        min_agent_cpu_cores: 1,      // But smallest agent only has 1 core
        total_memory_mb: 256 * 1024, // Lots total
        min_agent_memory_mb: 1024,   // But smallest has only 1 GB
        total_storage_gb: 5000,      // Lots total
        min_agent_storage_gb: 10,    // But smallest has only 10 GB
        cpu_models: vec!["Intel Xeon".to_string()],
        has_gpu: false,
        gpu_models: vec![],
        available_templates: vec![],
    };

    let (applicable, unavailable) = select_applicable_tiers(&capabilities);

    // No tiers should be available because min agent is too small
    assert!(
        applicable.is_empty(),
        "No tiers should be available when smallest agent cannot host them"
    );

    // Check that unavailability reasons mention agent constraints
    let small_tier = unavailable.iter().find(|t| t.tier == "small");
    assert!(small_tier.is_some(), "Small tier should be in unavailable list");
    assert!(
        small_tier.unwrap().reason.contains("agent"),
        "Reason should mention agent constraint"
    );
}

#[test]
fn default_tiers_are_listed_in_size_order() {
    let compute = default_compute_tiers();
    let names: Vec<_> = compute.iter().map(|t| t.name.as_str()).collect();
    assert_eq!(names, vec!["small", "medium", "large", "xlarge"]);
    assert_eq!(compute[3].display_name, "High Performance VPS");
    assert_eq!(compute[3].min_pool_cpu, 32);
    let gpu = default_gpu_tiers();
    assert_eq!(gpu.len(), 1);
    assert_eq!(gpu[0].name, "gpu-small");
    assert_eq!(gpu[0].gpu_count, Some(1));
}

#[test]
fn eligibility_reports_the_first_shortfall_exactly() {
    let tiers = default_compute_tiers();
    let small = &tiers[0];
    let short_pool_cpu = pool("p", 1, 2, 2, 4096, 4096, 50, 50, vec![], false, vec![], vec![]);
    assert_eq!(
        check_tier_eligibility(&short_pool_cpu, small),
        Err("Need 4 total CPU cores (have 2)".to_string())
    );
    let short_memory = pool("p", 1, 8, 8, 4 * 1024 + 1000, 4096, 500, 500, vec![], false, vec![], vec![]);
    assert_eq!(
        check_tier_eligibility(&short_memory, small),
        Err("Need 8 GB total memory (have 4 GB)".to_string())
    );
    let short_storage = pool("p", 1, 8, 8, 8192, 8192, 99, 99, vec![], false, vec![], vec![]);
    assert_eq!(
        check_tier_eligibility(&short_storage, small),
        Err("Need 100 GB total storage (have 99 GB)".to_string())
    );
    let agent_memory = pool("p", 1, 8, 8, 8192, 1500, 500, 500, vec![], false, vec![], vec![]);
    assert_eq!(
        check_tier_eligibility(&agent_memory, small),
        Err("Smallest agent has 1 GB memory, tier needs 2 GB".to_string())
    );
    let agent_storage = pool("p", 1, 8, 8, 8192, 8192, 500, 20, vec![], false, vec![], vec![]);
    assert_eq!(
        check_tier_eligibility(&agent_storage, small),
        Err("Smallest agent has 20 GB storage, tier needs 25 GB".to_string())
    );
    let agent_cpu = pool("p", 1, 8, 0, 8192, 8192, 500, 500, vec![], false, vec![], vec![]);
    assert_eq!(
        check_tier_eligibility(&agent_cpu, small),
        Err("Smallest agent has 0 cores, tier needs 1".to_string())
    );
    let roomy = pool("p", 1, 8, 8, 8192, 8192, 500, 500, vec![], false, vec![], vec![]);
    assert_eq!(check_tier_eligibility(&roomy, small), Ok(()));
}

#[test]
fn eligibility_needs_a_gpu_for_gpu_tiers() {
    let gpu = default_gpu_tiers();
    let no_gpu = pool("p", 1, 64, 64, 262144, 262144, 4000, 4000, vec![], false, vec![], vec![]);
    assert_eq!(
        check_tier_eligibility(&no_gpu, &gpu[0]),
        Err("No GPU devices available in pool".to_string())
    );
}

#[test]
fn selection_splits_every_default_tier_once() {
    // Selection law on concrete values: every default tier is either offered
    // or refused with a reason, never both.
    let caps = pool("p", 2, 16, 8, 32 * 1024, 16 * 1024, 500, 250, vec![], false, vec![], vec![]);
    let (applicable, unavailable) = select_applicable_tiers(&caps);
    assert_eq!(applicable.len() + unavailable.len(), 5);
    let offered: Vec<_> = applicable.iter().map(|t| t.name.clone()).collect();
    for u in &unavailable {
        assert!(!offered.contains(&u.tier));
        assert!(!u.reason.is_empty());
    }
    for t in &applicable {
        assert_eq!(check_tier_eligibility(&caps, t), Ok(()));
    }
    let xlarge = unavailable.iter().find(|t| t.tier == "xlarge").unwrap();
    assert_eq!(xlarge.reason, "Need 32 total CPU cores (have 16)");
}

#[test]
fn regions_map_to_country_codes() {
    assert_eq!(region_to_country_code("europe"), "DE");
    assert_eq!(region_to_country_code("na"), "US");
    assert_eq!(region_to_country_code("apac"), "SG");
    assert_eq!(region_to_country_code("sa"), "BR");
    assert_eq!(region_to_country_code("africa"), "ZA");
    assert_eq!(region_to_country_code("oceania"), "AU");
    assert_eq!(region_to_country_code("mena"), "AE");
    assert_eq!(region_to_country_code("antarctica"), "US");
}

#[test]
fn gpu_suggestion_names_the_gpu_and_lists_templates() {
    let caps = pool(
        "gpu",
        1,
        32,
        32,
        131072,
        131072,
        2000,
        2000,
        vec!["Intel Xeon Gold".to_string()],
        true,
        vec!["NVIDIA RTX 4090".to_string()],
        vec!["ubuntu-22.04".to_string(), "debian-12".to_string()],
    );
    let tiers = default_gpu_tiers();
    let s = generate_suggestions("gpu", "GPU Pool", "apac", &caps, &tiers);
    assert_eq!(s.len(), 1);
    assert_eq!(s[0].offering_id, "gpu-gpu-small");
    assert_eq!(s[0].offer_name, "GPU Instance (GPU Pool)");
    assert_eq!(s[0].processor_brand.as_deref(), Some("Intel"));
    assert_eq!(s[0].processor_name.as_deref(), Some("Intel Xeon Gold"));
    assert_eq!(s[0].gpu_name.as_deref(), Some("NVIDIA RTX 4090"));
    assert_eq!(s[0].gpu_count, Some(1));
    assert_eq!(s[0].operating_systems.as_deref(), Some("ubuntu-22.04, debian-12"));
    assert_eq!(s[0].memory_amount, "16 GB");
    assert_eq!(s[0].total_ssd_capacity, "100 GB");
    assert_eq!(s[0].datacenter_country, "SG");
}

#[test]
fn suggestion_without_known_cpu_brand_or_templates() {
    let caps = pool("p", 1, 8, 8, 8192, 8192, 500, 500, vec!["ARM Neoverse".to_string()], false, vec![], vec![]);
    let tiers = default_compute_tiers();
    let s = generate_suggestions("p", "P", "na", &caps, &tiers[..1]);
    assert_eq!(s[0].processor_brand, None);
    assert_eq!(s[0].operating_systems, None);
    assert_eq!(s[0].gpu_name, None);
    assert_eq!(s[0].gpu_count, None);
}
