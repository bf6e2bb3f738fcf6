use zenou_tweaks::catalog::{high_performance_next, PlanStep};
use zenou_tweaks::catalog::{
    adapter_key_path, all_tweaks, find_balanced_scheme, find_high_performance_scheme, fsutil_check, fsutil_from_report,
    hibernation_check, high_performance_check, nvidia_adapter_keys, nvidia_kboost_edits, nvidia_pstate_edits,
    reg_dword, svchost_threshold, CatalogEnv, HookCheck,
};
use zenou_tweaks::engine::{AppliesTo, CommandHook, RegEditKind};
use zenou_tweaks::error::ZenouError;
use zenou_tweaks::registry::{to_utf16le, RegType, RegValue};
use zenou_tweaks::scan::{GpuVendor, HardwareFacts};
use zenou_tweaks::types::Risk;

fn dword(v: u32) -> Result<Option<RegValue>, ZenouError> {
    Ok(Some(RegValue { vtype: RegType::REG_DWORD, bytes: v.to_le_bytes().to_vec() }))
}

fn text(s: &str) -> Result<Option<RegValue>, ZenouError> {
    Ok(Some(RegValue { vtype: RegType::REG_SZ, bytes: to_utf16le(s) }))
}

#[test]
fn svchost_threshold_follows_installed_ram() {
    assert_eq!(svchost_threshold(Some(80)), 8_388_608);
    assert_eq!(svchost_threshold(Some(81)), 16_777_216);
    assert_eq!(svchost_threshold(None), 16_777_216);
    assert_eq!(svchost_threshold(Some(320)), 33_554_432);
    assert_eq!(svchost_threshold(Some(640)), 67_108_864);
}

#[test]
fn catalog_has_every_section_and_only_low_risk_quick_picks() {
    let env = CatalogEnv { ram_tenths: Some(320), nvidia_keys: vec!["K".to_string()] };
    let all = all_tweaks(&env);
    assert_eq!(all.len(), 72);
    assert_eq!(all[0].meta.id, "perf.high-performance-plan");
    for t in &all {
        if t.meta.quick_optimize {
            assert_eq!(t.meta.risk, Risk::Low, "{}", t.meta.id);
        }
    }
    let svchost = all.iter().find(|t| t.meta.id == "perf.svchost-split-threshold").expect("present");
    assert!(matches!(svchost.group.edits[0].kind, RegEditKind::Dword(33_554_432)));
    let kboost = all.iter().find(|t| t.meta.id == "gpu.nvidia-kboost").expect("present");
    assert_eq!(kboost.applies_to, AppliesTo::Nvidia);
    assert_eq!(kboost.group.edits.len(), 4);
    let plan = &all[0];
    assert!(matches!(plan.extra_apply, Some(CommandHook::HighPerformancePlan)));
}

#[test]
fn vendor_tweaks_apply_only_to_their_hardware() {
    let env = CatalogEnv { ram_tenths: None, nvidia_keys: vec![] };
    let all = all_tweaks(&env);
    let nvidia = all.iter().find(|t| t.meta.id == "gpu.nvidia-preemption").expect("present");
    let amd_pc = HardwareFacts { primary_gpu: Some(GpuVendor::Amd), cpu_vendor: Some("AMD".into()) };
    let nv_pc = HardwareFacts { primary_gpu: Some(GpuVendor::Nvidia), cpu_vendor: Some("Intel".into()) };
    assert!(!nvidia.is_supported(&amd_pc));
    assert!(nvidia.is_supported(&nv_pc));
    let intel = all.iter().find(|t| t.meta.id == "gpu.intel-dedicated-segment").expect("present");
    assert!(!intel.is_supported(&nv_pc), "an Intel CPU alone is not enough");
    assert!(!intel.is_supported(&amd_pc));
    let intel_pc = HardwareFacts { primary_gpu: Some(GpuVendor::Intel), cpu_vendor: Some("AMD".into()) };
    assert!(intel.is_supported(&intel_pc));
    assert!(!nvidia.is_supported(&intel_pc));
}

#[test]
fn nvidia_adapters_are_found_by_driver_description() {
    let reads = vec![text("Intel(R) UHD Graphics"), text("NVIDIA GeForce RTX 3070"), Ok(None), Err(ZenouError::state("x".into()))];
    let keys = nvidia_adapter_keys(&reads);
    assert_eq!(keys.len(), 1);
    assert_eq!(keys[0], "SYSTEM\\CurrentControlSet\\Control\\Class\\{4d36e968-e325-11ce-bfc1-08002be10318}\\0001");
    assert_eq!(adapter_key_path(12).ends_with("\\0012"), true);
    assert_eq!(adapter_key_path(12345).ends_with("\\12345"), true);
    let edits = nvidia_kboost_edits(&keys);
    assert_eq!(edits.len(), 4);
    assert_eq!(edits[3].name, "PerfLevelSrc");
    assert!(matches!(edits[3].kind, RegEditKind::Dword(8738)));
    let p = nvidia_pstate_edits(&keys);
    assert_eq!(p.len(), 1);
    assert_eq!(p[0].name, "DisableDynamicPstate");
}

#[test]
fn command_step_checks_decide_from_the_registry() {
    assert!(matches!(hibernation_check(true, &dword(0)), HookCheck::Decided(true)));
    assert!(matches!(hibernation_check(true, &dword(1)), HookCheck::Decided(false)));
    assert!(matches!(hibernation_check(false, &Ok(None)), HookCheck::NeedsReport));
    assert!(matches!(fsutil_check("disablelastaccess", "1", &dword(0x8000_0003)), HookCheck::Decided(true)));
    assert!(matches!(fsutil_check("disablelastaccess", "1", &dword(2)), HookCheck::Decided(false)));
    assert!(matches!(fsutil_check("disable8dot3", "1", &dword(1)), HookCheck::Decided(true)));
    assert!(matches!(fsutil_check("disable8dot3", "1", &dword(2)), HookCheck::Decided(false)));
    assert!(matches!(fsutil_check("other", "1", &dword(1)), HookCheck::NeedsReport));
    assert!(fsutil_from_report("1", "DisableLastAccess = 1"));
    assert_eq!(reg_dword(&dword(7)), Some(7));
    assert_eq!(reg_dword(&Ok(Some(RegValue { vtype: RegType::REG_DWORD, bytes: vec![1, 2] }))), None);
}

#[test]
fn high_performance_plan_is_recognised() {
    let ascii = |s: &str| Ok(Some(RegValue { vtype: RegType::REG_SZ, bytes: s.as_bytes().to_vec() }));
    assert!(matches!(high_performance_check(&ascii("8C5E7FDA-E8BF-4A96-9A85-A6E23A8C635C\0")), HookCheck::Decided(true)));
    assert!(matches!(high_performance_check(&ascii("381b4222-f694-41f0-9685-ff5bb260df2e")), HookCheck::NeedsReport));
    assert!(matches!(high_performance_check(&Ok(None)), HookCheck::Decided(false)));
    let schemes = vec![
        ("b".to_string(), "Balanced".to_string()),
        ("u".to_string(), "Ultimate Performance".to_string()),
    ];
    assert_eq!(find_high_performance_scheme(&schemes), Some("u".to_string()));
    assert_eq!(find_balanced_scheme(&schemes), Some("b".to_string()));
    assert_eq!(find_high_performance_scheme(&vec![]), None);
}

#[test]
fn catalog_follows_the_machine() {
    let env = CatalogEnv { ram_tenths: Some(320), nvidia_keys: vec!["KEY0".to_string(), "KEY1".to_string()] };
    let catalog = zenou_tweaks::build_catalog(&env);
    let svchost = &catalog[5];
    assert_eq!(svchost.meta.id, "perf.svchost-split-threshold");
    assert_eq!(svchost.group.edits.len(), 1);
    assert!(matches!(svchost.group.edits[0].kind, RegEditKind::Dword(33_554_432)));
    let kboost = &catalog[42];
    assert_eq!(kboost.meta.id, "gpu.nvidia-kboost");
    assert_eq!(kboost.group.edits.len(), 8);
    assert_eq!(kboost.group.edits[4].path, "KEY1");
    assert_eq!(kboost.group.edits[7].name, "PerfLevelSrc");
    assert!(matches!(kboost.group.edits[7].kind, RegEditKind::Dword(8738)));
    let pstate = &catalog[44];
    assert_eq!(pstate.meta.id, "gpu.nvidia-pstates0");
    assert_eq!(pstate.group.edits.len(), 2);
    assert_eq!(pstate.group.edits[1].path, "KEY1");
    assert_eq!(pstate.group.edits[1].name, "DisableDynamicPstate");
    let none = zenou_tweaks::build_catalog(&CatalogEnv { ram_tenths: None, nvidia_keys: Vec::new() });
    assert!(none[42].group.edits.is_empty());
    assert!(matches!(none[5].group.edits[0].kind, RegEditKind::Dword(16_777_216)));
}

#[test]
fn high_performance_plan_steps() {
    let pair = |g: &str, n: &str| (g.to_string(), n.to_string());
    let with_hp = vec![pair("b-1", "Balanced"), pair("h-1", "High performance")];
    assert!(matches!(high_performance_next(&with_hp, &None), PlanStep::Activate(g) if g == "h-1"));
    let without = vec![pair("b-1", "Balanced")];
    assert!(matches!(high_performance_next(&without, &None), PlanStep::Duplicate));
    let after = vec![pair("b-1", "Balanced"), pair("n-2", "Copy")];
    assert!(matches!(high_performance_next(&without, &Some(after)), PlanStep::Activate(g) if g == "n-2"));
    assert!(matches!(high_performance_next(&without, &Some(without.clone())), PlanStep::Fail(e) if e.code == "state"));
}
