use zenou_tweaks::commands::{operation_plan, OpStage};
use zenou_tweaks::flagged::{flagged_entries, FlagKind};
use zenou_tweaks::catalog::CatalogEnv;
use zenou_tweaks::commands::{
    admin_blocked, admin_required_result, builtin_profiles, cleanup_kind, custom_profile_id, delete_custom_profile,
    entry_result, format_steps, last_error, list_profiles, restore_point_failure, restore_point_policy,
    save_custom_profile, tweak_result, CleanupKind, Profile,
};
use zenou_tweaks::error::ZenouError;
use zenou_tweaks::settings::AppSettings;
use zenou_tweaks::types::{GroupResult, Risk, StepOutcome};
use zenou_tweaks::{acquire_lock, build_catalog, ensure_restore_point, find_tweak, release_lock, AppState};

fn ok(loc: &str) -> StepOutcome {
    StepOutcome { location: loc.into(), ok: true, error: None }
}

fn failed(loc: &str, msg: &str) -> StepOutcome {
    StepOutcome { location: loc.into(), ok: false, error: Some(msg.into()) }
}

#[test]
fn step_reports() {
    let steps = vec![ok("HKLM\\A"), failed("system command", "boom")];
    assert_eq!(format_steps(&steps), "HKLM\\A -> OK\nsystem command -> FAILED: boom");
    assert_eq!(last_error(&steps), "boom");
    assert_eq!(last_error(&[ok("x")]), "The operation did not complete.");
    let r = tweak_result("t", true, steps);
    assert!(!r.success);
    assert!(!r.restart_required);
    assert_eq!(r.error.as_deref(), Some("boom"));
    let r = tweak_result("t", true, vec![ok("x")]);
    assert!(r.success && r.restart_required && r.error.is_none() && r.details.is_none());
    let r = entry_result(&"t".to_string(), vec![failed("HKCU\\X", "no")], true);
    assert_eq!(r.error.as_deref(), Some("Some values could not be restored."));
    assert_eq!(r.details.as_deref(), Some("HKCU\\X -> FAILED: no"));
}

#[test]
fn admin_and_restore_point_policies() {
    assert!(admin_blocked(true, false));
    assert!(!admin_blocked(true, true));
    let r = admin_required_result("perf.menu-delay");
    assert!(!r.success && r.steps.is_empty());
    assert_eq!(restore_point_policy(true, Risk::High), Some(true));
    assert_eq!(restore_point_policy(true, Risk::Medium), Some(false));
    assert_eq!(restore_point_policy(true, Risk::Low), None);
    assert_eq!(restore_point_policy(false, Risk::High), None);
    let e = ZenouError::state("System Restore is disabled.".into());
    assert!(restore_point_failure("t", false, ZenouError::state("x".into())).is_none());
    let blocked = restore_point_failure("t", true, e).expect("forced failure blocks");
    assert_eq!(blocked.error.as_deref(), Some("System Restore is disabled."));
}

#[test]
fn restore_point_is_created_once_per_session() {
    let mut s = AppState::new();
    assert!(!ensure_restore_point(&mut s, false, false));
    assert!(ensure_restore_point(&mut s, false, true));
    assert!(!ensure_restore_point(&mut s, false, true));
    assert!(ensure_restore_point(&mut s, true, false), "a forced one is always created");
}

#[test]
fn operation_locks() {
    let mut s = AppState::new();
    assert!(acquire_lock(&mut s, "a").is_ok());
    match acquire_lock(&mut s, "a") {
        Err(e) => assert_eq!(e.message, "This tweak already has an operation running. Wait for it to finish."),
        Ok(_) => panic!("second lock must be refused"),
    }
    assert!(acquire_lock(&mut s, "b").is_ok());
    release_lock(&mut s, "a");
    assert_eq!(s.busy, vec!["b".to_string()]);
    assert!(acquire_lock(&mut s, "a").is_ok());
}

#[test]
fn unknown_tweak_is_reported() {
    let catalog = build_catalog(&CatalogEnv { ram_tenths: None, nvidia_keys: vec![] });
    assert!(find_tweak(&catalog, "perf.menu-delay").is_ok());
    match find_tweak(&catalog, "nope") {
        Err(e) => assert_eq!(e.message, "Unknown tweak \"nope\"."),
        Ok(_) => panic!("expected an error"),
    }
}

#[test]
fn profiles_and_favorites() {
    let builtin = builtin_profiles();
    assert_eq!(builtin.len(), 4);
    assert_eq!(builtin[0].id, "profile.gaming");
    assert_eq!(builtin[3].tweak_ids.len(), 3);
    assert_eq!(custom_profile_id("My Night Mode"), "profile.custom-my-night-mode");
    let list = save_custom_profile(vec![], "Focus", vec!["perf.menu-delay".to_string()]);
    let list = save_custom_profile(list, "Focus", vec!["win.wer-off".to_string()]);
    assert_eq!(list.len(), 1);
    assert_eq!(list[0].tweak_ids, vec!["win.wer-off".to_string()]);
    assert!(!list[0].builtin);
    let all = list_profiles(clone_profiles(&list));
    assert_eq!(all.len(), 5);
    assert!(delete_custom_profile(list, "Focus").is_empty());
    let mut settings = AppSettings::default();
    assert_eq!(settings.theme, "dark");
    settings.toggle_favorite("x");
    assert_eq!(settings.favorites, vec!["x".to_string()]);
    settings.toggle_favorite("x");
    assert!(settings.favorites.is_empty());
}

fn clone_profiles(v: &[Profile]) -> Vec<Profile> {
    v.iter()
        .map(|p| Profile {
            id: p.id.clone(),
            name: p.name.clone(),
            description: p.description.clone(),
            tweak_ids: p.tweak_ids.clone(),
            builtin: p.builtin,
        })
        .collect()
}

#[test]
fn cleanup_ids_and_group_counts() {
    assert!(matches!(cleanup_kind("cleanup.prefetch"), Ok(CleanupKind::Prefetch)));
    match cleanup_kind("cleanup.bogus") {
        Err(e) => assert_eq!(e.message, "Unknown cleanup operation \"cleanup.bogus\"."),
        Ok(_) => panic!("expected an error"),
    }
    let g = GroupResult {
        label: "g".into(),
        results: vec![
            tweak_result("a", false, vec![ok("x")]),
            tweak_result("b", false, vec![failed("x", "e")]),
        ],
        restore_point_created: false,
    };
    assert_eq!(g.success_count(), 1);
    assert_eq!(g.failed_count(), 1);
    assert_eq!(g.skipped_count(), 0);
}

#[test]
fn flagged_operations_are_ten_blocked_and_eleven_excluded() {
    let f = flagged_entries();
    assert_eq!(f.iter().filter(|e| e.kind == FlagKind::Blocked).count(), 10);
    assert_eq!(f.iter().filter(|e| e.kind == FlagKind::Excluded).count(), 11);
    assert!(f.iter().all(|e| !e.operation.is_empty() && !e.reason.is_empty()));
    let time = f.iter().find(|e| e.operation.contains("ForceSynchronizeTime")).unwrap();
    assert_eq!(time.kind, FlagKind::Blocked);
    assert!(f.iter().any(|e| e.kind == FlagKind::Blocked && e.operation.contains("bam/dam")));
}

#[test]
fn backup_comes_before_the_change() {
    assert_eq!(operation_plan(true, Risk::High), vec![OpStage::RestorePoint(true), OpStage::Backup, OpStage::Apply]);
    assert_eq!(operation_plan(true, Risk::Medium), vec![OpStage::RestorePoint(false), OpStage::Backup, OpStage::Apply]);
    assert_eq!(operation_plan(true, Risk::Low), vec![OpStage::Backup, OpStage::Apply]);
    assert_eq!(operation_plan(false, Risk::High), vec![OpStage::Restore]);
}
