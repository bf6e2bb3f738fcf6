use zenou_tweaks::build_catalog;
use zenou_tweaks::catalog::CatalogEnv;
use zenou_tweaks::catalog_ext::{telemetry_tasks, tasks_disabled};
use zenou_tweaks::engine::AppliesTo;
use zenou_tweaks::ops::{parse_task_snapshot, task_state};
use zenou_tweaks::registry::{render_saved, Hive};
use zenou_tweaks::types::SavedValue;
use zenou_tweaks::winapi::{to_wide, Output};

#[test]
fn hive_parsing() {
    assert!(matches!(Hive::parse("HKCU"), Ok(Hive::CurrentUser)));
    assert!(matches!(Hive::parse("hkey_local_machine"), Ok(Hive::LocalMachine)));
    assert!(Hive::parse("bogus").is_err());
}

#[test]
fn render_saved_dword() {
    let saved = SavedValue {
        hive: "HKCU".into(),
        path: "X".into(),
        name: "Y".into(),
        reg_type: "REG_DWORD".into(),
        data: 255u32.to_le_bytes().to_vec(),
    };
    assert_eq!(render_saved(&saved), "255 (0x000000ff)");
    let absent = SavedValue {
        hive: "HKCU".into(),
        path: "X".into(),
        name: "Y".into(),
        reg_type: "ABSENT".into(),
        data: vec![],
    };
    assert_eq!(render_saved(&absent), "not set");
}

#[test]
fn catalog_builds_and_has_unique_ids() {
    let env = CatalogEnv { ram_tenths: Some(160), nvidia_keys: vec![] };
    let catalog = build_catalog(&env);
    assert!(catalog.len() >= 40, "catalog should be substantial");
    let mut ids: Vec<&str> = catalog.iter().map(|t| t.meta.id.as_str()).collect();
    ids.sort_unstable();
    let before = ids.len();
    ids.dedup();
    assert_eq!(before, ids.len(), "tweak ids must be unique");
    // Every Always-applicable tweak must have steps: registry edits, task/service hooks,
    // or command hooks. Hardware-conditional tweaks (NVIDIA/AMD/Intel) may legitimately
    // resolve to zero edits when that hardware is absent.
    for t in &catalog {
        if t.applies_to != AppliesTo::Always {
            continue;
        }
        let has_steps = !t.group.edits.is_empty() || t.extra_apply.is_some() || t.extra_restore.is_some();
        assert!(has_steps, "tweak {} has no steps", t.meta.id);
    }
}

#[test]
fn wide_strings_are_null_terminated() {
    let w = to_wide("abc");
    assert_eq!(w, vec![97, 98, 99, 0]);
}

fn output(text: &str) -> Output {
    Output { exit_code: 0, stdout: text.as_bytes().to_vec(), stderr: vec![] }
}

/// Probe of one task through the group verification over a snapshot listing.
fn vault_probe(task: &str, listing: &str) -> Option<bool> {
    let chars: Vec<char> = listing.chars().collect();
    let snapshot = Some(parse_task_snapshot(&chars));
    Some(tasks_disabled(&vec![task.to_string()], &snapshot))
}

#[test]
fn task_snapshot_matches_schtasks() {
    // A machine where every other telemetry task is disabled: the schtasks
    // report of each task and the task listing must agree.
    let tasks = telemetry_tasks();
    let mut listing = String::new();
    for (i, task) in tasks.iter().enumerate() {
        let state = if i % 2 == 0 { "Disabled" } else { "Ready" };
        listing.push_str(&format!("{}|{}\r\n", task, state));
    }
    let mut compared = 0;
    let mut unresolved = 0;
    let mut mismatches = Vec::new();
    for (i, task) in tasks.iter().enumerate() {
        let report = format!(
            "Folder: \\\r\nTaskName: {}\r\nScheduled Task State:                 {}\r\n",
            task,
            if i % 2 == 0 { "Disabled" } else { "Enabled" }
        );
        let schtasks_state = task_state(task, &output(&report)).ok().flatten();
        let Some(enabled_per_schtasks) = schtasks_state else {
            continue;
        };
        compared += 1;
        let Some(probe_all_disabled) = vault_probe(task, &listing) else {
            unresolved += 1;
            continue;
        };
        let expected = !enabled_per_schtasks;
        if probe_all_disabled != expected {
            mismatches.push(format!("{}: schtasks_disabled={} snapshot_disabled={}", task, expected, probe_all_disabled));
        }
    }
    assert!(mismatches.is_empty(), "snapshot disagrees with schtasks");
    assert_eq!(unresolved, 0, "snapshot could not classify existing tasks");
    assert!(compared > 0, "no tasks compared — test environment has none");
}
