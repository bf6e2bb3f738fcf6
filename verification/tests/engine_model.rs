use zenou_tweaks::backup::{BackupStore, GroupReads};
use zenou_tweaks::engine::{
    restore_outcome, AppliesTo, ApplyAction, ApplyEvent, CommandHook, RegEdit, RegEditKind, Tweak,
};
use zenou_tweaks::error::ZenouError;
use zenou_tweaks::registry::{Hive, RegAction, RegType, RegValue};
use zenou_tweaks::types::{Risk, StepOutcome, TweakCategory, TweakState};

/// A registry held in memory.
struct Model {
    values: Vec<(Hive, String, String, RegValue)>,
}

impl Model {
    fn get(&self, hive: Hive, path: &str, name: &str) -> Option<RegValue> {
        self.values
            .iter()
            .find(|(h, p, n, _)| *h == hive && p == path && n == name)
            .map(|(_, _, _, v)| v.duplicate())
    }

    fn perform(&mut self, a: RegAction) {
        match a {
            RegAction::Write { hive, path, name, value } => {
                self.values.retain(|(h, p, n, _)| !(*h == hive && *p == path && *n == name));
                self.values.push((hive, path, name, value));
            }
            RegAction::Delete { hive, path, name } => {
                self.values.retain(|(h, p, n, _)| !(*h == hive && *p == path && *n == name));
            }
        }
    }

    fn dword(&self, path: &str, name: &str) -> Option<u32> {
        self.get(Hive::CurrentUser, path, name)
            .map(|v| u32::from_le_bytes([v.bytes[0], v.bytes[1], v.bytes[2], v.bytes[3]]))
    }
}

fn edit(path: &str, name: &str, value: u32) -> RegEdit {
    RegEdit { hive: Hive::CurrentUser, path: path.into(), name: name.into(), kind: RegEditKind::Dword(value) }
}

fn make_tweak(edits: Vec<RegEdit>) -> Tweak {
    Tweak::simple(
        "test.tweak",
        "Test tweak",
        "Internal test tweak",
        TweakCategory::Performance,
        Risk::Low,
        false,
        false,
        "Writes a scratch registry value.",
        false,
        AppliesTo::Always,
        true,
        edits,
    )
}

fn reads(t: &Tweak, m: &Model) -> Vec<Result<Option<RegValue>, ZenouError>> {
    t.group.edits.iter().map(|e| Ok(m.get(e.hive, &e.path, &e.name))).collect()
}

/// Drives an apply run against the model; command steps behave as their hooks say.
fn run_apply(t: &Tweak, m: &mut Model) -> Vec<StepOutcome> {
    let (mut run, mut action) = t.apply();
    loop {
        let ev = match action {
            ApplyAction::ReadValue(i) => {
                let e = &t.group.edits[i];
                ApplyEvent::Read(Ok(m.get(e.hive, &e.path, &e.name)))
            }
            ApplyAction::WriteValue(i) => {
                m.perform(t.group.edits[i].apply());
                ApplyEvent::Wrote(Ok(()))
            }
            ApplyAction::Revert(sv) => match zenou_tweaks::registry::restore(&sv) {
                Ok(a) => {
                    m.perform(a);
                    ApplyEvent::Reverted(Ok(()))
                }
                Err(e) => ApplyEvent::Reverted(Err(e)),
            },
            ApplyAction::RunApplyHook => match &t.extra_apply {
                Some(CommandHook::FailForTest) => {
                    ApplyEvent::HookRan(Err(ZenouError::command("Intentional test failure.".into(), None)))
                }
                _ => ApplyEvent::HookRan(Ok(())),
            },
            ApplyAction::RunVerifyHook => ApplyEvent::HookChecked(Ok(true)),
            ApplyAction::RunRestoreHook => ApplyEvent::HookRan(Ok(())),
            ApplyAction::Finish => break,
        };
        action = run.step(t, ev);
    }
    run.outcomes
}

fn run_restore(t: &Tweak, saved: &[zenou_tweaks::types::SavedValue], m: &mut Model) -> Vec<StepOutcome> {
    let mut outcomes = Vec::new();
    for step in t.restore(saved) {
        if step.runs_undo {
            outcomes.push(restore_outcome(step.location, Ok(())));
            continue;
        }
        let result = match step.action {
            None => Ok(()),
            Some(Err(e)) => Err(e),
            Some(Ok(a)) => {
                m.perform(a);
                Ok(())
            }
        };
        outcomes.push(restore_outcome(step.location, result));
    }
    outcomes
}

#[test]
fn apply_verify_restore_round_trip() {
    let path = "SOFTWARE\\ZenouTweaksTest\\roundtrip";
    let mut m = Model { values: vec![] };
    m.perform(RegAction::Write {
        hive: Hive::CurrentUser,
        path: path.into(),
        name: "TestValue".into(),
        value: RegValue { vtype: RegType::REG_DWORD, bytes: 111u32.to_le_bytes().to_vec() },
    });
    let t = make_tweak(vec![edit(path, "TestValue", 222)]);
    assert_eq!(t.check_state(true, &reads(&t, &m), None), TweakState::Available);
    let saved = match t.capture_all(&reads(&t, &m)) {
        Ok(s) => s,
        Err(_) => panic!("capture failed"),
    };
    let outcomes = run_apply(&t, &mut m);
    assert!(outcomes.iter().all(|o| o.ok), "apply outcomes should succeed");
    assert_eq!(t.check_state(true, &reads(&t, &m), None), TweakState::Applied);
    let restored = run_restore(&t, &saved, &mut m);
    assert!(restored.iter().all(|o| o.ok));
    assert_eq!(m.dword(path, "TestValue"), Some(111));
}

#[test]
fn capture_absent_and_restore_deletes() {
    let path = "SOFTWARE\\ZenouTweaksTest\\absent";
    let mut m = Model { values: vec![] };
    let t = make_tweak(vec![edit(path, "TestValue", 5)]);
    let saved = match t.capture_all(&reads(&t, &m)) {
        Ok(s) => s,
        Err(_) => panic!("capture failed"),
    };
    assert_eq!(saved[0].reg_type, "ABSENT");
    let outcomes = run_apply(&t, &mut m);
    assert!(outcomes.iter().all(|o| o.ok));
    assert!(m.get(Hive::CurrentUser, path, "TestValue").is_some());
    let restored = run_restore(&t, &saved, &mut m);
    assert!(restored.iter().all(|o| o.ok), "restore of ABSENT should delete");
    assert!(m.get(Hive::CurrentUser, path, "TestValue").is_none());
}

#[test]
fn failed_step_rolls_back_completed_steps() {
    let path = "SOFTWARE\\ZenouTweaksTest\\rollback";
    let mut m = Model { values: vec![] };
    m.perform(RegAction::Write {
        hive: Hive::CurrentUser,
        path: path.into(),
        name: "GoodValue".into(),
        value: RegValue { vtype: RegType::REG_DWORD, bytes: 1u32.to_le_bytes().to_vec() },
    });
    let t = make_tweak(vec![edit(path, "GoodValue", 9)]).with_failing_hook();
    let outcomes = run_apply(&t, &mut m);
    assert!(!outcomes.iter().all(|o| o.ok), "command step should fail");
    assert_eq!(m.dword(path, "GoodValue"), Some(1), "rollback should restore the original value");
    // The registry step is marked as rolled back; the failed command step keeps its error.
    assert_eq!(outcomes[0].error.as_deref(), Some("Rolled back."));
    assert_eq!(outcomes[1].location, "system command");
    assert_eq!(outcomes[1].error.as_deref(), Some("Intentional test failure."));
}

#[test]
fn second_edit_failure_rolls_back_the_first() {
    let path = "SOFTWARE\\ZenouTweaksTest\\two";
    let mut m = Model { values: vec![] };
    let t = make_tweak(vec![edit(path, "A", 1), edit(path, "B", 2)]);
    let (mut run, mut action) = t.apply();
    let mut writes = 0;
    loop {
        let ev = match action {
            ApplyAction::ReadValue(i) => {
                let e = &t.group.edits[i];
                ApplyEvent::Read(Ok(m.get(e.hive, &e.path, &e.name)))
            }
            ApplyAction::WriteValue(i) => {
                writes += 1;
                if writes == 2 {
                    ApplyEvent::Wrote(Err(ZenouError::registry("Access denied.".into(), None)))
                } else {
                    m.perform(t.group.edits[i].apply());
                    ApplyEvent::Wrote(Ok(()))
                }
            }
            ApplyAction::Revert(sv) => {
                m.perform(zenou_tweaks::registry::restore(&sv).ok().expect("known hive"));
                ApplyEvent::Reverted(Ok(()))
            }
            ApplyAction::Finish => break,
            _ => ApplyEvent::HookRan(Ok(())),
        };
        action = run.step(&t, ev);
    }
    assert!(m.get(Hive::CurrentUser, path, "A").is_none(), "the first edit is undone");
    assert!(m.get(Hive::CurrentUser, path, "B").is_none());
    assert!(!run.all_ok);
    assert_eq!(run.outcomes.len(), 2);
    assert_eq!(run.outcomes[0].error.as_deref(), Some("Rolled back."));
    assert_eq!(run.outcomes[1].error.as_deref(), Some("Access denied."));
}

#[test]
fn target_already_in_place_is_not_written() {
    let path = "SOFTWARE\\ZenouTweaksTest\\probe";
    let mut m = Model { values: vec![] };
    m.perform(RegAction::Write {
        hive: Hive::CurrentUser,
        path: path.into(),
        name: "V".into(),
        value: RegValue { vtype: RegType::REG_DWORD, bytes: 7u32.to_le_bytes().to_vec() },
    });
    let t = make_tweak(vec![edit(path, "V", 7)]);
    let (mut run, action) = t.apply();
    assert!(matches!(action, ApplyAction::ReadValue(0)));
    let next = run.step(&t, ApplyEvent::Read(Ok(m.get(Hive::CurrentUser, path, "V"))));
    assert!(matches!(next, ApplyAction::Finish));
    assert!(run.all_ok);
    assert_eq!(run.outcomes.len(), 1);
    assert!(run.outcomes[0].ok);
}

#[test]
fn inverted_state_and_command_verification() {
    let t = Tweak::simple(
        "test.inverted",
        "Inverted",
        "",
        TweakCategory::Windows,
        Risk::Low,
        false,
        false,
        "",
        false,
        AppliesTo::Always,
        false,
        vec![RegEdit {
            hive: Hive::CurrentUser,
            path: "X".into(),
            name: "Y".into(),
            kind: RegEditKind::Delete,
        }],
    );
    let absent: Vec<Result<Option<RegValue>, ZenouError>> = vec![Ok(None)];
    let present: Vec<Result<Option<RegValue>, ZenouError>> =
        vec![Ok(Some(RegValue { vtype: RegType::REG_DWORD, bytes: vec![1, 0, 0, 0] }))];
    // Inverted: the applied state means the values are absent.
    assert_eq!(t.check_state(true, &absent, None), TweakState::Applied);
    assert_eq!(t.check_state(true, &present, None), TweakState::Available);
    assert_eq!(t.check_state(true, &absent, Some(Ok(false))), TweakState::Partial);
    assert_eq!(t.check_state(true, &present, Some(Ok(false))), TweakState::Available);
    assert_eq!(t.check_state(true, &present, Some(Ok(true))), TweakState::Partial);
    assert_eq!(t.check_state(true, &present, Some(Err(ZenouError::state("x".into())))), TweakState::Unknown);
    assert_eq!(t.check_state(false, &[], None), TweakState::Unsupported);
    // A tweak without edits: the command check is its only part.
    let cmd = make_tweak(vec![]);
    assert_eq!(cmd.check_state(true, &[], Some(Ok(false))), TweakState::Available);
    assert_eq!(cmd.check_state(true, &[], Some(Ok(true))), TweakState::Applied);
    assert_eq!(cmd.check_state(true, &[], None), TweakState::Applied);
    // Edits none applied plus a check answering yes: part of the target is in effect.
    let one = make_tweak(vec![edit("P", "V", 1)]);
    assert_eq!(one.check_state(true, &[Ok(None)], Some(Ok(true))), TweakState::Partial);
}

#[test]
fn restore_plan_ends_with_the_command_undo_step() {
    let t = make_tweak(vec![edit("PA", "A", 1), edit("PB", "B", 2)]).with_hooks(
        Some(CommandHook::FlushDns),
        None,
        Some(CommandHook::BalancedPlan),
    );
    let m = Model { values: vec![] };
    let saved = match t.capture_all(&reads(&t, &m)) {
        Ok(s) => s,
        Err(_) => panic!("capture failed"),
    };
    let plan = t.restore(&saved);
    assert_eq!(plan.len(), 3);
    assert!(plan[0].location.contains("B") && plan[1].location.contains("A"));
    assert!(!plan[0].runs_undo);
    assert_eq!(plan[2].location, "system command");
    assert!(plan[2].runs_undo);
    assert!(plan[2].action.is_none());
    let plain = make_tweak(vec![edit("P", "A", 1)]);
    assert_eq!(plain.restore(&[]).len(), 1);
}

#[test]
fn backups_record_group_task_and_service_states() {
    let tasks = make_tweak(vec![]).with_hooks(
        Some(CommandHook::DisableTasks(vec!["\\T1".to_string(), "\\T2".to_string()])),
        None,
        None,
    );
    let services = make_tweak(vec![]).with_hooks(
        Some(CommandHook::DisableServices(vec!["S1".to_string(), "S2".to_string(), "S3".to_string()])),
        None,
        None,
    );
    let store = BackupStore::new("dir".to_string());
    let groups = vec![
        GroupReads { tasks: vec![Some(true), None], services: vec![] },
        GroupReads { tasks: vec![], services: vec![Ok(Some(2)), Ok(None), Err(ZenouError::state("x".into()))] },
    ];
    let entries = match store.capture_entries(&vec![&tasks, &services], &vec![vec![], vec![]], &groups) {
        Ok(e) => e,
        Err(_) => panic!("capture failed"),
    };
    assert_eq!(entries[0].task_states, vec![("\\T1".to_string(), true)]);
    assert!(entries[0].service_states.is_empty());
    assert_eq!(entries[1].service_states, vec![("S1".to_string(), 2)]);
    assert!(entries[1].task_states.is_empty());
}

#[test]
fn rollback_restores_a_value_two_edits_share() {
    let path = "SOFTWARE\\ZenouTweaksTest\\shared";
    let mut m = Model { values: vec![] };
    m.perform(RegAction::Write {
        hive: Hive::CurrentUser,
        path: path.into(),
        name: "V".into(),
        value: RegValue { vtype: RegType::REG_DWORD, bytes: 7u32.to_le_bytes().to_vec() },
    });
    let t = make_tweak(vec![edit(path, "V", 1), edit(path, "V", 2)]).with_failing_hook();
    let outcomes = run_apply(&t, &mut m);
    assert!(!outcomes.iter().all(|o| o.ok));
    assert_eq!(m.dword(path, "V"), Some(7), "newest-first rollback restores the first original");
}
