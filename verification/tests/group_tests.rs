use zenou_tweaks::ops::TaskEntry;
use zenou_tweaks::catalog_ext::{
    load_service_captures, load_task_captures, nvidia_telemetry_tasks, restore_result, service_restore_plan,
    services_disabled, task_restore_plan, tasks_disabled, telemetry_tasks, unnecessary_services, ServiceAction,
    ServiceEvent, ServiceRun, TaskAction, TaskEvent, TaskRun,
};
use zenou_tweaks::error::ZenouError;
use zenou_tweaks::ops::ServiceStart;

#[test]
fn group_lists_have_their_sizes() {
    assert_eq!(telemetry_tasks().len(), 31);
    assert_eq!(unnecessary_services().len(), 18);
    assert_eq!(nvidia_telemetry_tasks().len(), 7);
}

#[test]
fn failed_task_disable_re_enables_captured_tasks() {
    let tasks = vec!["\\A".to_string(), "\\B".to_string(), "\\C".to_string()];
    let (mut run, mut action) = TaskRun::start(&tasks);
    let mut enabled_again = Vec::new();
    let mut disabled = Vec::new();
    loop {
        let ev = match action {
            TaskAction::Snapshot => TaskEvent::Snapshot(Some(vec!["\\B".to_string()])),
            TaskAction::QueryState(_) => TaskEvent::Queried(Ok(Some(true))),
            TaskAction::Disable(i) => {
                if i == 2 {
                    TaskEvent::Changed(Err(ZenouError::command("Access is denied.".into(), None)))
                } else {
                    disabled.push(tasks[i].clone());
                    TaskEvent::Changed(Ok(()))
                }
            }
            TaskAction::Enable(j) => {
                enabled_again.push(run.captured[j].0.clone());
                TaskEvent::Changed(Ok(()))
            }
            TaskAction::Finish => break,
        };
        action = run.step(&tasks, ev);
    }
    assert_eq!(disabled, vec!["\\A".to_string()]);
    // B was already disabled and is left alone; A and the failed C are re-enabled.
    assert_eq!(enabled_again, vec!["\\A".to_string(), "\\C".to_string()]);
    assert_eq!(run.error.map(|e| e.message), Some("Access is denied.".to_string()));
    assert_eq!(run.captured.len(), 3);
    assert!(!run.captured[1].1);
}

#[test]
fn absent_task_is_passed_over() {
    let tasks = vec!["\\A".to_string()];
    let (mut run, action) = TaskRun::start(&tasks);
    assert!(matches!(action, TaskAction::Snapshot));
    let a = run.step(&tasks, TaskEvent::Snapshot(None));
    assert!(matches!(a, TaskAction::QueryState(0)));
    let a = run.step(&tasks, TaskEvent::Queried(Err(ZenouError::command("x".into(), None))));
    assert!(matches!(a, TaskAction::Disable(0)), "a failed query counts as enabled");
    let a = run.step(&tasks, TaskEvent::Changed(Err(ZenouError::new("task-absent", "gone".into(), None))));
    assert!(matches!(a, TaskAction::Finish));
    assert!(run.error.is_none());
}

#[test]
fn failed_service_disable_puts_back_start_types() {
    let services = vec!["S1".to_string(), "S2".to_string(), "S3".to_string()];
    let (mut run, mut action) = ServiceRun::start(&services);
    let mut restored = Vec::new();
    loop {
        let ev = match action {
            ServiceAction::ReadStart(i) => ServiceEvent::StartValue(Ok([Some(2), Some(4), Some(3)][i])),
            ServiceAction::Disable(i) => {
                if i == 2 {
                    ServiceEvent::Changed(Err(ZenouError::command("refused".into(), None)))
                } else {
                    ServiceEvent::Changed(Ok(()))
                }
            }
            ServiceAction::Restore(j) => {
                let (name, value) = &run.captured[j];
                restored.push((name.clone(), value.map(ServiceStart::from_start_value)));
                ServiceEvent::Changed(Ok(()))
            }
            ServiceAction::Finish => break,
        };
        action = run.step(&services, ev);
    }
    assert_eq!(
        restored,
        vec![("S1".to_string(), Some(ServiceStart::Auto)), ("S3".to_string(), Some(ServiceStart::Demand))]
    );
    assert!(run.error.is_some());
}

#[test]
fn group_verification_and_restore_plans() {
    let tasks = vec!["\\A".to_string(), "B".to_string()];
    let entry = |n: &str, d: bool| TaskEntry { name: n.to_string(), disabled: d };
    assert!(tasks_disabled(&tasks, &Some(vec![entry("\\A", true), entry("\\B", true)])));
    // An absent task counts as disabled.
    assert!(tasks_disabled(&tasks, &Some(vec![entry("\\A", true)])));
    assert!(tasks_disabled(&tasks, &Some(vec![])));
    assert!(!tasks_disabled(&tasks, &Some(vec![entry("\\A", true), entry("\\B", false)])));
    assert!(!tasks_disabled(&tasks, &None));
    assert!(services_disabled(&vec![Ok(Some(4)), Ok(None)]));
    assert!(!services_disabled(&vec![Ok(Some(4)), Ok(Some(2))]));
    assert!(!services_disabled(&vec![Err(ZenouError::state("x".into()))]));
    let pairs = vec![("\\A".to_string(), true), ("\\B".to_string(), false)];
    assert_eq!(task_restore_plan(&pairs), vec!["\\A".to_string()]);
    let starts = vec![("S1".to_string(), Some(2)), ("S2".to_string(), Some(4)), ("S3".to_string(), None)];
    assert_eq!(service_restore_plan(&starts), vec![("S1".to_string(), ServiceStart::Auto)]);
    let r = restore_result(
        vec![
            Err(ZenouError::command("first".into(), None)),
            Err(ZenouError::new("task-absent", "gone".into(), None)),
        ],
        true,
    );
    assert_eq!(r.err().map(|e| e.message), Some("first".to_string()));
    assert!(restore_result(vec![Ok(())], false).is_ok());
}

#[test]
fn captures_are_loaded_from_the_persisted_document() {
    let tasks = vec!["\\A".to_string(), "\\B".to_string()];
    let doc = r#"{"tasks": {"\\A": false}, "services": {"S1": 3}}"#;
    assert_eq!(
        load_task_captures(&tasks, Some(doc)),
        vec![("\\A".to_string(), false), ("\\B".to_string(), true)]
    );
    assert_eq!(load_task_captures(&tasks, Some("not json")), vec![]);
    assert_eq!(load_task_captures(&tasks, None), vec![]);
    let services = vec!["S1".to_string(), "S2".to_string()];
    assert_eq!(
        load_service_captures(&services, Some(doc)),
        vec![("S1".to_string(), Some(3)), ("S2".to_string(), None)]
    );
}
