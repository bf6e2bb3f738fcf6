//! Task and service group tweaks: the lists they act on, the hooks the
//! catalog attaches, the apply runs that disable tasks or services with
//! captured originals and roll back on failure, and their verification and
//! restore plans. State checks read the authoritative registry and task
//! listing; mutations go through schtasks and net.

use vstd::prelude::*;
use crate::engine::{CommandHook, EditKindView, EditView, RegEdit, RegEditKind, Tweak};
use crate::error::{error_is, ZenouError};
use crate::ops::{full_task_name, start_of, start_value, ServiceStart};
use crate::registry::Hive;
use crate::text::{opt_view, owned, push_owned, views};
use crate::types::{failed_step, ok_step, StepOutcome};

verus! {

/// The Windows telemetry scheduled tasks.
pub open spec fn telemetry_task_names() -> Seq<Seq<char>> {
    seq![
        "\\Microsoft\\Windows\\Application Experience\\Microsoft Compatibility Appraiser"@,
        "\\Microsoft\\Windows\\Application Experience\\ProgramDataUpdater"@,
        "\\Microsoft\\Windows\\Application Experience\\StartupAppTask"@,
        "\\Microsoft\\Windows\\Application Experience\\PcaPatchDbTask"@,
        "\\Microsoft\\Windows\\Customer Experience Improvement Program\\Consolidator"@,
        "\\Microsoft\\Windows\\Customer Experience Improvement Program\\UsbCeip"@,
        "\\Microsoft\\Windows\\Customer Experience Improvement Program\\BthSQM"@,
        "\\Microsoft\\Windows\\Customer Experience Improvement Program\\KernelCeipTask"@,
        "\\Microsoft\\Windows\\Customer Experience Improvement Program\\Uploader"@,
        "\\Microsoft\\Windows\\DiskDiagnostic\\Microsoft-Windows-DiskDiagnosticDataCollector"@,
        "\\Microsoft\\Windows\\DiskDiagnostic\\Microsoft-Windows-DiskDiagnosticResolver"@,
        "\\Microsoft\\Windows\\Maintenance\\WinSAT"@,
        "\\Microsoft\\Windows\\Windows Error Reporting\\QueueReporting"@,
        "\\Microsoft\\Windows\\Autochk\\Proxy"@,
        "\\Microsoft\\Windows\\NetTrace\\GatherNetworkInfo"@,
        "\\Microsoft\\Windows\\PI\\Sqm-Tasks"@,
        "\\Microsoft\\Windows\\Power Efficiency Diagnostics\\AnalyzeSystem"@,
        "\\Microsoft\\Windows\\DiskFootprint\\Diagnostics"@,
        "\\Microsoft\\Windows\\Shell\\FamilySafetyMonitor"@,
        "\\Microsoft\\Windows\\Shell\\FamilySafetyRefresh"@,
        "\\Microsoft\\Windows\\Shell\\FamilySafetyUpload"@,
        "\\Microsoft\\Windows\\CloudExperienceHost\\CreateObjectTask"@,
        "\\Microsoft\\Windows\\Device Information\\Device"@,
        "\\Microsoft\\Windows\\Device Information\\Device User"@,
        "\\Microsoft\\Windows\\Feedback\\Siuf\\DmClient"@,
        "\\Microsoft\\Windows\\Feedback\\Siuf\\DmClientOnScenarioDownload"@,
        "\\Microsoft\\Windows\\Diagnosis\\RecommendedTroubleshootingScanner"@,
        "\\Microsoft\\Windows\\Diagnosis\\Scheduled"@,
        "\\Microsoft\\Windows\\Maps\\MapsToastTask"@,
        "\\Microsoft\\Windows\\Maps\\MapsUpdateTask"@,
        "\\Microsoft\\Windows\\RetailDemo\\CleanupOfflineContent"@,
    ]
}

/// The Windows telemetry scheduled tasks.
pub fn telemetry_tasks() -> (v: Vec<String>)
    ensures
        views(v@) == telemetry_task_names(),
{
    let mut v: Vec<String> = Vec::new();
    assert(views(v@) =~= Seq::<Seq<char>>::empty());
    push_owned(&mut v, "\\Microsoft\\Windows\\Application Experience\\Microsoft Compatibility Appraiser");
    push_owned(&mut v, "\\Microsoft\\Windows\\Application Experience\\ProgramDataUpdater");
    push_owned(&mut v, "\\Microsoft\\Windows\\Application Experience\\StartupAppTask");
    push_owned(&mut v, "\\Microsoft\\Windows\\Application Experience\\PcaPatchDbTask");
    push_owned(&mut v, "\\Microsoft\\Windows\\Customer Experience Improvement Program\\Consolidator");
    push_owned(&mut v, "\\Microsoft\\Windows\\Customer Experience Improvement Program\\UsbCeip");
    push_owned(&mut v, "\\Microsoft\\Windows\\Customer Experience Improvement Program\\BthSQM");
    push_owned(&mut v, "\\Microsoft\\Windows\\Customer Experience Improvement Program\\KernelCeipTask");
    push_owned(&mut v, "\\Microsoft\\Windows\\Customer Experience Improvement Program\\Uploader");
    push_owned(&mut v, "\\Microsoft\\Windows\\DiskDiagnostic\\Microsoft-Windows-DiskDiagnosticDataCollector");
    push_owned(&mut v, "\\Microsoft\\Windows\\DiskDiagnostic\\Microsoft-Windows-DiskDiagnosticResolver");
    push_owned(&mut v, "\\Microsoft\\Windows\\Maintenance\\WinSAT");
    push_owned(&mut v, "\\Microsoft\\Windows\\Windows Error Reporting\\QueueReporting");
    push_owned(&mut v, "\\Microsoft\\Windows\\Autochk\\Proxy");
    push_owned(&mut v, "\\Microsoft\\Windows\\NetTrace\\GatherNetworkInfo");
    push_owned(&mut v, "\\Microsoft\\Windows\\PI\\Sqm-Tasks");
    push_owned(&mut v, "\\Microsoft\\Windows\\Power Efficiency Diagnostics\\AnalyzeSystem");
    push_owned(&mut v, "\\Microsoft\\Windows\\DiskFootprint\\Diagnostics");
    push_owned(&mut v, "\\Microsoft\\Windows\\Shell\\FamilySafetyMonitor");
    push_owned(&mut v, "\\Microsoft\\Windows\\Shell\\FamilySafetyRefresh");
    push_owned(&mut v, "\\Microsoft\\Windows\\Shell\\FamilySafetyUpload");
    push_owned(&mut v, "\\Microsoft\\Windows\\CloudExperienceHost\\CreateObjectTask");
    push_owned(&mut v, "\\Microsoft\\Windows\\Device Information\\Device");
    push_owned(&mut v, "\\Microsoft\\Windows\\Device Information\\Device User");
    push_owned(&mut v, "\\Microsoft\\Windows\\Feedback\\Siuf\\DmClient");
    push_owned(&mut v, "\\Microsoft\\Windows\\Feedback\\Siuf\\DmClientOnScenarioDownload");
    push_owned(&mut v, "\\Microsoft\\Windows\\Diagnosis\\RecommendedTroubleshootingScanner");
    push_owned(&mut v, "\\Microsoft\\Windows\\Diagnosis\\Scheduled");
    push_owned(&mut v, "\\Microsoft\\Windows\\Maps\\MapsToastTask");
    push_owned(&mut v, "\\Microsoft\\Windows\\Maps\\MapsUpdateTask");
    push_owned(&mut v, "\\Microsoft\\Windows\\RetailDemo\\CleanupOfflineContent");
    assert(views(v@) =~= telemetry_task_names());
    v
}

/// Services the Windows group disables.
pub open spec fn unnecessary_service_names() -> Seq<Seq<char>> {
    seq![
        "RemoteRegistry"@,
        "RetailDemo"@,
        "WalletService"@,
        "PhoneSvc"@,
        "Fax"@,
        "WMPNetworkSvc"@,
        "WerSvc"@,
        "MapsBroker"@,
        "lfsvc"@,
        "SharedAccess"@,
        "RemoteAccess"@,
        "WpcMonSvc"@,
        "SEMgrSvc"@,
        "SNMPTRAP"@,
        "AJRouter"@,
        "scardSvr"@,
        "Phone-Svc"@,
        "SmsRouter"@,
    ]
}

/// Services the Windows group disables.
pub fn unnecessary_services() -> (v: Vec<String>)
    ensures
        views(v@) == unnecessary_service_names(),
{
    let mut v: Vec<String> = Vec::new();
    assert(views(v@) =~= Seq::<Seq<char>>::empty());
    push_owned(&mut v, "RemoteRegistry");
    push_owned(&mut v, "RetailDemo");
    push_owned(&mut v, "WalletService");
    push_owned(&mut v, "PhoneSvc");
    push_owned(&mut v, "Fax");
    push_owned(&mut v, "WMPNetworkSvc");
    push_owned(&mut v, "WerSvc");
    push_owned(&mut v, "MapsBroker");
    push_owned(&mut v, "lfsvc");
    push_owned(&mut v, "SharedAccess");
    push_owned(&mut v, "RemoteAccess");
    push_owned(&mut v, "WpcMonSvc");
    push_owned(&mut v, "SEMgrSvc");
    push_owned(&mut v, "SNMPTRAP");
    push_owned(&mut v, "AJRouter");
    push_owned(&mut v, "scardSvr");
    push_owned(&mut v, "Phone-Svc");
    push_owned(&mut v, "SmsRouter");
    assert(views(v@) =~= unnecessary_service_names());
    v
}

/// The NVIDIA telemetry scheduled tasks.
pub open spec fn nvidia_telemetry_task_names() -> Seq<Seq<char>> {
    seq![
        "NvTmRep_CrashReport1_{B2FE1952-0186-46C3-BAEC-A80AA35AC5B8}"@,
        "NvTmRep_CrashReport2_{B2FE1952-0186-46C3-BAEC-A80AA35AC5B8}"@,
        "NvTmRep_CrashReport3_{B2FE1952-0186-46C3-BAEC-A80AA35AC5B8}"@,
        "NvTmRep_CrashReport4_{B2FE1952-0186-46C3-BAEC-A80AA35AC5B8}"@,
        "NvDriverUpdateCheckDaily_{B2FE1952-0186-46C3-BAEC-A80AA35AC5B8}"@,
        "NVIDIA GeForce Experience SelfUpdate_{B2FE1952-0186-46C3-BAEC-A80AA35AC5B8}"@,
        "NvTmMon_{B2FE1952-0186-46C3-BAEC-A80AA35AC5B8}"@,
    ]
}

/// The NVIDIA telemetry scheduled tasks.
pub fn nvidia_telemetry_tasks() -> (v: Vec<String>)
    ensures
        views(v@) == nvidia_telemetry_task_names(),
{
    let mut v: Vec<String> = Vec::new();
    assert(views(v@) =~= Seq::<Seq<char>>::empty());
    push_owned(&mut v, "NvTmRep_CrashReport1_{B2FE1952-0186-46C3-BAEC-A80AA35AC5B8}");
    push_owned(&mut v, "NvTmRep_CrashReport2_{B2FE1952-0186-46C3-BAEC-A80AA35AC5B8}");
    push_owned(&mut v, "NvTmRep_CrashReport3_{B2FE1952-0186-46C3-BAEC-A80AA35AC5B8}");
    push_owned(&mut v, "NvTmRep_CrashReport4_{B2FE1952-0186-46C3-BAEC-A80AA35AC5B8}");
    push_owned(&mut v, "NvDriverUpdateCheckDaily_{B2FE1952-0186-46C3-BAEC-A80AA35AC5B8}");
    push_owned(&mut v, "NVIDIA GeForce Experience SelfUpdate_{B2FE1952-0186-46C3-BAEC-A80AA35AC5B8}");
    push_owned(&mut v, "NvTmMon_{B2FE1952-0186-46C3-BAEC-A80AA35AC5B8}");
    assert(views(v@) =~= nvidia_telemetry_task_names());
    v
}

/// A tweak that applies to scheduled tasks; the original state of each task
/// is captured before it changes.
pub struct TaskTweak {
    pub tweak: Tweak,
    pub tasks: Vec<String>,
}

/// A tweak that changes service start types; the original Start value of
/// each service is captured before it changes.
pub struct ServiceTweak {
    pub tweak: Tweak,
    pub services: Vec<String>,
}

/// The (apply, verify, restore) steps of a task-disabling tweak.
pub fn task_disable_hooks(tasks: Vec<String>) -> (h: (CommandHook, CommandHook, CommandHook))
    ensures
        h.0 matches CommandHook::DisableTasks(a) && views(a@) == views(tasks@),
        h.1 matches CommandHook::VerifyTasksDisabled(b) && views(b@) == views(tasks@),
        h.2 matches CommandHook::RestoreTasks(c) && views(c@) == views(tasks@),
{
    let a = copy_strings(&tasks);
    let b = copy_strings(&tasks);
    (CommandHook::DisableTasks(a), CommandHook::VerifyTasksDisabled(b), CommandHook::RestoreTasks(tasks))
}

/// The (apply, verify, restore) steps of a service-disabling tweak.
pub fn service_disable_hooks(services: Vec<String>) -> (h: (CommandHook, CommandHook, CommandHook))
    ensures
        h.0 matches CommandHook::DisableServices(a) && views(a@) == views(services@),
        h.1 matches CommandHook::VerifyServicesDisabled(b) && views(b@) == views(services@),
        h.2 matches CommandHook::RestoreServices(c) && views(c@) == views(services@),
{
    let a = copy_strings(&services);
    let b = copy_strings(&services);
    (
        CommandHook::DisableServices(a),
        CommandHook::VerifyServicesDisabled(b),
        CommandHook::RestoreServices(services),
    )
}

/// A copy of a list of strings.
fn copy_strings(v: &Vec<String>) -> (r: Vec<String>)
    ensures
        views(r@) == views(v@),
{
    let mut r: Vec<String> = Vec::new();
    let mut i: usize = 0;
    while i < v.len()
        invariant
            i <= v@.len(),
            views(r@) == views(v@).subrange(0, i as int),
        decreases v.len() - i,
    {
        let ghost before = views(r@);
        let c = crate::text::copy_string(&v[i]);
        r.push(c);
        assert(views(r@) =~= before.push(v@[i as int]@));
        assert(views(v@).subrange(0, i + 1) =~= views(v@).subrange(0, i as int).push(v@[i as int]@));
        i = i + 1;
    }
    assert(views(v@).subrange(0, v@.len() as int) =~= views(v@));
    r
}

/// The group a tweak id stands for: telemetry tasks, unnecessary services or NVIDIA telemetry tasks.
pub open spec fn group_lists(kind: Seq<char>) -> Option<(bool, Seq<Seq<char>>)> {
    if kind == "win.telemetry-tasks"@ {
        Some((true, telemetry_task_names()))
    } else if kind == "win.unnecessary-services"@ {
        Some((false, unnecessary_service_names()))
    } else if kind == "gpu.nvidia-telemetry"@ {
        Some((true, nvidia_telemetry_task_names()))
    } else {
        None
    }
}

/// `t` runs the task (`true`) or service group `names` as its command steps.
pub open spec fn hooks_for(t: Tweak, tasks: bool, names: Seq<Seq<char>>) -> bool {
    if tasks {
        &&& t.extra_apply matches Some(CommandHook::DisableTasks(a)) && views(a@) == names
        &&& t.extra_verify matches Some(CommandHook::VerifyTasksDisabled(b)) && views(b@) == names
        &&& t.extra_restore matches Some(CommandHook::RestoreTasks(c)) && views(c@) == names
    } else {
        &&& t.extra_apply matches Some(CommandHook::DisableServices(a)) && views(a@) == names
        &&& t.extra_verify matches Some(CommandHook::VerifyServicesDisabled(b)) && views(b@) == names
        &&& t.extra_restore matches Some(CommandHook::RestoreServices(c)) && views(c@) == names
    }
}

/// Attaches the task or service group steps named by `kind` (a tweak id);
/// any other kind leaves the tweak as it is.
pub fn attach_group_hooks(tweak: &mut Tweak, kind: &str)
    ensures
        final(tweak).meta == old(tweak).meta,
        final(tweak).applies_to == old(tweak).applies_to,
        final(tweak).group == old(tweak).group,
        final(tweak).target_is_values == old(tweak).target_is_values,
        match group_lists(kind@) {
            Some((tasks, names)) => hooks_for(*final(tweak), tasks, names),
            None => *final(tweak) == *old(tweak),
        },
{
    let (tasks, list) = if crate::text::str_eq(kind, "win.telemetry-tasks") {
        (true, telemetry_tasks())
    } else if crate::text::str_eq(kind, "win.unnecessary-services") {
        (false, unnecessary_services())
    } else if crate::text::str_eq(kind, "gpu.nvidia-telemetry") {
        (true, nvidia_telemetry_tasks())
    } else {
        return;
    };
    let (a, v, r) = if tasks {
        task_disable_hooks(list)
    } else {
        service_disable_hooks(list)
    };
    tweak.extra_apply = Some(a);
    tweak.extra_verify = Some(v);
    tweak.extra_restore = Some(r);
}

/// The step outcome of a file operation and the number of items it handled.
pub fn file_step(location: &str, result: Result<usize, ZenouError>) -> (r: (StepOutcome, usize))
    ensures
        match result {
            Ok(count) => r.0@ == ok_step(location@) && r.1 == count,
            Err(e) => r.0@ == failed_step(location@, e.message@) && r.1 == 0,
        },
{
    match result {
        Ok(count) => (StepOutcome::success(owned(location)), count),
        Err(e) => (StepOutcome::failure(owned(location), e.message), 0),
    }
}

/// A registry edit.
pub fn make_edit(hive: Hive, path: &str, name: &str, kind: RegEditKind) -> (e: RegEdit)
    ensures
        e.hive == hive,
        e.path@ == path@,
        e.name@ == name@,
        e.kind == kind,
{
    RegEdit { hive, path: owned(path), name: owned(name), kind }
}


// ---------------------------------------------------------------- disabling a task group

/// Where a task-disabling run stands.
#[derive(Debug, Clone, Copy, PartialEq, Eq, Structural)]
pub enum TaskStage {
    /// Looking the current task up in the snapshot of disabled tasks.
    Probing,
    /// Asking schtasks for the current task's state (no snapshot).
    Querying,
    /// Disabling the current task.
    Disabling,
    /// Re-enabling the captured tasks after a failure.
    RollingBack,
    Done,
}

/// What a task-disabling run asks for next.
pub enum TaskAction {
    /// The names of the disabled tasks (`ops::disabled_tasks_snapshot`).
    Snapshot,
    /// The state of task `i` (`ops::task_state`).
    QueryState(usize),
    /// Disable task `i`.
    Disable(usize),
    /// Re-enable the task of capture `j`.
    Enable(usize),
    /// The run is over.
    Finish,
}

/// What the system reports back.
pub enum TaskEvent {
    Snapshot(Option<Vec<String>>),
    Queried(Result<Option<bool>, ZenouError>),
    Changed(Result<(), ZenouError>),
}

/// The state of a task-disabling run.
pub struct TaskRun {
    pub stage: TaskStage,
    pub idx: usize,
    /// Each task seen so far and whether it was enabled.
    pub captured: Vec<(String, bool)>,
    /// The capture being re-enabled during a rollback.
    pub rb: usize,
    /// The failure that started the rollback.
    pub error: Option<ZenouError>,
}

/// Plain-value view of a task-disabling run.
pub struct TaskRunView {
    pub stage: TaskStage,
    pub idx: nat,
    pub captured: Seq<(Seq<char>, bool)>,
    pub rb: nat,
    pub error: Option<ZenouError>,
}

/// Plain-value view of an action.
pub enum TaskActionView {
    Snapshot,
    QueryState(nat),
    Disable(nat),
    Enable(nat),
    Finish,
}

/// Plain-value view of an event.
pub enum TaskEventView {
    Snapshot(Option<Seq<Seq<char>>>),
    Queried(Result<Option<bool>, ZenouError>),
    Changed(Result<(), ZenouError>),
}

/// The views of (name, flag) pairs.
pub open spec fn flag_views(v: Seq<(String, bool)>) -> Seq<(Seq<char>, bool)> {
    v.map_values(|p: (String, bool)| (p.0@, p.1))
}

impl View for TaskRun {
    type V = TaskRunView;

    open spec fn view(&self) -> TaskRunView {
        TaskRunView {
            stage: self.stage,
            idx: self.idx as nat,
            captured: flag_views(self.captured@),
            rb: self.rb as nat,
            error: self.error,
        }
    }
}

impl View for TaskAction {
    type V = TaskActionView;

    open spec fn view(&self) -> TaskActionView {
        match self {
            TaskAction::Snapshot => TaskActionView::Snapshot,
            TaskAction::QueryState(i) => TaskActionView::QueryState(*i as nat),
            TaskAction::Disable(i) => TaskActionView::Disable(*i as nat),
            TaskAction::Enable(j) => TaskActionView::Enable(*j as nat),
            TaskAction::Finish => TaskActionView::Finish,
        }
    }
}

impl View for TaskEvent {
    type V = TaskEventView;

    open spec fn view(&self) -> TaskEventView {
        match self {
            TaskEvent::Snapshot(s) => TaskEventView::Snapshot(
                match s {
                    Some(v) => Some(views(v@)),
                    None => None,
                },
            ),
            TaskEvent::Queried(r) => TaskEventView::Queried(*r),
            TaskEvent::Changed(r) => TaskEventView::Changed(*r),
        }
    }
}

/// Move to the next task, or finish.
pub open spec fn task_next(tasks: Seq<Seq<char>>, s: TaskRunView) -> (TaskRunView, TaskActionView) {
    if s.idx + 1 < tasks.len() {
        (TaskRunView { stage: TaskStage::Probing, idx: s.idx + 1, ..s }, TaskActionView::Snapshot)
    } else {
        (TaskRunView { stage: TaskStage::Done, idx: s.idx + 1, ..s }, TaskActionView::Finish)
    }
}

/// Record the current task's state; disable it when it was enabled.
pub open spec fn task_decide(tasks: Seq<Seq<char>>, s: TaskRunView, enabled: bool) -> (TaskRunView, TaskActionView) {
    let c = s.captured.push((tasks[s.idx as int], enabled));
    if enabled {
        (TaskRunView { stage: TaskStage::Disabling, captured: c, ..s }, TaskActionView::Disable(s.idx))
    } else {
        task_next(tasks, TaskRunView { captured: c, ..s })
    }
}

/// The first capture at or after `from` whose task was enabled.
pub open spec fn next_enabled(c: Seq<(Seq<char>, bool)>, from: nat) -> Option<nat>
    decreases c.len() - from,
{
    if from >= c.len() {
        None
    } else if c[from as int].1 {
        Some(from)
    } else {
        next_enabled(c, from + 1)
    }
}

/// Re-enable the next captured task that was enabled, or finish.
pub open spec fn task_rollback(s: TaskRunView) -> (TaskRunView, TaskActionView) {
    match next_enabled(s.captured, s.rb) {
        Some(j) => (TaskRunView { stage: TaskStage::RollingBack, rb: j, ..s }, TaskActionView::Enable(j)),
        None => (TaskRunView { stage: TaskStage::Done, ..s }, TaskActionView::Finish),
    }
}

/// The action a task run waits on.
pub open spec fn task_pending(s: TaskRunView) -> TaskActionView {
    match s.stage {
        TaskStage::Probing => TaskActionView::Snapshot,
        TaskStage::Querying => TaskActionView::QueryState(s.idx),
        TaskStage::Disabling => TaskActionView::Disable(s.idx),
        TaskStage::RollingBack => TaskActionView::Enable(s.rb),
        TaskStage::Done => TaskActionView::Finish,
    }
}

/// One step of disabling the tasks `tasks`: each task is looked up in the
/// snapshot of disabled tasks (or queried when there is none; a failed query
/// counts as enabled), recorded, and disabled when it was enabled. A task
/// missing from the system is passed over; any other failure re-enables
/// every captured task that was enabled, in order, and ends the run with
/// that failure. An event that does not answer the pending action changes nothing.
pub open spec fn task_step(tasks: Seq<Seq<char>>, s: TaskRunView, ev: TaskEventView) -> (TaskRunView, TaskActionView) {
    match (s.stage, ev) {
        (TaskStage::Probing, TaskEventView::Snapshot(set)) => match set {
            Some(names) => task_decide(tasks, s, !names.contains(full_task_name(tasks[s.idx as int]))),
            None => (TaskRunView { stage: TaskStage::Querying, ..s }, TaskActionView::QueryState(s.idx)),
        },
        (TaskStage::Querying, TaskEventView::Queried(r)) => task_decide(
            tasks,
            s,
            match r {
                Ok(Some(b)) => b,
                _ => true,
            },
        ),
        (TaskStage::Disabling, TaskEventView::Changed(r)) => match r {
            Ok(_) => task_next(tasks, s),
            Err(e) => if e.code@ == "task-absent"@ {
                task_next(tasks, s)
            } else {
                task_rollback(TaskRunView { error: Some(e), rb: 0, ..s })
            },
        },
        (TaskStage::RollingBack, TaskEventView::Changed(_)) => task_rollback(TaskRunView { rb: s.rb + 1, ..s }),
        _ => (s, task_pending(s)),
    }
}

/// The run's bookkeeping is consistent with the task list.
pub open spec fn task_run_wf(tasks: Seq<Seq<char>>, s: TaskRunView) -> bool {
    &&& s.idx <= tasks.len()
    &&& (s.stage is Probing || s.stage is Querying) ==> s.idx < tasks.len() && s.captured.len() == s.idx
    &&& s.stage is Disabling ==> s.idx < tasks.len() && s.captured.len() == s.idx + 1
    &&& s.stage is RollingBack ==> s.rb < s.captured.len() && s.error is Some
}

proof fn lemma_next_enabled(c: Seq<(Seq<char>, bool)>, from: nat)
    ensures
        next_enabled(c, from) matches Some(j) ==> from <= j < c.len() && c[j as int].1,
    decreases c.len() - from,
{
    if from < c.len() && !c[from as int].1 {
        lemma_next_enabled(c, from + 1);
    }
}

proof fn lemma_next_enabled_first(c: Seq<(Seq<char>, bool)>, from: nat)
    ensures
        match next_enabled(c, from) {
            Some(j) => from <= j < c.len() && c[j as int].1 && forall|k: int| from <= k < j ==> !c[k].1,
            None => forall|k: int| from <= k < c.len() ==> !c[k].1,
        },
    decreases c.len() - from,
{
    if from < c.len() && !c[from as int].1 {
        lemma_next_enabled_first(c, from + 1);
    }
}

/// A failure while disabling tasks re-enables exactly the captured tasks that
/// were enabled, once each and in capture order: each step of the rollback
/// asks to re-enable the earliest such capture after the previous one, and
/// the run ends, keeping the failure, only when none remains. The captures
/// are left as they were.
pub proof fn law_task_rollback_order(tasks: Seq<Seq<char>>, s: TaskRunView, r: Result<(), ZenouError>)
    requires
        task_run_wf(tasks, s),
        s.stage is Disabling || s.stage is RollingBack,
        s.stage is Disabling ==> (r matches Err(e) && e.code@ != "task-absent"@),
    ensures
        ({
            let from: nat = if s.stage is Disabling { 0 } else { s.rb + 1 };
            let (s2, a) = task_step(tasks, s, TaskEventView::Changed(r));
            &&& s2.captured == s.captured
            &&& s2.error == (if s.stage is Disabling { Some(r->Err_0) } else { s.error })
            &&& match a {
                TaskActionView::Enable(j) => from <= j < s.captured.len() && s.captured[j as int].1
                    && (forall|k: int| from <= k < j ==> !s.captured[k].1) && s2.stage is RollingBack
                    && s2.rb == j,
                TaskActionView::Finish => (forall|k: int| from <= k < s.captured.len() ==> !s.captured[k].1)
                    && s2.stage is Done,
                _ => false,
            }
        }),
{
    let from: nat = if s.stage is Disabling { 0 } else { s.rb + 1 };
    lemma_next_enabled_first(s.captured, from);
}

/// The first capture at or after `from` whose task was enabled.
fn find_enabled(c: &Vec<(String, bool)>, from: usize) -> (r: Option<usize>)
    ensures
        match next_enabled(flag_views(c@), from as nat) {
            Some(j) => r matches Some(k) && k as nat == j,
            None => r is None,
        },
{
    let ghost cv = flag_views(c@);
    let mut j: usize = from;
    while j < c.len()
        invariant
            cv == flag_views(c@),
            from <= j,
            next_enabled(cv, from as nat) == next_enabled(cv, j as nat),
        decreases c.len() - j,
    {
        assert(cv[j as int].1 == c@[j as int].1);
        if c[j].1 {
            return Some(j);
        }
        j = j + 1;
    }
    None
}

/// `names` holds `full`.
fn names_contain(names: &Vec<String>, full: &String) -> (r: bool)
    ensures
        r == views(names@).contains(full@),
{
    let mut i: usize = 0;
    let mut found = false;
    while i < names.len()
        invariant
            i <= names@.len(),
            found <==> exists|k: int| 0 <= k < i && (#[trigger] names@[k])@ == full@,
        decreases names.len() - i,
    {
        if crate::text::str_eq(names[i].as_str(), full.as_str()) {
            found = true;
        }
        i = i + 1;
    }
    proof {
        if found {
            let k = choose|k: int| 0 <= k < names@.len() && (#[trigger] names@[k])@ == full@;
            assert(views(names@)[k] == full@);
        } else {
            assert forall|k: int| 0 <= k < views(names@).len() implies views(names@)[k] != full@ by {
                assert(names@[k]@ != full@);
            }
        }
    }
    found
}

impl TaskRun {
    /// Starts disabling `tasks`.
    pub fn start(tasks: &Vec<String>) -> (r: (TaskRun, TaskAction))
        ensures
            r.0@ == (TaskRunView {
                stage: if tasks@.len() == 0 { TaskStage::Done } else { TaskStage::Probing },
                idx: 0,
                captured: Seq::empty(),
                rb: 0,
                error: None,
            }),
            r.1@ == task_pending(r.0@),
            task_run_wf(views(tasks@), r.0@),
    {
        let run = TaskRun {
            stage: if tasks.len() == 0 { TaskStage::Done } else { TaskStage::Probing },
            idx: 0,
            captured: Vec::new(),
            rb: 0,
            error: None,
        };
        assert(flag_views(run.captured@) =~= Seq::<(Seq<char>, bool)>::empty());
        let a = if tasks.len() == 0 { TaskAction::Finish } else { TaskAction::Snapshot };
        (run, a)
    }

    fn next(&mut self, tasks: &Vec<String>) -> (a: TaskAction)
        requires
            old(self).idx < tasks@.len(),
        ensures
            (final(self)@, a@) == task_next(views(tasks@), old(self)@),
    {
        let n = tasks.len();
        assert(self.idx < n);
        self.idx = self.idx + 1;
        if self.idx < n {
            self.stage = TaskStage::Probing;
            TaskAction::Snapshot
        } else {
            self.stage = TaskStage::Done;
            TaskAction::Finish
        }
    }

    fn decide(&mut self, tasks: &Vec<String>, enabled: bool) -> (a: TaskAction)
        requires
            old(self).idx < tasks@.len(),
        ensures
            (final(self)@, a@) == task_decide(views(tasks@), old(self)@, enabled),
    {
        let name = crate::text::copy_string(&tasks[self.idx]);
        let ghost before = self@.captured;
        self.captured.push((name, enabled));
        assert(flag_views(self.captured@) =~= before.push((views(tasks@)[self.idx as int], enabled)));
        if enabled {
            self.stage = TaskStage::Disabling;
            TaskAction::Disable(self.idx)
        } else {
            self.next(tasks)
        }
    }

    fn rollback(&mut self) -> (a: TaskAction)
        ensures
            (final(self)@, a@) == task_rollback(old(self)@),
    {
        match find_enabled(&self.captured, self.rb) {
            Some(j) => {
                self.stage = TaskStage::RollingBack;
                self.rb = j;
                TaskAction::Enable(j)
            },
            None => {
                self.stage = TaskStage::Done;
                TaskAction::Finish
            },
        }
    }

    /// Feeds the outcome of the pending action; returns the next action.
    pub fn step(&mut self, tasks: &Vec<String>, ev: TaskEvent) -> (a: TaskAction)
        requires
            task_run_wf(views(tasks@), old(self)@),
        ensures
            (final(self)@, a@) == task_step(views(tasks@), old(self)@, ev@),
            task_run_wf(views(tasks@), final(self)@),
    {
        proof {
            lemma_next_enabled(self@.captured, self@.rb);
            lemma_next_enabled(self@.captured, 0);
            lemma_next_enabled(self@.captured, self@.rb + 1);
            lemma_next_enabled(self@.captured.push((views(tasks@)[self.idx as int], true)), self@.rb);
        }
        match self.stage {
            TaskStage::Probing => match ev {
                TaskEvent::Snapshot(set) => match set {
                    Some(names) => {
                        let full = crate::ops::task_full_name(tasks[self.idx].as_str());
                        let present = names_contain(&names, &full);
                        self.decide(tasks, !present)
                    },
                    None => {
                        self.stage = TaskStage::Querying;
                        TaskAction::QueryState(self.idx)
                    },
                },
                _ => TaskAction::Snapshot,
            },
            TaskStage::Querying => match ev {
                TaskEvent::Queried(r) => {
                    let enabled = match r {
                        Ok(Some(b)) => b,
                        _ => true,
                    };
                    self.decide(tasks, enabled)
                },
                _ => TaskAction::QueryState(self.idx),
            },
            TaskStage::Disabling => match ev {
                TaskEvent::Changed(r) => match r {
                    Ok(_) => self.next(tasks),
                    Err(e) => {
                        if crate::text::str_eq(e.code.as_str(), "task-absent") {
                            self.next(tasks)
                        } else {
                            self.error = Some(e);
                            self.rb = 0;
                            self.rollback()
                        }
                    },
                },
                _ => TaskAction::Disable(self.idx),
            },
            TaskStage::RollingBack => match ev {
                TaskEvent::Changed(_) => {
                    let n = self.captured.len();
                    assert(self.rb < n);
                    self.rb = self.rb + 1;
                    self.rollback()
                },
                _ => TaskAction::Enable(self.rb),
            },
            TaskStage::Done => TaskAction::Finish,
        }
    }
}


// ---------------------------------------------------------------- disabling a service group

/// Where a service-disabling run stands.
#[derive(Debug, Clone, Copy, PartialEq, Eq, Structural)]
pub enum ServiceStage {
    /// Reading the current service's Start value.
    Reading,
    /// Setting the current service to disabled.
    Setting,
    /// Putting back the captured start types after a failure.
    RollingBack,
    Done,
}

/// What a service-disabling run asks for next.
pub enum ServiceAction {
    /// The Start value of service `i` (`ops::service_start_value`).
    ReadStart(usize),
    /// Set service `i` to disabled.
    Disable(usize),
    /// Put back the start type of capture `j` (`ServiceStart::from_start_value`).
    Restore(usize),
    /// The run is over.
    Finish,
}

/// What the system reports back.
pub enum ServiceEvent {
    StartValue(Result<Option<u32>, ZenouError>),
    Changed(Result<(), ZenouError>),
}

/// The state of a service-disabling run.
pub struct ServiceRun {
    pub stage: ServiceStage,
    pub idx: usize,
    /// Each service seen so far and its original Start value.
    pub captured: Vec<(String, Option<u32>)>,
    /// The capture being put back during a rollback.
    pub rb: usize,
    /// The failure that started the rollback.
    pub error: Option<ZenouError>,
}

/// Plain-value view of a service-disabling run.
pub struct ServiceRunView {
    pub stage: ServiceStage,
    pub idx: nat,
    pub captured: Seq<(Seq<char>, Option<u32>)>,
    pub rb: nat,
    pub error: Option<ZenouError>,
}

/// Plain-value view of an action.
pub enum ServiceActionView {
    ReadStart(nat),
    Disable(nat),
    Restore(nat),
    Finish,
}

/// The views of (name, value) pairs.
pub open spec fn start_views(v: Seq<(String, Option<u32>)>) -> Seq<(Seq<char>, Option<u32>)> {
    v.map_values(|p: (String, Option<u32>)| (p.0@, p.1))
}

impl View for ServiceRun {
    type V = ServiceRunView;

    open spec fn view(&self) -> ServiceRunView {
        ServiceRunView {
            stage: self.stage,
            idx: self.idx as nat,
            captured: start_views(self.captured@),
            rb: self.rb as nat,
            error: self.error,
        }
    }
}

impl View for ServiceAction {
    type V = ServiceActionView;

    open spec fn view(&self) -> ServiceActionView {
        match self {
            ServiceAction::ReadStart(i) => ServiceActionView::ReadStart(*i as nat),
            ServiceAction::Disable(i) => ServiceActionView::Disable(*i as nat),
            ServiceAction::Restore(j) => ServiceActionView::Restore(*j as nat),
            ServiceAction::Finish => ServiceActionView::Finish,
        }
    }
}

/// Move to the next service, or finish.
pub open spec fn service_next(services: Seq<Seq<char>>, s: ServiceRunView) -> (ServiceRunView, ServiceActionView) {
    if s.idx + 1 < services.len() {
        (ServiceRunView { stage: ServiceStage::Reading, idx: s.idx + 1, ..s }, ServiceActionView::ReadStart(s.idx + 1))
    } else {
        (ServiceRunView { stage: ServiceStage::Done, idx: s.idx + 1, ..s }, ServiceActionView::Finish)
    }
}

/// A capture whose start type a rollback puts back: present and not disabled.
pub open spec fn restorable(v: Option<u32>) -> bool {
    v matches Some(x) && x != 4
}

/// The first capture at or after `from` that a rollback puts back.
pub open spec fn next_restorable(c: Seq<(Seq<char>, Option<u32>)>, from: nat) -> Option<nat>
    decreases c.len() - from,
{
    if from >= c.len() {
        None
    } else if restorable(c[from as int].1) {
        Some(from)
    } else {
        next_restorable(c, from + 1)
    }
}

/// Put back the next captured start type, or finish.
pub open spec fn service_rollback(s: ServiceRunView) -> (ServiceRunView, ServiceActionView) {
    match next_restorable(s.captured, s.rb) {
        Some(j) => (ServiceRunView { stage: ServiceStage::RollingBack, rb: j, ..s }, ServiceActionView::Restore(j)),
        None => (ServiceRunView { stage: ServiceStage::Done, ..s }, ServiceActionView::Finish),
    }
}

/// The action a service run waits on.
pub open spec fn service_pending(s: ServiceRunView) -> ServiceActionView {
    match s.stage {
        ServiceStage::Reading => ServiceActionView::ReadStart(s.idx),
        ServiceStage::Setting => ServiceActionView::Disable(s.idx),
        ServiceStage::RollingBack => ServiceActionView::Restore(s.rb),
        ServiceStage::Done => ServiceActionView::Finish,
    }
}

/// One step of disabling the services `services`: each service's Start value
/// is recorded (a failed read counts as absent); a service already disabled
/// or not installed is left alone, any other is set to disabled. A failure
/// puts back every recorded start type that was not disabled, in order, and
/// ends the run with that failure. An event that does not answer the pending
/// action changes nothing.
pub open spec fn service_step(services: Seq<Seq<char>>, s: ServiceRunView, ev: ServiceEvent) -> (ServiceRunView, ServiceActionView) {
    match (s.stage, ev) {
        (ServiceStage::Reading, ServiceEvent::StartValue(r)) => {
            let original = match r {
                Ok(v) => v,
                Err(_) => None,
            };
            let s1 = ServiceRunView { captured: s.captured.push((services[s.idx as int], original)), ..s };
            if original == Some(4u32) || original is None {
                service_next(services, s1)
            } else {
                (ServiceRunView { stage: ServiceStage::Setting, ..s1 }, ServiceActionView::Disable(s.idx))
            }
        },
        (ServiceStage::Setting, ServiceEvent::Changed(r)) => match r {
            Ok(_) => service_next(services, s),
            Err(e) => service_rollback(ServiceRunView { error: Some(e), rb: 0, ..s }),
        },
        (ServiceStage::RollingBack, ServiceEvent::Changed(_)) => service_rollback(ServiceRunView { rb: s.rb + 1, ..s }),
        _ => (s, service_pending(s)),
    }
}

/// The run's bookkeeping is consistent with the service list.
pub open spec fn service_run_wf(services: Seq<Seq<char>>, s: ServiceRunView) -> bool {
    &&& s.idx <= services.len()
    &&& s.stage is Reading ==> s.idx < services.len() && s.captured.len() == s.idx
    &&& s.stage is Setting ==> s.idx < services.len() && s.captured.len() == s.idx + 1
    &&& s.stage is RollingBack ==> s.rb < s.captured.len() && s.error is Some && restorable(s.captured[s.rb as int].1)
}

proof fn lemma_next_restorable(c: Seq<(Seq<char>, Option<u32>)>, from: nat)
    ensures
        next_restorable(c, from) matches Some(j) ==> from <= j < c.len() && restorable(c[j as int].1),
    decreases c.len() - from,
{
    if from < c.len() && !restorable(c[from as int].1) {
        lemma_next_restorable(c, from + 1);
    }
}

proof fn lemma_next_restorable_first(c: Seq<(Seq<char>, Option<u32>)>, from: nat)
    ensures
        match next_restorable(c, from) {
            Some(j) => from <= j < c.len() && restorable(c[j as int].1) && forall|k: int|
                from <= k < j ==> !restorable(c[k].1),
            None => forall|k: int| from <= k < c.len() ==> !restorable(c[k].1),
        },
    decreases c.len() - from,
{
    if from < c.len() && !restorable(c[from as int].1) {
        lemma_next_restorable_first(c, from + 1);
    }
}

/// A failure while disabling services puts back exactly the recorded start
/// types that were present and not disabled, once each and in capture order:
/// each step of the rollback restores the earliest such capture after the
/// previous one, and the run ends, keeping the failure, only when none
/// remains. The captures are left as they were.
pub proof fn law_service_rollback_order(services: Seq<Seq<char>>, s: ServiceRunView, r: Result<(), ZenouError>)
    requires
        service_run_wf(services, s),
        s.stage is Setting || s.stage is RollingBack,
        s.stage is Setting ==> r is Err,
    ensures
        ({
            let from: nat = if s.stage is Setting { 0 } else { s.rb + 1 };
            let (s2, a) = service_step(services, s, ServiceEvent::Changed(r));
            &&& s2.captured == s.captured
            &&& s2.error == (if s.stage is Setting { Some(r->Err_0) } else { s.error })
            &&& match a {
                ServiceActionView::Restore(j) => from <= j < s.captured.len() && restorable(s.captured[j as int].1)
                    && (forall|k: int| from <= k < j ==> !restorable(s.captured[k].1))
                    && s2.stage is RollingBack && s2.rb == j,
                ServiceActionView::Finish => (forall|k: int| from <= k < s.captured.len() ==> !restorable(s.captured[k].1))
                    && s2.stage is Done,
                _ => false,
            }
        }),
{
    let from: nat = if s.stage is Setting { 0 } else { s.rb + 1 };
    lemma_next_restorable_first(s.captured, from);
}

/// The service captures a rollback or a restore puts back, with the start
/// type each gets.
pub open spec fn restored_starts(c: Seq<(Seq<char>, Option<u32>)>) -> Seq<(Seq<char>, ServiceStart)> {
    c.filter(|p: (Seq<char>, Option<u32>)| restorable(p.1)).map_values(
        |p: (Seq<char>, Option<u32>)| (p.0, start_of(p.1->0)),
    )
}

proof fn lemma_starts_to_restore(c: Seq<(Seq<char>, Option<u32>)>)
    ensures
        starts_to_restore(c) == restored_starts(c),
    decreases c.len(),
{
    reveal(Seq::filter);
    if c.len() > 0 {
        lemma_starts_to_restore(c.drop_last());
        let f = c.drop_last().filter(|p: (Seq<char>, Option<u32>)| restorable(p.1));
        let g = |p: (Seq<char>, Option<u32>)| (p.0, start_of(p.1->0));
        if restorable(c.last().1) {
            assert(f.push(c.last()).map_values(g) =~= f.map_values(g).push(g(c.last())));
        }
    }
}

/// Disabling a service group and restoring it is a round trip: a service is
/// set to disabled exactly when its Start value was read as present and not
/// 4, and the restore plan puts back exactly those services, in order, each
/// with a start type whose registry value is the one read (for every value
/// Windows defines).
pub proof fn law_service_round_trip(
    services: Seq<Seq<char>>,
    s: ServiceRunView,
    r: Result<Option<u32>, ZenouError>,
    c: Seq<(Seq<char>, Option<u32>)>,
)
    requires
        service_run_wf(services, s),
        s.stage is Reading,
    ensures
        ({
            let original = match r {
                Ok(v) => v,
                Err(_) => None,
            };
            let (s2, a) = service_step(services, s, ServiceEvent::StartValue(r));
            &&& s2.captured == s.captured.push((services[s.idx as int], original))
            &&& (a == ServiceActionView::Disable(s.idx)) <==> restorable(original)
        }),
        starts_to_restore(c) == restored_starts(c),
        forall|i: int|
            0 <= i < c.len() && (#[trigger] c[i]).1 is Some && c[i].1->0 <= 4 ==> start_value(start_of(c[i].1->0))
                == c[i].1->0,
{
    lemma_starts_to_restore(c);
    assert forall|i: int| 0 <= i < c.len() && (#[trigger] c[i]).1 is Some && c[i].1->0 <= 4 implies start_value(
        start_of(c[i].1->0),
    ) == c[i].1->0 by {
        crate::ops::law_start_value_round_trip(ServiceStart::Disabled, c[i].1->0);
    }
}

// ---------------------------------------------------------------- a whole service-group run

/// The Start value `st` holds for `name`; `None` where the service is not installed.
pub open spec fn start_in(st: Map<Seq<char>, u32>, name: Seq<char>) -> Option<u32> {
    if st.dom().contains(name) {
        Some(st[name])
    } else {
        None
    }
}

/// The state a run of `services` starts in.
pub open spec fn service_begin(services: Seq<Seq<char>>) -> ServiceRunView {
    ServiceRunView {
        stage: if services.len() == 0 { ServiceStage::Done } else { ServiceStage::Reading },
        idx: 0,
        captured: Seq::empty(),
        rb: 0,
        error: None,
    }
}

/// The states of a run of `services` that receives the events `evs`.
pub open spec fn service_states(services: Seq<Seq<char>>, evs: Seq<ServiceEvent>) -> Seq<ServiceRunView>
    decreases evs.len(),
{
    if evs.len() == 0 {
        seq![service_begin(services)]
    } else {
        let r = service_states(services, evs.drop_last());
        r.push(service_step(services, r.last(), evs.last()).0)
    }
}

/// A system whose Start values go from `st` to `st2` answers the action `a`
/// with `ev`: a read reports the stored value and changes nothing; setting a
/// service to disabled succeeds and stores 4.
pub open spec fn service_answers(
    services: Seq<Seq<char>>,
    a: ServiceActionView,
    ev: ServiceEvent,
    st: Map<Seq<char>, u32>,
    st2: Map<Seq<char>, u32>,
) -> bool {
    match a {
        ServiceActionView::ReadStart(i) => ev == ServiceEvent::StartValue(Ok(start_in(st, services[i as int])))
            && st2 == st,
        ServiceActionView::Disable(i) => ev == ServiceEvent::Changed(Ok(())) && st2 == st.insert(
            services[i as int],
            4,
        ),
        _ => false,
    }
}

/// `sts` are the Start values of a system answering each pending action of
/// the run, before and after each event.
pub open spec fn service_system_run(
    services: Seq<Seq<char>>,
    evs: Seq<ServiceEvent>,
    sts: Seq<Map<Seq<char>, u32>>,
) -> bool {
    &&& sts.len() == evs.len() + 1
    &&& forall|k: int|
        0 <= k < evs.len() ==> service_answers(
            services,
            service_pending(#[trigger] service_states(services, evs)[k]),
            evs[k],
            sts[k],
            sts[k + 1],
        )
}

/// The Start values after putting back each planned start type in order.
pub open spec fn apply_starts(st: Map<Seq<char>, u32>, plan: Seq<(Seq<char>, ServiceStart)>) -> Map<Seq<char>, u32>
    decreases plan.len(),
{
    if plan.len() == 0 {
        st
    } else {
        apply_starts(st, plan.drop_last()).insert(plan.last().0, start_value(plan.last().1))
    }
}

/// One of the first `upto` captures names `name` and was set to disabled.
spec fn disabled_before(c: Seq<(Seq<char>, Option<u32>)>, name: Seq<char>, upto: int) -> bool {
    exists|j: int| 0 <= j < upto && (#[trigger] c[j]).0 == name && restorable(c[j].1)
}

/// What a successful run of `services` from the Start values `s0` keeps
/// true while it reaches `s` with the system holding `st`.
spec fn group_inv(
    services: Seq<Seq<char>>,
    s0: Map<Seq<char>, u32>,
    s: ServiceRunView,
    st: Map<Seq<char>, u32>,
) -> bool {
    let c = s.captured;
    let settled: int = if s.stage is Setting { c.len() - 1 } else { c.len() as int };
    &&& service_run_wf(services, s)
    &&& s.error is None
    &&& !(s.stage is RollingBack)
    &&& s.stage is Done ==> c.len() == services.len()
    &&& s.stage is Setting ==> restorable(c.last().1)
    &&& forall|j: int| 0 <= j < c.len() ==> (#[trigger] c[j]).0 == services[j]
    &&& forall|j: int|
        0 <= j < c.len() ==> (#[trigger] c[j]).1 == (if disabled_before(c, c[j].0, j) {
            Some(4u32)
        } else {
            start_in(s0, c[j].0)
        })
    &&& forall|n: Seq<char>|
        #[trigger] start_in(st, n) == (if disabled_before(c, n, settled) {
            Some(4u32)
        } else {
            start_in(s0, n)
        })
}

proof fn lemma_disabled_before_push(
    c: Seq<(Seq<char>, Option<u32>)>,
    x: (Seq<char>, Option<u32>),
    n: Seq<char>,
    upto: int,
)
    requires
        0 <= upto <= c.len(),
    ensures
        disabled_before(c.push(x), n, upto) == disabled_before(c, n, upto),
        disabled_before(c.push(x), n, c.len() + 1int) == (disabled_before(c, n, c.len() as int) || (x.0 == n
            && restorable(x.1))),
{
    let c2 = c.push(x);
    if disabled_before(c, n, upto) {
        let j = choose|j: int| 0 <= j < upto && (#[trigger] c[j]).0 == n && restorable(c[j].1);
        assert(c2[j] == c[j]);
    }
    if disabled_before(c2, n, upto) {
        let j = choose|j: int| 0 <= j < upto && (#[trigger] c2[j]).0 == n && restorable(c2[j].1);
        assert(c2[j] == c[j]);
    }
    if disabled_before(c, n, c.len() as int) {
        let j = choose|j: int| 0 <= j < c.len() && (#[trigger] c[j]).0 == n && restorable(c[j].1);
        assert(c2[j] == c[j]);
    }
    if x.0 == n && restorable(x.1) {
        assert(c2[c.len() as int] == x);
    }
    if disabled_before(c2, n, c.len() + 1int) {
        let j = choose|j: int| 0 <= j < c.len() + 1 && (#[trigger] c2[j]).0 == n && restorable(c2[j].1);
        if j < c.len() {
            assert(c2[j] == c[j]);
        }
    }
}

proof fn lemma_group_begin(services: Seq<Seq<char>>, s0: Map<Seq<char>, u32>)
    ensures
        group_inv(services, s0, service_begin(services), s0),
{
    let s = service_begin(services);
    assert forall|n: Seq<char>| #[trigger]
        start_in(s0, n) == (if disabled_before(s.captured, n, 0) {
            Some(4u32)
        } else {
            start_in(s0, n)
        }) by {}
}

proof fn lemma_group_step(
    services: Seq<Seq<char>>,
    s0: Map<Seq<char>, u32>,
    s: ServiceRunView,
    ev: ServiceEvent,
    st: Map<Seq<char>, u32>,
    st2: Map<Seq<char>, u32>,
)
    requires
        group_inv(services, s0, s, st),
        service_answers(services, service_pending(s), ev, st, st2),
    ensures
        group_inv(services, s0, service_step(services, s, ev).0, st2),
{
    let c = s.captured;
    let s2 = service_step(services, s, ev).0;
    if s.stage is Reading {
        let name = services[s.idx as int];
        let original = start_in(st, name);
        let x = (name, original);
        let c2 = c.push(x);
        assert(s2.captured == c2);
        assert(original == (if disabled_before(c, name, c.len() as int) {
            Some(4u32)
        } else {
            start_in(s0, name)
        }));
        assert forall|j: int| 0 <= j < c2.len() implies (#[trigger] c2[j]).0 == services[j] by {
            if j < c.len() {
                assert(c2[j] == c[j]);
            }
        }
        assert forall|j: int| 0 <= j < c2.len() implies (#[trigger] c2[j]).1 == (if disabled_before(
            c2,
            c2[j].0,
            j,
        ) {
            Some(4u32)
        } else {
            start_in(s0, c2[j].0)
        }) by {
            if j < c.len() {
                assert(c2[j] == c[j]);
                lemma_disabled_before_push(c, x, c[j].0, j);
            } else {
                lemma_disabled_before_push(c, x, name, c.len() as int);
            }
        }
        let settled2: int = if s2.stage is Setting { c2.len() - 1 } else { c2.len() as int };
        assert forall|n: Seq<char>| #[trigger]
            start_in(st2, n) == (if disabled_before(c2, n, settled2) {
                Some(4u32)
            } else {
                start_in(s0, n)
            }) by {
            lemma_disabled_before_push(c, x, n, c.len() as int);
            assert(start_in(st, n) == (if disabled_before(c, n, c.len() as int) {
                Some(4u32)
            } else {
                start_in(s0, n)
            }));
        }
    } else if s.stage is Setting {
        let name = services[s.idx as int];
        assert(c[c.len() - 1] == c.last());
        assert forall|n: Seq<char>| #[trigger]
            start_in(st2, n) == (if disabled_before(c, n, c.len() as int) {
                Some(4u32)
            } else {
                start_in(s0, n)
            }) by {
            assert(start_in(st, n) == (if disabled_before(c, n, c.len() - 1) {
                Some(4u32)
            } else {
                start_in(s0, n)
            }));
            if n == name {
                assert(c[c.len() - 1].0 == n && restorable(c[c.len() - 1].1));
            } else {
                if disabled_before(c, n, c.len() as int) {
                    let j = choose|j: int| 0 <= j < c.len() && (#[trigger] c[j]).0 == n && restorable(c[j].1);
                    assert(j != c.len() - 1);
                }
            }
        }
    }
}

proof fn lemma_service_states(services: Seq<Seq<char>>, evs: Seq<ServiceEvent>)
    ensures
        service_states(services, evs).len() == evs.len() + 1,
        service_states(services, evs)[0] == service_begin(services),
        forall|k: int|
            0 <= k < evs.len() ==> #[trigger] service_states(services, evs)[k + 1] == service_step(
                services,
                service_states(services, evs)[k],
                evs[k],
            ).0,
    decreases evs.len(),
{
    if evs.len() > 0 {
        let e1 = evs.drop_last();
        lemma_service_states(services, e1);
        assert forall|k: int| 0 <= k < evs.len() implies #[trigger] service_states(services, evs)[k + 1]
            == service_step(services, service_states(services, evs)[k], evs[k]).0 by {
            if k < e1.len() {
                assert(service_states(services, evs)[k + 1] == service_states(services, e1)[k + 1]);
                assert(service_states(services, evs)[k] == service_states(services, e1)[k]);
                assert(evs[k] == e1[k]);
            }
        }
    }
}

proof fn lemma_group_prefix(
    services: Seq<Seq<char>>,
    evs: Seq<ServiceEvent>,
    sts: Seq<Map<Seq<char>, u32>>,
    k: int,
)
    requires
        service_system_run(services, evs, sts),
        0 <= k <= evs.len(),
    ensures
        group_inv(services, sts[0], service_states(services, evs)[k], sts[k]),
    decreases k,
{
    lemma_service_states(services, evs);
    if k == 0 {
        lemma_group_begin(services, sts[0]);
    } else {
        lemma_group_prefix(services, evs, sts, k - 1);
        let s = service_states(services, evs)[k - 1];
        assert(service_answers(services, service_pending(s), evs[k - 1], sts[k - 1], sts[k]));
        lemma_group_step(services, sts[0], s, evs[k - 1], sts[k - 1], sts[k]);
        assert(service_states(services, evs)[(k - 1) + 1] == service_step(services, s, evs[k - 1]).0);
    }
}

/// Where no two restorable captures name the same service, putting back the
/// restore plan sets each service with a restorable capture to the start
/// type of that capture and leaves every other service as it was; and each
/// planned service has a restorable capture.
proof fn lemma_apply_starts(st: Map<Seq<char>, u32>, c: Seq<(Seq<char>, Option<u32>)>, n: Seq<char>)
    requires
        forall|i: int, j: int|
            0 <= i < j < c.len() && (#[trigger] c[i]).0 == (#[trigger] c[j]).0 && restorable(c[i].1) ==> !restorable(
                c[j].1,
            ),
    ensures
        (forall|j: int| 0 <= j < c.len() ==> !((#[trigger] c[j]).0 == n && restorable(c[j].1))) ==> start_in(
            apply_starts(st, starts_to_restore(c)),
            n,
        ) == start_in(st, n),
        forall|j: int|
            0 <= j < c.len() && (#[trigger] c[j]).0 == n && restorable(c[j].1) ==> start_in(
                apply_starts(st, starts_to_restore(c)),
                n,
            ) == Some(start_value(start_of(c[j].1->0))),
        forall|p: int|
            0 <= p < starts_to_restore(c).len() ==> exists|i: int|
                0 <= i < c.len() && (#[trigger] c[i]).0 == (#[trigger] starts_to_restore(c)[p]).0 && restorable(
                    c[i].1,
                ),
    decreases c.len(),
{
    if c.len() > 0 {
        let c1 = c.drop_last();
        assert forall|i: int, j: int|
            0 <= i < j < c1.len() && (#[trigger] c1[i]).0 == (#[trigger] c1[j]).0 && restorable(
                c1[i].1,
            ) implies !restorable(c1[j].1) by {
            assert(c1[i] == c[i] && c1[j] == c[j]);
        }
        lemma_apply_starts(st, c1, n);
        let last = c.last();
        assert(c[c.len() - 1] == last);
        let p1 = starts_to_restore(c1);
        assert forall|j: int| 0 <= j < c1.len() implies #[trigger] c1[j] == c[j] by {}
        if restorable(last.1) {
            let p = starts_to_restore(c);
            assert(p == p1.push((last.0, start_of(last.1->0))));
            assert(p.drop_last() =~= p1);
            assert forall|q: int| 0 <= q < p.len() implies exists|i: int|
                0 <= i < c.len() && (#[trigger] c[i]).0 == (#[trigger] p[q]).0 && restorable(c[i].1) by {
                if q < p1.len() {
                    assert(p[q] == p1[q]);
                    let i = choose|i: int|
                        0 <= i < c1.len() && (#[trigger] c1[i]).0 == (#[trigger] p1[q]).0 && restorable(
                            c1[i].1,
                        );
                    assert(c[i] == c1[i]);
                } else {
                    assert(c[c.len() - 1].0 == p[q].0);
                }
            }
            if last.0 != n {
                assert forall|j: int|
                    0 <= j < c.len() && (#[trigger] c[j]).0 == n && restorable(c[j].1) implies start_in(
                    apply_starts(st, starts_to_restore(c)),
                    n,
                ) == Some(start_value(start_of(c[j].1->0))) by {
                    assert(j < c1.len());
                    assert(c1[j] == c[j]);
                }
            } else {
                assert forall|j: int|
                    0 <= j < c.len() && (#[trigger] c[j]).0 == n && restorable(c[j].1) implies j == c.len()
                    - 1 by {
                    if j < c.len() - 1 {
                        assert(!restorable(c[c.len() - 1].1));
                    }
                }
            }
        } else {
            assert(starts_to_restore(c) == p1);
            assert forall|j: int|
                0 <= j < c.len() && (#[trigger] c[j]).0 == n && restorable(c[j].1) implies start_in(
                apply_starts(st, starts_to_restore(c)),
                n,
            ) == Some(start_value(start_of(c[j].1->0))) by {
                assert(j < c1.len());
                assert(c1[j] == c[j]);
            }
            assert forall|q: int| 0 <= q < p1.len() implies exists|i: int|
                0 <= i < c.len() && (#[trigger] c[i]).0 == (#[trigger] p1[q]).0 && restorable(c[i].1) by {
                let i = choose|i: int|
                    0 <= i < c1.len() && (#[trigger] c1[i]).0 == (#[trigger] p1[q]).0 && restorable(c1[i].1);
                assert(c[i] == c1[i]);
            }
        }
    }
}

/// Disabling a service group and then restoring it is a round trip. Take a
/// whole run of `services` against a system whose Start values are `sts[0]`
/// at the start, that answers every read with the stored value and every
/// disable with success, to the run's end; then put back the restore plan
/// built from the run's captures. The run ends without failure; every
/// service whose Start value was 0 to 4 has that value again; the restore
/// touches only services whose value was present and not 4; and a service
/// that was absent, already disabled, or not in the group keeps its value
/// through the whole run and the restore.
pub proof fn law_service_group_round_trip(
    services: Seq<Seq<char>>,
    evs: Seq<ServiceEvent>,
    sts: Seq<Map<Seq<char>, u32>>,
)
    requires
        service_system_run(services, evs, sts),
        service_states(services, evs).last().stage is Done,
    ensures
        ({
            let c = service_states(services, evs).last().captured;
            let fin = apply_starts(sts.last(), starts_to_restore(c));
            &&& service_states(services, evs).last().error is None
            &&& forall|n: Seq<char>|
                #![trigger start_in(fin, n)]
                start_in(sts[0], n) is Some && start_in(sts[0], n)->0 <= 4 ==> start_in(fin, n) == start_in(
                    sts[0],
                    n,
                )
            &&& forall|p: int|
                0 <= p < starts_to_restore(c).len() ==> restorable(
                    start_in(sts[0], #[trigger] starts_to_restore(c)[p].0),
                )
            &&& forall|n: Seq<char>, k: int|
                #![trigger start_in(sts[k], n)]
                0 <= k < sts.len() && (!services.contains(n) || !restorable(start_in(sts[0], n))) ==> start_in(
                    sts[k],
                    n,
                ) == start_in(sts[0], n) && start_in(fin, n) == start_in(sts[0], n)
        }),
{
    lemma_service_states(services, evs);
    let last = evs.len() as int;
    lemma_group_prefix(services, evs, sts, last);
    let s = service_states(services, evs)[last];
    let c = s.captured;
    let s0 = sts[0];
    let fin = apply_starts(sts[last], starts_to_restore(c));
    assert(sts.last() == sts[last]);
    assert(service_states(services, evs).last() == s);
    // No two restorable captures name the same service.
    assert forall|i: int, j: int|
        0 <= i < j < c.len() && (#[trigger] c[i]).0 == (#[trigger] c[j]).0 && restorable(c[i].1) implies !restorable(
        c[j].1,
    ) by {
        assert(disabled_before(c, c[j].0, j));
    }
    // A restorable capture records the service's value before the run.
    assert forall|j: int| 0 <= j < c.len() && restorable((#[trigger] c[j]).1) implies c[j].1 == start_in(
        s0,
        c[j].0,
    ) && restorable(start_in(s0, c[j].0)) by {}
    assert forall|n: Seq<char>| start_in(s0, n) is Some && start_in(s0, n)->0 <= 4 implies #[trigger] start_in(
        fin,
        n,
    ) == start_in(s0, n) by {
        lemma_apply_starts(sts[last], c, n);
        let v = start_in(s0, n)->0;
        if exists|j: int| 0 <= j < c.len() && (#[trigger] c[j]).0 == n && restorable(c[j].1) {
            let j = choose|j: int| 0 <= j < c.len() && (#[trigger] c[j]).0 == n && restorable(c[j].1);
            crate::ops::law_start_value_round_trip(ServiceStart::Disabled, v);
        } else {
            assert(!disabled_before(c, n, c.len() as int));
        }
    }
    assert forall|p: int| 0 <= p < starts_to_restore(c).len() implies restorable(
        start_in(s0, #[trigger] starts_to_restore(c)[p].0),
    ) by {
        lemma_apply_starts(sts[last], c, starts_to_restore(c)[p].0);
        let i = choose|i: int|
            0 <= i < c.len() && (#[trigger] c[i]).0 == (#[trigger] starts_to_restore(c)[p]).0 && restorable(
                c[i].1,
            );
    }
    assert forall|n: Seq<char>, k: int|
        #![trigger start_in(sts[k], n)]
        0 <= k < sts.len() && (!services.contains(n) || !restorable(start_in(s0, n))) implies start_in(
        sts[k],
        n,
    ) == start_in(s0, n) && start_in(fin, n) == start_in(s0, n) by {
        lemma_group_prefix(services, evs, sts, k);
        let sk = service_states(services, evs)[k];
        let ck = sk.captured;
        let settled: int = if sk.stage is Setting { ck.len() - 1 } else { ck.len() as int };
        assert(start_in(sts[k], n) == (if disabled_before(ck, n, settled) {
            Some(4u32)
        } else {
            start_in(s0, n)
        }));
        if disabled_before(ck, n, settled) {
            let j = choose|j: int| 0 <= j < settled && (#[trigger] ck[j]).0 == n && restorable(ck[j].1);
            assert(ck[j].0 == services[j]);
            assert(services.contains(n));
            assert(ck[j].1 == start_in(s0, n));
        }
        lemma_apply_starts(sts[last], c, n);
        if exists|j: int| 0 <= j < c.len() && (#[trigger] c[j]).0 == n && restorable(c[j].1) {
            let j = choose|j: int| 0 <= j < c.len() && (#[trigger] c[j]).0 == n && restorable(c[j].1);
            assert(c[j].0 == services[j]);
        }
    }
}

fn find_restorable(c: &Vec<(String, Option<u32>)>, from: usize) -> (r: Option<usize>)
    ensures
        match next_restorable(start_views(c@), from as nat) {
            Some(j) => r matches Some(k) && k as nat == j,
            None => r is None,
        },
{
    let ghost cv = start_views(c@);
    let mut j: usize = from;
    while j < c.len()
        invariant
            cv == start_views(c@),
            from <= j,
            next_restorable(cv, from as nat) == next_restorable(cv, j as nat),
        decreases c.len() - j,
    {
        assert(cv[j as int].1 == c@[j as int].1);
        let hit = match c[j].1 {
            Some(x) => x != 4,
            None => false,
        };
        if hit {
            return Some(j);
        }
        j = j + 1;
    }
    None
}

impl ServiceRun {
    /// Starts disabling `services`.
    pub fn start(services: &Vec<String>) -> (r: (ServiceRun, ServiceAction))
        ensures
            r.0@ == (ServiceRunView {
                stage: if services@.len() == 0 { ServiceStage::Done } else { ServiceStage::Reading },
                idx: 0,
                captured: Seq::empty(),
                rb: 0,
                error: None,
            }),
            r.1@ == service_pending(r.0@),
            service_run_wf(views(services@), r.0@),
    {
        let run = ServiceRun {
            stage: if services.len() == 0 { ServiceStage::Done } else { ServiceStage::Reading },
            idx: 0,
            captured: Vec::new(),
            rb: 0,
            error: None,
        };
        assert(start_views(run.captured@) =~= Seq::<(Seq<char>, Option<u32>)>::empty());
        let a = if services.len() == 0 { ServiceAction::Finish } else { ServiceAction::ReadStart(0) };
        (run, a)
    }

    fn next(&mut self, services: &Vec<String>) -> (a: ServiceAction)
        requires
            old(self).idx < services@.len(),
        ensures
            (final(self)@, a@) == service_next(views(services@), old(self)@),
    {
        let n = services.len();
        assert(self.idx < n);
        self.idx = self.idx + 1;
        if self.idx < n {
            self.stage = ServiceStage::Reading;
            ServiceAction::ReadStart(self.idx)
        } else {
            self.stage = ServiceStage::Done;
            ServiceAction::Finish
        }
    }

    fn rollback(&mut self) -> (a: ServiceAction)
        ensures
            (final(self)@, a@) == service_rollback(old(self)@),
    {
        match find_restorable(&self.captured, self.rb) {
            Some(j) => {
                self.stage = ServiceStage::RollingBack;
                self.rb = j;
                ServiceAction::Restore(j)
            },
            None => {
                self.stage = ServiceStage::Done;
                ServiceAction::Finish
            },
        }
    }

    /// Feeds the outcome of the pending action; returns the next action.
    pub fn step(&mut self, services: &Vec<String>, ev: ServiceEvent) -> (a: ServiceAction)
        requires
            service_run_wf(views(services@), old(self)@),
        ensures
            (final(self)@, a@) == service_step(views(services@), old(self)@, ev),
            service_run_wf(views(services@), final(self)@),
    {
        proof {
            lemma_next_restorable(self@.captured, 0);
            lemma_next_restorable(self@.captured, self@.rb + 1);
        }
        match self.stage {
            ServiceStage::Reading => match ev {
                ServiceEvent::StartValue(r) => {
                    let original = match r {
                        Ok(v) => v,
                        Err(_) => None,
                    };
                    let name = crate::text::copy_string(&services[self.idx]);
                    let ghost before = self@.captured;
                    self.captured.push((name, original));
                    assert(start_views(self.captured@) =~= before.push((views(services@)[self.idx as int], original)));
                    let skip = match original {
                        Some(v) => v == 4,
                        None => true,
                    };
                    if skip {
                        self.next(services)
                    } else {
                        self.stage = ServiceStage::Setting;
                        ServiceAction::Disable(self.idx)
                    }
                },
                _ => ServiceAction::ReadStart(self.idx),
            },
            ServiceStage::Setting => match ev {
                ServiceEvent::Changed(r) => match r {
                    Ok(_) => self.next(services),
                    Err(e) => {
                        self.error = Some(e);
                        self.rb = 0;
                        self.rollback()
                    },
                },
                _ => ServiceAction::Disable(self.idx),
            },
            ServiceStage::RollingBack => match ev {
                ServiceEvent::Changed(_) => {
                    let n = self.captured.len();
                    assert(self.rb < n);
                    self.rb = self.rb + 1;
                    self.rollback()
                },
                _ => ServiceAction::Restore(self.rb),
            },
            ServiceStage::Done => ServiceAction::Finish,
        }
    }
}

// ---------------------------------------------------------------- group checks and restores

/// No entry of the task snapshot that names `full` is enabled: the task is
/// disabled or absent.
pub open spec fn task_off(es: Seq<(Seq<char>, bool)>, full: Seq<char>) -> bool {
    forall|j: int| 0 <= j < es.len() && (#[trigger] es[j]).0 == full ==> es[j].1
}

/// Every task of the group is disabled or absent (no snapshot: not verified).
pub open spec fn tasks_disabled_spec(tasks: Seq<Seq<char>>, snapshot: Option<Seq<(Seq<char>, bool)>>) -> bool {
    match snapshot {
        Some(es) => forall|i: int| 0 <= i < tasks.len() ==> task_off(es, full_task_name(#[trigger] tasks[i])),
        None => false,
    }
}

/// A task group counts as disabled exactly when there is a task snapshot and
/// no entry of it that names any task of the group (by full path) is
/// enabled; one enabled entry for any task of the group makes it not
/// disabled, and with no snapshot nothing is verified.
pub proof fn law_tasks_disabled(tasks: Seq<Seq<char>>, snapshot: Option<Seq<(Seq<char>, bool)>>)
    ensures
        tasks_disabled_spec(tasks, snapshot) == match snapshot {
            None => false,
            Some(es) => forall|i: int, j: int|
                #![trigger tasks[i], es[j]]
                0 <= i < tasks.len() && 0 <= j < es.len() && es[j].0 == full_task_name(tasks[i]) ==> es[j].1,
        },
{
    match snapshot {
        None => {},
        Some(es) => {
            if tasks_disabled_spec(tasks, snapshot) {
                assert forall|i: int, j: int|
                    #![trigger tasks[i], es[j]]
                    0 <= i < tasks.len() && 0 <= j < es.len() && es[j].0 == full_task_name(tasks[i]) implies es[j].1 by {
                    assert(task_off(es, full_task_name(tasks[i])));
                }
            }
            if forall|i: int, j: int|
                #![trigger tasks[i], es[j]]
                0 <= i < tasks.len() && 0 <= j < es.len() && es[j].0 == full_task_name(tasks[i]) ==> es[j].1 {
                assert forall|i: int| 0 <= i < tasks.len() implies task_off(es, full_task_name(#[trigger] tasks[i])) by {
                    assert forall|j: int| 0 <= j < es.len() && (#[trigger] es[j]).0 == full_task_name(tasks[i]) implies es[j].1 by {
                        assert(tasks[i] == tasks[i]);
                    }
                }
            }
        },
    }
}

/// Whether `full` names no enabled entry of the snapshot.
fn task_off_or_absent(entries: &Vec<crate::ops::TaskEntry>, full: &String) -> (r: bool)
    ensures
        r == task_off(crate::ops::entry_views(entries@), full@),
{
    let ghost ev = crate::ops::entry_views(entries@);
    let mut j: usize = 0;
    let mut ok = true;
    while j < entries.len()
        invariant
            ev == crate::ops::entry_views(entries@),
            j <= entries@.len(),
            ok <==> forall|k: int| 0 <= k < j && (#[trigger] ev[k]).0 == full@ ==> ev[k].1,
        decreases entries.len() - j,
    {
        assert(ev[j as int] == (entries@[j as int].name@, entries@[j as int].disabled));
        if crate::text::str_eq(entries[j].name.as_str(), full.as_str()) && !entries[j].disabled {
            ok = false;
        }
        j = j + 1;
    }
    ok
}

/// Whether every task of the group is disabled or absent, from the task snapshot.
pub fn tasks_disabled(tasks: &Vec<String>, snapshot: &Option<Vec<crate::ops::TaskEntry>>) -> (r: bool)
    ensures
        r == tasks_disabled_spec(
            views(tasks@),
            match snapshot {
                Some(v) => Some(crate::ops::entry_views(v@)),
                None => None,
            },
        ),
        snapshot is None ==> !r,
        snapshot matches Some(v) ==> (r <==> forall|i: int, j: int|
            #![trigger tasks@[i], v@[j]]
            0 <= i < tasks@.len() && 0 <= j < v@.len() && v@[j].name@ == full_task_name(tasks@[i]@) ==> v@[j].disabled),
{
    proof {
        match snapshot {
            Some(v) => {
                let ev = crate::ops::entry_views(v@);
                let tv = views(tasks@);
                law_tasks_disabled(tv, Some(ev));
                let exec_form = forall|i: int, j: int|
                    #![trigger tasks@[i], v@[j]]
                    0 <= i < tasks@.len() && 0 <= j < v@.len() && v@[j].name@ == full_task_name(tasks@[i]@)
                        ==> v@[j].disabled;
                let view_form = forall|i: int, j: int|
                    #![trigger tv[i], ev[j]]
                    0 <= i < tv.len() && 0 <= j < ev.len() && ev[j].0 == full_task_name(tv[i]) ==> ev[j].1;
                if exec_form {
                    assert forall|i: int, j: int|
                        #![trigger tv[i], ev[j]]
                        0 <= i < tv.len() && 0 <= j < ev.len() && ev[j].0 == full_task_name(tv[i]) implies ev[j].1 by {
                        assert(tv[i] == tasks@[i]@);
                        assert(ev[j] == (v@[j].name@, v@[j].disabled));
                    }
                }
                if view_form {
                    assert forall|i: int, j: int|
                        #![trigger tasks@[i], v@[j]]
                        0 <= i < tasks@.len() && 0 <= j < v@.len() && v@[j].name@ == full_task_name(tasks@[i]@)
                            implies v@[j].disabled by {
                        assert(tv[i] == tasks@[i]@);
                        assert(ev[j] == (v@[j].name@, v@[j].disabled));
                    }
                }
                assert(exec_form == view_form);
            },
            None => {},
        }
    }
    match snapshot {
        None => false,
        Some(entries) => {
            let ghost ev = crate::ops::entry_views(entries@);
            let ghost tv = views(tasks@);
            let mut ok = true;
            let mut i: usize = 0;
            while i < tasks.len()
                invariant
                    ev == crate::ops::entry_views(entries@),
                    tv == views(tasks@),
                    i <= tasks@.len(),
                    ok <==> forall|k: int| 0 <= k < i ==> task_off(ev, full_task_name(#[trigger] tv[k])),
                decreases tasks.len() - i,
            {
                let full = crate::ops::task_full_name(tasks[i].as_str());
                assert(full@ == full_task_name(tv[i as int]));
                let fine = task_off_or_absent(entries, &full);
                if !fine {
                    ok = false;
                }
                i = i + 1;
            }
            ok
        },
    }
}

/// A service counts as disabled when its Start value is 4 or it is not installed.
pub open spec fn service_disabled(r: Result<Option<u32>, ZenouError>) -> bool {
    r == Ok::<Option<u32>, ZenouError>(Some(4u32)) || r == Ok::<Option<u32>, ZenouError>(None)
}

/// Whether every service of the group is disabled, from each Start value read.
pub fn services_disabled(values: &Vec<Result<Option<u32>, ZenouError>>) -> (r: bool)
    ensures
        r == forall|i: int| 0 <= i < values@.len() ==> service_disabled(#[trigger] values@[i]),
{
    let mut i: usize = 0;
    while i < values.len()
        invariant
            i <= values@.len(),
            forall|k: int| 0 <= k < i ==> service_disabled(#[trigger] values@[k]),
        decreases values.len() - i,
    {
        let ok = match &values[i] {
            Ok(Some(v)) => *v == 4,
            Ok(None) => true,
            Err(_) => false,
        };
        if !ok {
            return false;
        }
        i = i + 1;
    }
    true
}

/// The tasks a restore re-enables: those recorded as enabled, in order.
pub open spec fn tasks_to_enable(pairs: Seq<(Seq<char>, bool)>) -> Seq<Seq<char>>
    decreases pairs.len(),
{
    if pairs.len() == 0 {
        Seq::empty()
    } else {
        let p = tasks_to_enable(pairs.drop_last());
        if pairs.last().1 {
            p.push(pairs.last().0)
        } else {
            p
        }
    }
}

/// A group restore re-enables exactly the tasks recorded as enabled, each
/// once per record and in record order: the plan is the recorded pairs whose
/// flag is set, by name; every pair recorded as enabled is in it, and every
/// name in it was recorded as enabled.
pub proof fn law_task_restore_plan(pairs: Seq<(Seq<char>, bool)>)
    ensures
        tasks_to_enable(pairs) == pairs.filter(|p: (Seq<char>, bool)| p.1).map_values(|p: (Seq<char>, bool)| p.0),
        forall|j: int| 0 <= j < pairs.len() && (#[trigger] pairs[j]).1 ==> tasks_to_enable(pairs).contains(pairs[j].0),
        forall|k: int|
            0 <= k < tasks_to_enable(pairs).len() ==> exists|j: int|
                0 <= j < pairs.len() && (#[trigger] pairs[j]).1 && pairs[j].0 == #[trigger] tasks_to_enable(pairs)[k],
    decreases pairs.len(),
{
    reveal(Seq::filter);
    if pairs.len() > 0 {
        let p1 = pairs.drop_last();
        law_task_restore_plan(p1);
        let t1 = tasks_to_enable(p1);
        let t = tasks_to_enable(pairs);
        let f = p1.filter(|p: (Seq<char>, bool)| p.1);
        let g = |p: (Seq<char>, bool)| p.0;
        if pairs.last().1 {
            assert(f.push(pairs.last()).map_values(g) =~= f.map_values(g).push(g(pairs.last())));
        }
        assert forall|j: int| 0 <= j < pairs.len() && (#[trigger] pairs[j]).1 implies t.contains(pairs[j].0) by {
            if j < p1.len() {
                assert(p1[j] == pairs[j]);
                let k = choose|k: int| 0 <= k < t1.len() && t1[k] == p1[j].0;
                assert(t[k] == t1[k]);
            } else {
                assert(t[t.len() - 1] == pairs[j].0);
            }
        }
        assert forall|k: int| 0 <= k < t.len() implies exists|j: int|
            0 <= j < pairs.len() && (#[trigger] pairs[j]).1 && pairs[j].0 == #[trigger] t[k] by {
            if k < t1.len() {
                assert(t[k] == t1[k]);
                let j = choose|j: int| 0 <= j < p1.len() && (#[trigger] p1[j]).1 && p1[j].0 == #[trigger] t1[k];
                assert(pairs[j] == p1[j]);
            } else {
                assert(pairs[pairs.len() - 1] == pairs.last());
                assert(pairs.last().1);
                assert(t[k] == pairs.last().0);
            }
        }
    }
}

/// The tasks to re-enable on restore.
pub fn task_restore_plan(pairs: &Vec<(String, bool)>) -> (r: Vec<String>)
    ensures
        views(r@) == tasks_to_enable(flag_views(pairs@)),
        views(r@) == flag_views(pairs@).filter(|p: (Seq<char>, bool)| p.1).map_values(|p: (Seq<char>, bool)| p.0),
{
    proof {
        law_task_restore_plan(flag_views(pairs@));
    }
    let ghost pv = flag_views(pairs@);
    let mut r: Vec<String> = Vec::new();
    let mut i: usize = 0;
    assert(pv.subrange(0, 0) =~= Seq::<(Seq<char>, bool)>::empty());
    while i < pairs.len()
        invariant
            pv == flag_views(pairs@),
            i <= pairs@.len(),
            views(r@) == tasks_to_enable(pv.subrange(0, i as int)),
        decreases pairs.len() - i,
    {
        assert(pv.subrange(0, i + 1).drop_last() =~= pv.subrange(0, i as int));
        if pairs[i].1 {
            let ghost before = views(r@);
            let c = crate::text::copy_string(&pairs[i].0);
            r.push(c);
            assert(views(r@) =~= before.push(pairs@[i as int].0@));
        }
        i = i + 1;
    }
    assert(pv.subrange(0, pairs@.len() as int) =~= pv);
    r
}

/// The start types a restore puts back: every recorded value other than 4.
pub open spec fn starts_to_restore(pairs: Seq<(Seq<char>, Option<u32>)>) -> Seq<(Seq<char>, ServiceStart)>
    decreases pairs.len(),
{
    if pairs.len() == 0 {
        Seq::empty()
    } else {
        let p = starts_to_restore(pairs.drop_last());
        match pairs.last().1 {
            Some(v) => if v != 4 {
                p.push((pairs.last().0, start_of(v)))
            } else {
                p
            },
            None => p,
        }
    }
}

/// The start types to put back on restore.
pub fn service_restore_plan(pairs: &Vec<(String, Option<u32>)>) -> (r: Vec<(String, ServiceStart)>)
    ensures
        r@.map_values(|p: (String, ServiceStart)| (p.0@, p.1)) == starts_to_restore(start_views(pairs@)),
        r@.map_values(|p: (String, ServiceStart)| (p.0@, p.1)) == restored_starts(start_views(pairs@)),
{
    proof {
        lemma_starts_to_restore(start_views(pairs@));
    }
    let ghost pv = start_views(pairs@);
    let mut r: Vec<(String, ServiceStart)> = Vec::new();
    let mut i: usize = 0;
    assert(pv.subrange(0, 0) =~= Seq::<(Seq<char>, Option<u32>)>::empty());
    while i < pairs.len()
        invariant
            pv == start_views(pairs@),
            i <= pairs@.len(),
            r@.map_values(|p: (String, ServiceStart)| (p.0@, p.1)) == starts_to_restore(pv.subrange(0, i as int)),
        decreases pairs.len() - i,
    {
        assert(pv.subrange(0, i + 1).drop_last() =~= pv.subrange(0, i as int));
        match pairs[i].1 {
            Some(v) => {
                if v != 4 {
                    let ghost before = r@.map_values(|p: (String, ServiceStart)| (p.0@, p.1));
                    let c = crate::text::copy_string(&pairs[i].0);
                    r.push((c, ServiceStart::from_start_value(v)));
                    assert(r@.map_values(|p: (String, ServiceStart)| (p.0@, p.1)) =~= before.push(
                        (pairs@[i as int].0@, start_of(v)),
                    ));
                }
            },
            None => {},
        }
        i = i + 1;
    }
    assert(pv.subrange(0, pairs@.len() as int) =~= pv);
    r
}

/// The last failure among `results` that `counts` admits.
pub open spec fn last_failure(results: Seq<Result<(), ZenouError>>, skip_absent: bool) -> Option<ZenouError>
    decreases results.len(),
{
    if results.len() == 0 {
        None
    } else {
        match results.last() {
            Err(e) => if skip_absent && e.code@ == "task-absent"@ {
                last_failure(results.drop_last(), skip_absent)
            } else {
                Some(e)
            },
            Ok(_) => last_failure(results.drop_last(), skip_absent),
        }
    }
}

/// The outcome of a group restore: its last failure (a task missing from the
/// A failure counts unless absent tasks are skipped and it reports one.
pub open spec fn counted_failure(r: Result<(), ZenouError>, skip_absent: bool) -> bool {
    r is Err && !(skip_absent && r->Err_0.code@ == "task-absent"@)
}

/// A restore reports the last failure that counts: it succeeds exactly when
/// no result is a failure that counts, and otherwise reports a counted
/// failure after which every result is a success or a failure that does not
/// count.
pub proof fn law_last_failure(results: Seq<Result<(), ZenouError>>, skip_absent: bool)
    ensures
        last_failure(results, skip_absent) is None <==> forall|i: int|
            0 <= i < results.len() ==> !counted_failure(#[trigger] results[i], skip_absent),
        last_failure(results, skip_absent) matches Some(e) ==> exists|i: int|
            0 <= i < results.len() && results[i] == Err::<(), ZenouError>(e) && counted_failure(
                #[trigger] results[i],
                skip_absent,
            ) && forall|k: int| i < k < results.len() ==> !counted_failure(#[trigger] results[k], skip_absent),
    decreases results.len(),
{
    if results.len() > 0 {
        let r1 = results.drop_last();
        law_last_failure(r1, skip_absent);
        let n = results.len() - 1;
        assert(results[n] == results.last());
        assert forall|i: int| 0 <= i < r1.len() implies #[trigger] r1[i] == results[i] by {}
        if counted_failure(results.last(), skip_absent) {
            assert(results[n] == Err::<(), ZenouError>(results.last()->Err_0));
        } else {
            assert(last_failure(results, skip_absent) == last_failure(r1, skip_absent));
            if forall|i: int| 0 <= i < r1.len() ==> !counted_failure(#[trigger] r1[i], skip_absent) {
                assert forall|i: int| 0 <= i < results.len() implies !counted_failure(#[trigger] results[i], skip_absent) by {
                    if i < r1.len() {
                        assert(r1[i] == results[i]);
                    }
                }
            } else {
                let i = choose|i: int| 0 <= i < r1.len() && counted_failure(#[trigger] r1[i], skip_absent);
                assert(r1[i] == results[i]);
            }
            if last_failure(r1, skip_absent) is Some {
                let e = last_failure(r1, skip_absent)->0;
                let i = choose|i: int|
                    0 <= i < r1.len() && r1[i] == Err::<(), ZenouError>(e) && counted_failure(#[trigger] r1[i], skip_absent)
                        && forall|k: int| i < k < r1.len() ==> !counted_failure(#[trigger] r1[k], skip_absent);
                assert(results[i] == r1[i]);
                assert forall|k: int| i < k < results.len() implies !counted_failure(#[trigger] results[k], skip_absent) by {
                    if k < r1.len() {
                        assert(r1[k] == results[k]);
                    }
                }
            }
        }
    }
}

/// system does not count when `skip_absent`), or success.
pub fn restore_result(results: Vec<Result<(), ZenouError>>, skip_absent: bool) -> (r: Result<(), ZenouError>)
    ensures
        match last_failure(results@, skip_absent) {
            Some(e) => r == Err::<(), ZenouError>(e),
            None => r is Ok,
        },
        r is Ok <==> forall|i: int| 0 <= i < results@.len() ==> !counted_failure(#[trigger] results@[i], skip_absent),
        r matches Err(e) ==> exists|i: int|
            0 <= i < results@.len() && results@[i] == Err::<(), ZenouError>(e) && counted_failure(
                #[trigger] results@[i],
                skip_absent,
            ) && forall|k: int| i < k < results@.len() ==> !counted_failure(#[trigger] results@[k], skip_absent),
{
    let ghost all = results@;
    let r = last_counted_failure(results, skip_absent);
    proof {
        law_last_failure(all, skip_absent);
    }
    r
}

fn last_counted_failure(results: Vec<Result<(), ZenouError>>, skip_absent: bool) -> (r: Result<(), ZenouError>)
    ensures
        match last_failure(results@, skip_absent) {
            Some(e) => r == Err::<(), ZenouError>(e),
            None => r is Ok,
        },
{
    let ghost all = results@;
    let mut rest = results;
    while rest.len() > 0
        invariant
            all == results@,
            last_failure(all, skip_absent) == last_failure(rest@, skip_absent),
        decreases rest.len(),
    {
        let ghost before = rest@;
        let x = rest.pop().unwrap();
        assert(before.drop_last() =~= rest@);
        assert(before.last() == x);
        match x {
            Err(e) => {
                let absent = crate::text::str_eq(e.code.as_str(), "task-absent");
                if !(skip_absent && absent) {
                    assert(last_failure(before, skip_absent) == Some(e));
                    return Err(e);
                }
            },
            Ok(_) => {},
        }
    }
    Ok(())
}


// ---------------------------------------------------------------- captures kept across restarts

/// What `serde_json` finds at `[member][key]` of a JSON document as a
/// boolean: nothing when the text is not JSON, otherwise the boolean there
/// if there is one.
pub uninterp spec fn json_flag(text: Seq<char>, member: Seq<char>, key: Seq<char>) -> Option<Option<bool>>;

/// `serde_json::from_str` and the lookup of `[member][key]` as a boolean.
#[verifier::external_body]
fn flag_in(text: &str, member: &str, key: &str) -> (r: Option<Option<bool>>)
    ensures
        r == json_flag(text@, member@, key@),
{
    let v: serde_json::Value = serde_json::from_str(text).ok()?;
    Some(v[member].get(key).and_then(serde_json::Value::as_bool))
}

/// What `serde_json` finds at `[member][key]` of a JSON document as an
/// unsigned integer: nothing when the text is not JSON, otherwise the
/// integer there if there is one.
pub uninterp spec fn json_unsigned(text: Seq<char>, member: Seq<char>, key: Seq<char>) -> Option<Option<u64>>;

/// `serde_json::from_str` and the lookup of `[member][key]` as an unsigned integer.
#[verifier::external_body]
fn unsigned_in(text: &str, member: &str, key: &str) -> (r: Option<Option<u64>>)
    ensures
        r == json_unsigned(text@, member@, key@),
{
    let v: serde_json::Value = serde_json::from_str(text).ok()?;
    Some(v[member].get(key).and_then(serde_json::Value::as_u64))
}

/// The captures document keeps task flags under this member.
pub open spec fn tasks_member() -> Seq<char> {
    "tasks"@
}

/// The captures document keeps service Start values under this member.
pub open spec fn services_member() -> Seq<char> {
    "services"@
}

/// The members of the captures document: task flags, then service Start values.
pub fn captures_members() -> (r: (&'static str, &'static str))
    ensures
        r.0@ == tasks_member(),
        r.1@ == services_member(),
{
    ("tasks", "services")
}

/// The service captures worth keeping: those with a recorded Start value.
pub open spec fn persisted_starts(c: Seq<(Seq<char>, Option<u32>)>) -> Seq<(Seq<char>, u32)>
    decreases c.len(),
{
    if c.len() == 0 {
        Seq::empty()
    } else {
        let p = persisted_starts(c.drop_last());
        match c.last().1 {
            Some(v) => p.push((c.last().0, v)),
            None => p,
        }
    }
}

/// The service captures written to the captures document: every service
/// with a recorded Start value, in order (one without a value has nothing to
/// put back).
/// The service captures kept are exactly those with a recorded Start value,
/// in order, each with that value.
pub proof fn law_persisted_starts(c: Seq<(Seq<char>, Option<u32>)>)
    ensures
        persisted_starts(c) == c.filter(|p: (Seq<char>, Option<u32>)| p.1 is Some).map_values(
            |p: (Seq<char>, Option<u32>)| (p.0, p.1->0),
        ),
    decreases c.len(),
{
    reveal(Seq::filter);
    if c.len() > 0 {
        law_persisted_starts(c.drop_last());
        let f = c.drop_last().filter(|p: (Seq<char>, Option<u32>)| p.1 is Some);
        let g = |p: (Seq<char>, Option<u32>)| (p.0, p.1->0);
        if c.last().1 is Some {
            assert(f.push(c.last()).map_values(g) =~= f.map_values(g).push(g(c.last())));
        }
    }
}

pub fn persisted_services(c: &Vec<(String, Option<u32>)>) -> (r: Vec<(String, u32)>)
    ensures
        crate::backup::start_pairs(r@) == persisted_starts(start_views(c@)),
        crate::backup::start_pairs(r@) == start_views(c@).filter(|p: (Seq<char>, Option<u32>)| p.1 is Some).map_values(
            |p: (Seq<char>, Option<u32>)| (p.0, p.1->0),
        ),
{
    proof {
        law_persisted_starts(start_views(c@));
    }
    let ghost cv = start_views(c@);
    let mut r: Vec<(String, u32)> = Vec::new();
    let mut i: usize = 0;
    while i < c.len()
        invariant
            cv == start_views(c@),
            i <= c@.len(),
            crate::backup::start_pairs(r@) == persisted_starts(cv.subrange(0, i as int)),
        decreases c.len() - i,
    {
        assert(cv.subrange(0, i + 1).drop_last() =~= cv.subrange(0, i as int));
        assert(cv.subrange(0, i + 1).last() == (c@[i as int].0@, c@[i as int].1));
        match c[i].1 {
            Some(v) => {
                let ghost before = crate::backup::start_pairs(r@);
                r.push((crate::text::copy_string(&c[i].0), v));
                assert(crate::backup::start_pairs(r@) =~= before.push((c@[i as int].0@, v)));
            },
            None => {},
        }
        i = i + 1;
    }
    assert(cv.subrange(0, c@.len() as int) =~= cv);
    r
}

/// Whether a group apply left captures to keep.
pub fn captures_pending(tasks: &Vec<(String, bool)>, services: &Vec<(String, Option<u32>)>) -> (r: bool)
    ensures
        r == (tasks@.len() > 0 || services@.len() > 0),
{
    tasks.len() > 0 || services.len() > 0
}

/// The recorded flag of `task` in a captures document.
pub open spec fn json_task_flag(text: Seq<char>, task: Seq<char>) -> Option<Option<bool>> {
    json_flag(text, tasks_member(), task)
}

/// The recorded Start value of `service` in a captures document.
pub open spec fn json_service_value(text: Seq<char>, service: Seq<char>) -> Option<Option<u64>> {
    json_unsigned(text, services_member(), service)
}

fn task_flag_in(text: &str, task: &str) -> (r: Option<Option<bool>>)
    ensures
        r == json_task_flag(text@, task@),
{
    proof {
        reveal_strlit("tasks");
    }
    flag_in(text, "tasks", task)
}

fn service_value_in(text: &str, service: &str) -> (r: Option<Option<u64>>)
    ensures
        r == json_service_value(text@, service@),
{
    proof {
        reveal_strlit("services");
    }
    unsigned_in(text, "services", service)
}

/// The task captures a persisted document gives: nothing without a document
/// or when it is not JSON, otherwise each task with its recorded flag
/// (enabled when none is recorded).
pub open spec fn task_captures_spec(tasks: Seq<Seq<char>>, text: Option<Seq<char>>) -> Seq<(Seq<char>, bool)> {
    match text {
        None => Seq::empty(),
        Some(t) => if forall|i: int| 0 <= i < tasks.len() ==> json_task_flag(t, #[trigger] tasks[i]) is Some {
            Seq::new(
                tasks.len(),
                |i: int|
                    (
                        tasks[i],
                        match json_task_flag(t, tasks[i]) {
                            Some(Some(b)) => b,
                            _ => true,
                        },
                    ),
            )
        } else {
            Seq::empty()
        },
    }
}

/// The task captures recorded in the persisted captures document `text`
/// (`None` when there is no readable document).
pub fn load_task_captures(tasks: &Vec<String>, text: Option<&str>) -> (r: Vec<(String, bool)>)
    ensures
        flag_views(r@) == task_captures_spec(views(tasks@), match text {
            Some(t) => Some(t@),
            None => None,
        }),
{
    let t = match text {
        None => {
            assert(flag_views(Seq::<(String, bool)>::empty()) =~= Seq::<(Seq<char>, bool)>::empty());
            return Vec::new();
        },
        Some(t) => t,
    };
    let ghost tv = views(tasks@);
    let mut out: Vec<(String, bool)> = Vec::new();
    let mut i: usize = 0;
    while i < tasks.len()
        invariant
            text == Some(t),
            tv == views(tasks@),
            i <= tasks@.len(),
            forall|k: int| 0 <= k < i ==> json_task_flag(t@, #[trigger] tv[k]) is Some,
            flag_views(out@) == Seq::new(
                i as nat,
                |k: int|
                    (
                        tv[k],
                        match json_task_flag(t@, tv[k]) {
                            Some(Some(b)) => b,
                            _ => true,
                        },
                    ),
            ),
        decreases tasks.len() - i,
    {
        match task_flag_in(t, tasks[i].as_str()) {
            None => {
                assert(json_task_flag(t@, tv[i as int]) is None);
                assert(flag_views(Seq::<(String, bool)>::empty()) =~= Seq::<(Seq<char>, bool)>::empty());
                return Vec::new();
            },
            Some(f) => {
                let enabled = match f {
                    Some(b) => b,
                    None => true,
                };
                let ghost before = flag_views(out@);
                let c = crate::text::copy_string(&tasks[i]);
                assert(c@ == tv[i as int]);
                out.push((c, enabled));
                assert(flag_views(out@) =~= before.push((tv[i as int], enabled)));
                assert(flag_views(out@) =~= Seq::new(
                    (i + 1) as nat,
                    |k: int|
                        (
                            tv[k],
                            match json_task_flag(t@, tv[k]) {
                                Some(Some(b)) => b,
                                _ => true,
                            },
                        ),
                ));
            },
        }
        i = i + 1;
    }
    out
}

/// The service captures a persisted document gives: nothing without a
/// document or when it is not JSON, otherwise each service with its recorded
/// Start value (kept to 32 bits), if any.
pub open spec fn service_captures_spec(services: Seq<Seq<char>>, text: Option<Seq<char>>) -> Seq<(Seq<char>, Option<u32>)> {
    match text {
        None => Seq::empty(),
        Some(t) => if forall|i: int| 0 <= i < services.len() ==> json_service_value(t, #[trigger] services[i]) is Some {
            Seq::new(
                services.len(),
                |i: int|
                    (
                        services[i],
                        match json_service_value(t, services[i]) {
                            Some(Some(x)) => Some(x as u32),
                            _ => None,
                        },
                    ),
            )
        } else {
            Seq::empty()
        },
    }
}

/// The service captures recorded in the persisted captures document `text`
/// (`None` when there is no readable document).
pub fn load_service_captures(services: &Vec<String>, text: Option<&str>) -> (r: Vec<(String, Option<u32>)>)
    ensures
        start_views(r@) == service_captures_spec(views(services@), match text {
            Some(t) => Some(t@),
            None => None,
        }),
{
    let t = match text {
        None => {
            assert(start_views(Seq::<(String, Option<u32>)>::empty()) =~= Seq::<(Seq<char>, Option<u32>)>::empty());
            return Vec::new();
        },
        Some(t) => t,
    };
    let ghost sv = views(services@);
    let mut out: Vec<(String, Option<u32>)> = Vec::new();
    let mut i: usize = 0;
    while i < services.len()
        invariant
            text == Some(t),
            sv == views(services@),
            i <= services@.len(),
            forall|k: int| 0 <= k < i ==> json_service_value(t@, #[trigger] sv[k]) is Some,
            start_views(out@) == Seq::new(
                i as nat,
                |k: int|
                    (
                        sv[k],
                        match json_service_value(t@, sv[k]) {
                            Some(Some(x)) => Some(x as u32),
                            _ => None,
                        },
                    ),
            ),
        decreases services.len() - i,
    {
        match service_value_in(t, services[i].as_str()) {
            None => {
                assert(json_service_value(t@, sv[i as int]) is None);
                assert(start_views(Seq::<(String, Option<u32>)>::empty()) =~= Seq::<(Seq<char>, Option<u32>)>::empty());
                return Vec::new();
            },
            Some(f) => {
                let val: Option<u32> = match f {
                    Some(x) => Some(#[verifier::truncate] (x as u32)),
                    None => None,
                };
                let ghost before = start_views(out@);
                let c = crate::text::copy_string(&services[i]);
                assert(c@ == sv[i as int]);
                out.push((c, val));
                assert(start_views(out@) =~= before.push((sv[i as int], val)));
                assert(start_views(out@) =~= Seq::new(
                    (i + 1) as nat,
                    |k: int|
                        (
                            sv[k],
                            match json_service_value(t@, sv[k]) {
                                Some(Some(x)) => Some(x as u32),
                                _ => None,
                            },
                        ),
                ));
            },
        }
        i = i + 1;
    }
    out
}

} // verus!
