//! Whitelisted system operations. Every command line is fixed by the library
//! (no frontend-supplied command text, no shell); the helper process runs
//! outside, and its captured output is interpreted here.

use vstd::prelude::*;
use crate::error::{error_is, ZenouError};
use crate::registry::{le_value, RegType, RegValue};
use crate::text::{
    chars_of, concat3, contains_str, lower_seq, owned, push_owned, push_str, seq_contains, to_lowercase,
    lowercase_of, views,
};
use crate::winapi::{command_is, out_combined, out_stderr, out_stdout, Command, Output};

verus! {

/// How Windows starts a service.
#[derive(Debug, Clone, Copy, PartialEq, Eq, Structural)]
pub enum ServiceStart {
    Boot,
    System,
    Auto,
    Demand,
    Disabled,
}

/// The registry Start value of a start type.
pub open spec fn start_value(s: ServiceStart) -> u32 {
    match s {
        ServiceStart::Boot => 0,
        ServiceStart::System => 1,
        ServiceStart::Auto => 2,
        ServiceStart::Demand => 3,
        ServiceStart::Disabled => 4,
    }
}

/// The start type of a registry Start value (anything unknown reads as disabled).
pub open spec fn start_of(v: u32) -> ServiceStart {
    if v == 0 {
        ServiceStart::Boot
    } else if v == 1 {
        ServiceStart::System
    } else if v == 2 {
        ServiceStart::Auto
    } else if v == 3 {
        ServiceStart::Demand
    } else {
        ServiceStart::Disabled
    }
}

/// The user-facing name of a start type.
pub open spec fn start_label(s: ServiceStart) -> Seq<char> {
    match s {
        ServiceStart::Boot => "Boot"@,
        ServiceStart::System => "System"@,
        ServiceStart::Auto => "Automatic"@,
        ServiceStart::Demand => "Manual"@,
        ServiceStart::Disabled => "Disabled"@,
    }
}

/// The `net config ... start=` argument of a start type.
pub open spec fn start_arg(s: ServiceStart) -> Seq<char> {
    match s {
        ServiceStart::Boot => "boot"@,
        ServiceStart::System => "system"@,
        ServiceStart::Auto => "auto"@,
        ServiceStart::Demand => "demand"@,
        ServiceStart::Disabled => "disabled"@,
    }
}

impl ServiceStart {
    pub fn to_start_value(self) -> (v: u32)
        ensures
            v == start_value(self),
    {
        match self {
            ServiceStart::Boot => 0,
            ServiceStart::System => 1,
            ServiceStart::Auto => 2,
            ServiceStart::Demand => 3,
            ServiceStart::Disabled => 4,
        }
    }

    pub fn from_start_value(v: u32) -> (s: ServiceStart)
        ensures
            s == start_of(v),
    {
        match v {
            0 => ServiceStart::Boot,
            1 => ServiceStart::System,
            2 => ServiceStart::Auto,
            3 => ServiceStart::Demand,
            _ => ServiceStart::Disabled,
        }
    }

    pub fn label(self) -> (r: &'static str)
        ensures
            r@ == start_label(self),
    {
        match self {
            ServiceStart::Boot => "Boot",
            ServiceStart::System => "System",
            ServiceStart::Auto => "Automatic",
            ServiceStart::Demand => "Manual",
            ServiceStart::Disabled => "Disabled",
        }
    }

    fn arg(self) -> (r: &'static str)
        ensures
            r@ == start_arg(self),
    {
        match self {
            ServiceStart::Boot => "boot",
            ServiceStart::System => "system",
            ServiceStart::Auto => "auto",
            ServiceStart::Demand => "demand",
            ServiceStart::Disabled => "disabled",
        }
    }
}

/// A start type survives the trip through its registry value, and every
/// value Windows defines (0 to 4) survives the trip through its start type;
/// larger values read as disabled.
pub proof fn law_start_value_round_trip(s: ServiceStart, v: u32)
    ensures
        start_of(start_value(s)) == s,
        v <= 4 ==> start_value(start_of(v)) == v,
        v > 4 ==> start_of(v) == ServiceStart::Disabled,
{
}

// ---------------------------------------------------------------- exit codes

/// `r` is what a command that reports failure with `msg` gives for `o`.
pub open spec fn checked_spec(o: Output, msg: Seq<char>, r: Result<(), ZenouError>) -> bool {
    if o.exit_code == 0 {
        r is Ok
    } else {
        r matches Err(e) && error_is(e, "command"@, msg, Some(out_combined(o)))
    }
}

/// Success when the process exited with 0, otherwise a command error with
/// `msg` and the combined report.
fn checked(o: &Output, msg: &str) -> (r: Result<(), ZenouError>)
    ensures
        checked_spec(*o, msg@, r),
{
    if o.exit_code != 0 {
        return Err(ZenouError::command(owned(msg), Some(o.combined())));
    }
    Ok(())
}

// ---------------------------------------------------------------- services

/// The registry key of a service (under HKLM).
pub open spec fn service_key(service: Seq<char>) -> Seq<char> {
    "SYSTEM\\CurrentControlSet\\Services\\"@ + service
}

/// The key whose `Start` value holds a service's start type.
pub fn service_key_path(service: &str) -> (p: String)
    ensures
        p@ == service_key(service@),
{
    let mut p = owned("SYSTEM\\CurrentControlSet\\Services\\");
    push_str(&mut p, service);
    p
}

/// A service's Start value, given the outcome of reading it: the DWORD when
/// the value is a four-byte REG_DWORD, nothing when it is absent or of
/// another shape; a failed read fails with its error.
pub fn service_start_value(read: Result<Option<RegValue>, ZenouError>) -> (r: Result<Option<u32>, ZenouError>)
    ensures
        read matches Err(e) ==> r == Err::<Option<u32>, ZenouError>(e),
        read matches Ok(v) ==> r == Ok::<Option<u32>, ZenouError>(
            match v {
                Some(x) => if x.vtype == RegType::REG_DWORD && x.bytes@.len() == 4 {
                    Some(le_value(x.bytes@) as u32)
                } else {
                    None
                },
                None => None,
            },
        ),
{
    match read {
        Err(e) => Err(e),
        Ok(Some(v)) => {
            if v.vtype == RegType::REG_DWORD && v.bytes.len() == 4 {
                let x = crate::registry::dword_from_le(v.bytes.as_slice());
                Ok(Some(x))
            } else {
                Ok(None)
            }
        },
        Ok(None) => Ok(None),
    }
}

/// The message shown when Windows refused a service change.
pub open spec fn service_error_message(service: Seq<char>, err: Seq<char>) -> Seq<char> {
    if seq_contains(err, "1060"@) || seq_contains(lowercase_of(err), "does not exist"@) {
        "The service \""@ + service + "\" is not installed on this system."@
    } else if seq_contains(err, "5"@) {
        "Administrator permission is required to change this service. Approve the permission prompt and try again."@
    } else {
        "Windows refused to change the service \""@ + service + "\"."@
    }
}

/// The error for a refused service change, chosen from what the helper wrote
/// to standard error.
pub fn service_change_error(service: &str, out: &Output) -> (e: ZenouError)
    ensures
        error_is(e, "command"@, service_error_message(service@, out_stderr(*out)), Some(out_combined(*out))),
{
    let err = out.stderr_str();
    let ev = chars_of(err.as_str());
    let lower = to_lowercase(err.as_str());
    let lv = chars_of(lower.as_str());
    let friendly = if contains_str(ev.as_slice(), "1060") || contains_str(lv.as_slice(), "does not exist") {
        concat3("The service \"", service, "\" is not installed on this system.")
    } else if contains_str(ev.as_slice(), "5") {
        owned(
            "Administrator permission is required to change this service. Approve the permission prompt and try again.",
        )
    } else {
        concat3("Windows refused to change the service \"", service, "\".")
    };
    ZenouError::command(friendly, Some(out.combined()))
}

/// The command that sets a service's start type.
pub fn set_service_start_command(service: &str, start: ServiceStart) -> (c: Command)
    ensures
        command_is(c, "net.exe"@, seq!["config"@, service@, "start="@, start_arg(start)]),
{
    let mut args: Vec<String> = Vec::new();
    assert(views(args@) =~= Seq::<Seq<char>>::empty());
    push_owned(&mut args, "config");
    push_owned(&mut args, service);
    push_owned(&mut args, "start=");
    push_owned(&mut args, start.arg());
    assert(views(args@) =~= seq!["config"@, service@, "start="@, start_arg(start)]);
    Command { program: owned("net.exe"), args }
}

/// The outcome of a service start-type change, from the helper's report.
pub fn set_service_start(service: &str, out: &Output) -> (r: Result<(), ZenouError>)
    ensures
        out.exit_code == 0 ==> r is Ok,
        out.exit_code != 0 ==> (r matches Err(e) && error_is(
            e,
            "command"@,
            service_error_message(service@, out_stderr(*out)),
            Some(out_combined(*out)),
        )),
{
    if out.exit_code != 0 {
        return Err(service_change_error(service, out));
    }
    Ok(())
}

/// The command that stops a service now.
pub fn stop_service_command(service: &str) -> (c: Command)
    ensures
        command_is(c, "net.exe"@, seq!["stop"@, service@, "/y"@]),
{
    let mut args: Vec<String> = Vec::new();
    assert(views(args@) =~= Seq::<Seq<char>>::empty());
    push_owned(&mut args, "stop");
    push_owned(&mut args, service);
    push_owned(&mut args, "/y");
    assert(views(args@) =~= seq!["stop"@, service@, "/y"@]);
    Command { program: owned("net.exe"), args }
}

/// The command that starts a service now.
pub fn start_service_command(service: &str) -> (c: Command)
    ensures
        command_is(c, "net.exe"@, seq!["start"@, service@]),
{
    let mut args: Vec<String> = Vec::new();
    assert(views(args@) =~= Seq::<Seq<char>>::empty());
    push_owned(&mut args, "start");
    push_owned(&mut args, service);
    assert(views(args@) =~= seq!["start"@, service@]);
    Command { program: owned("net.exe"), args }
}

/// Stopping a service fails only when the helper failed for another reason
/// than the service not running.
pub fn stop_service_now(service: &str, out: &Output) -> (r: Result<(), ZenouError>)
    ensures
        ({
            let low = lowercase_of(out_stderr(*out));
            if out.exit_code != 0 && !seq_contains(low, "not started"@) && !seq_contains(low, "has not been started"@) {
                r matches Err(e) && error_is(
                    e,
                    "command"@,
                    service_error_message(service@, out_stderr(*out)),
                    Some(out_combined(*out)),
                )
            } else {
                r is Ok
            }
        }),
{
    let err = out.stderr_str();
    let lower = to_lowercase(err.as_str());
    let lv = chars_of(lower.as_str());
    if out.exit_code != 0 && !contains_str(lv.as_slice(), "not started") && !contains_str(
        lv.as_slice(),
        "has not been started",
    ) {
        return Err(service_change_error(service, out));
    }
    Ok(())
}

/// Starting a service fails only when the helper failed for another reason
/// than the service already running.
pub fn start_service_now(service: &str, out: &Output) -> (r: Result<(), ZenouError>)
    ensures
        if out.exit_code != 0 && !seq_contains(lowercase_of(out_stderr(*out)), "already"@) {
            r matches Err(e) && error_is(
                e,
                "command"@,
                service_error_message(service@, out_stderr(*out)),
                Some(out_combined(*out)),
            )
        } else {
            r is Ok
        },
{
    let err = out.stderr_str();
    let lower = to_lowercase(err.as_str());
    let lv = chars_of(lower.as_str());
    if out.exit_code != 0 && !contains_str(lv.as_slice(), "already") {
        return Err(service_change_error(service, out));
    }
    Ok(())
}


// ---------------------------------------------------------------- scheduled tasks

/// The command that enables or disables a scheduled task.
pub fn set_task_enabled_command(task_path: &str, enabled: bool) -> (c: Command)
    ensures
        command_is(
            c,
            "schtasks.exe"@,
            seq!["/Change"@, "/TN"@, task_path@, if enabled { "/ENABLE"@ } else { "/DISABLE"@ }],
        ),
{
    let mut args: Vec<String> = Vec::new();
    assert(views(args@) =~= Seq::<Seq<char>>::empty());
    push_owned(&mut args, "/Change");
    push_owned(&mut args, "/TN");
    push_owned(&mut args, task_path);
    push_owned(&mut args, if enabled { "/ENABLE" } else { "/DISABLE" });
    assert(views(args@) =~= seq![
        "/Change"@,
        "/TN"@,
        task_path@,
        if enabled { "/ENABLE"@ } else { "/DISABLE"@ },
    ]);
    Command { program: owned("schtasks.exe"), args }
}

/// The report says the task does not exist.
pub open spec fn task_absent_report(err: Seq<char>) -> bool {
    seq_contains(lowercase_of(err), "does not exist"@) || seq_contains(err, "ERROR: The system cannot find"@)
}

/// The outcome of enabling or disabling a task: a task missing from the
/// system fails with the code `task-absent`.
pub fn set_task_enabled(task_path: &str, out: &Output) -> (r: Result<(), ZenouError>)
    ensures
        out.exit_code == 0 ==> r is Ok,
        out.exit_code != 0 && task_absent_report(out_stderr(*out)) ==> (r matches Err(e) && error_is(
            e,
            "task-absent"@,
            "The scheduled task \""@ + task_path@ + "\" is not present on this system."@,
            Some(out_combined(*out)),
        )),
        out.exit_code != 0 && !task_absent_report(out_stderr(*out)) ==> (r matches Err(e) && error_is(
            e,
            "command"@,
            "Windows refused to change the scheduled task \""@ + task_path@ + "\"."@,
            Some(out_combined(*out)),
        )),
{
    if out.exit_code != 0 {
        let err = out.stderr_str();
        let ev = chars_of(err.as_str());
        let lower = to_lowercase(err.as_str());
        let lv = chars_of(lower.as_str());
        if contains_str(lv.as_slice(), "does not exist") || contains_str(ev.as_slice(), "ERROR: The system cannot find") {
            return Err(ZenouError::new(
                "task-absent",
                concat3("The scheduled task \"", task_path, "\" is not present on this system."),
                Some(out.combined()),
            ));
        }
        return Err(ZenouError::command(
            concat3("Windows refused to change the scheduled task \"", task_path, "\"."),
            Some(out.combined()),
        ));
    }
    Ok(())
}

/// The command that asks whether a task exists.
pub fn task_query_command(task_path: &str) -> (c: Command)
    ensures
        command_is(c, "schtasks.exe"@, seq!["/Query"@, "/TN"@, task_path@]),
{
    let mut args: Vec<String> = Vec::new();
    assert(views(args@) =~= Seq::<Seq<char>>::empty());
    push_owned(&mut args, "/Query");
    push_owned(&mut args, "/TN");
    push_owned(&mut args, task_path);
    assert(views(args@) =~= seq!["/Query"@, "/TN"@, task_path@]);
    Command { program: owned("schtasks.exe"), args }
}

/// A task exists when its query ran and exited with 0.
pub fn task_exists(run: &Result<Output, ZenouError>) -> (r: bool)
    ensures
        r == (run matches Ok(o) && o.exit_code == 0),
{
    match run {
        Ok(o) => o.exit_code == 0,
        Err(_) => false,
    }
}

/// The command that reads a task's details.
pub fn task_state_command(task_path: &str) -> (c: Command)
    ensures
        command_is(c, "schtasks.exe"@, seq!["/Query"@, "/TN"@, task_path@, "/FO"@, "LIST"@, "/V"@]),
{
    let mut args: Vec<String> = Vec::new();
    assert(views(args@) =~= Seq::<Seq<char>>::empty());
    push_owned(&mut args, "/Query");
    push_owned(&mut args, "/TN");
    push_owned(&mut args, task_path);
    push_owned(&mut args, "/FO");
    push_owned(&mut args, "LIST");
    push_owned(&mut args, "/V");
    assert(views(args@) =~= seq!["/Query"@, "/TN"@, task_path@, "/FO"@, "LIST"@, "/V"@]);
    Command { program: owned("schtasks.exe"), args }
}

/// The first line containing `pat`.
pub open spec fn first_line_with(ls: Seq<Seq<char>>, pat: Seq<char>) -> Option<Seq<char>>
    decreases ls.len(),
{
    if ls.len() == 0 {
        None
    } else if seq_contains(ls[0], pat) {
        Some(ls[0])
    } else {
        first_line_with(ls.drop_first(), pat)
    }
}

/// The first line of `ls` that contains `pat`.
fn find_line(ls: &Vec<Vec<char>>, pat: &str) -> (r: Option<usize>)
    ensures
        match r {
            Some(i) => i < ls@.len() && first_line_with(ls@.map_values(|l: Vec<char>| l@), pat@) == Some(
                ls@[i as int]@,
            ),
            None => first_line_with(ls@.map_values(|l: Vec<char>| l@), pat@) is None,
        },
{
    let ghost all = ls@.map_values(|l: Vec<char>| l@);
    let mut i: usize = 0;
    assert(all.subrange(0, all.len() as int) =~= all);
    while i < ls.len()
        invariant
            all == ls@.map_values(|l: Vec<char>| l@),
            i <= ls@.len(),
            first_line_with(all, pat@) == first_line_with(all.subrange(i as int, all.len() as int), pat@),
        decreases ls.len() - i,
    {
        let ghost rest = all.subrange(i as int, all.len() as int);
        assert(rest[0] == ls@[i as int]@);
        if contains_str(ls[i].as_slice(), pat) {
            return Some(i);
        }
        assert(rest.drop_first() =~= all.subrange(i + 1, all.len() as int));
        i = i + 1;
    }
    None
}

/// The state a `schtasks /Query /V` report gives for an existing task:
/// enabled when its "Scheduled Task State" line says so, nothing when the
/// report has no such line.
pub open spec fn task_state_spec(report: Seq<char>) -> Option<bool> {
    match first_line_with(crate::text::lines(report), "Scheduled Task State"@) {
        Some(l) => Some(seq_contains(lowercase_of(l), "enabled"@)),
        None => None,
    }
}

/// The state of an existing task from its detailed query: a failed query
/// is an error.
pub fn task_state(task_path: &str, out: &Output) -> (r: Result<Option<bool>, ZenouError>)
    ensures
        out.exit_code != 0 ==> (r matches Err(e) && error_is(
            e,
            "command"@,
            "Could not read the state of scheduled task \""@ + task_path@ + "\"."@,
            Some(out_combined(*out)),
        )),
        out.exit_code == 0 ==> r == Ok::<Option<bool>, ZenouError>(task_state_spec(out_stdout(*out))),
{
    if out.exit_code != 0 {
        return Err(ZenouError::command(
            concat3("Could not read the state of scheduled task \"", task_path, "\"."),
            Some(out.combined()),
        ));
    }
    let text = out.stdout_str();
    let tv = chars_of(text.as_str());
    let ls = crate::text::lines_of(tv.as_slice());
    proof {
        assert(ls@.map_values(|l: Vec<char>| l@) =~= crate::text::lines(tv@));
    }
    match find_line(&ls, "Scheduled Task State") {
        Some(i) => {
            let line = crate::text::string_of(ls[i].as_slice());
            let low = to_lowercase(line.as_str());
            let lv = chars_of(low.as_str());
            Ok(Some(contains_str(lv.as_slice(), "enabled")))
        },
        None => Ok(None),
    }
}

/// A task's full path: with a leading backslash.
pub open spec fn full_task_name(t: Seq<char>) -> Seq<char> {
    if t.len() > 0 && t[0] == '\\' {
        t
    } else {
        seq!['\\'] + t
    }
}

/// The full path of a task as the snapshot lists it.
pub fn task_full_name(task_path: &str) -> (r: String)
    ensures
        r@ == full_task_name(task_path@),
{
    let v = chars_of(task_path);
    if v.len() > 0 && v[0] == '\\' {
        owned(task_path)
    } else {
        let mut r = owned("\\");
        proof {
            reveal_strlit("\\");
        }
        push_str(&mut r, task_path);
        assert(r@ =~= seq!['\\'] + task_path@);
        r
    }
}


/// One scheduled task from the snapshot.
pub struct TaskEntry {
    /// Task path and name (leading backslash included).
    pub name: String,
    pub disabled: bool,
}

/// The name and state of each entry.
pub open spec fn entry_views(v: Seq<TaskEntry>) -> Seq<(Seq<char>, bool)> {
    v.map_values(|e: TaskEntry| (e.name@, e.disabled))
}

/// The entry a snapshot line describes: the line, trimmed and without
/// trailing NULs, split at its last `|` into the task and its state (a task
/// is disabled when the state is "Disabled" in any ASCII case); a line with
/// no `|` describes nothing.
pub open spec fn task_line(l: Seq<char>) -> Option<(Seq<char>, bool)> {
    let t = crate::text::trim_end_char(crate::text::trim(l), '\0');
    if exists|i: int| crate::text::last_char_at(t, '|', i) {
        let i = choose|i: int| crate::text::last_char_at(t, '|', i);
        Some((t.subrange(0, i), lower_seq(t.subrange(i + 1, t.len() as int)) == lower_seq("Disabled"@)))
    } else {
        None
    }
}

/// The entries described by the lines `ls`, in order.
pub open spec fn task_entries(ls: Seq<Seq<char>>) -> Seq<(Seq<char>, bool)>
    decreases ls.len(),
{
    if ls.len() == 0 {
        Seq::empty()
    } else {
        let p = task_entries(ls.drop_last());
        match task_line(ls.last()) {
            Some(e) => p.push(e),
            None => p,
        }
    }
}

proof fn lemma_last_char_unique(h: Seq<char>, c: char, i: int, j: int)
    requires
        crate::text::last_char_at(h, c, i),
        crate::text::last_char_at(h, c, j),
    ensures
        i == j,
{
}

/// Parses the `TaskPath+TaskName|State` lines of a task listing.
pub fn parse_task_snapshot(text: &[char]) -> (r: Vec<TaskEntry>)
    ensures
        entry_views(r@) == task_entries(crate::text::lines(text@)),
{
    let ls = crate::text::lines_of(text);
    let ghost all = crate::text::lines(text@);
    let mut out: Vec<TaskEntry> = Vec::new();
    let mut i: usize = 0;
    assert(all.subrange(0, 0) =~= Seq::<Seq<char>>::empty());
    while i < ls.len()
        invariant
            crate::text::views_eq(ls@, all),
            i <= ls@.len(),
            entry_views(out@) == task_entries(all.subrange(0, i as int)),
        decreases ls.len() - i,
    {
        let t0 = crate::text::trim_chars(ls[i].as_slice());
        let t = crate::text::trim_end_matches(t0.as_slice(), '\0');
        let ghost pre = all.subrange(0, i as int);
        assert(all.subrange(0, i + 1).drop_last() =~= pre);
        assert(all.subrange(0, i + 1).last() == ls@[i as int]@);
        match crate::text::rfind_char(t.as_slice(), '|') {
            Some(k) => {
                let n = t.len();
                assert(k < n);
                let name = crate::text::slice_range(t.as_slice(), 0, k);
                let state = crate::text::slice_range(t.as_slice(), k + 1, n);
                let disabled = crate::text::eq_ignore_ascii_case(state.as_slice(), "Disabled");
                let e = TaskEntry { name: crate::text::string_of(name.as_slice()), disabled };
                proof {
                    let j = choose|j: int| crate::text::last_char_at(t@, '|', j);
                    lemma_last_char_unique(t@, '|', k as int, j);
                }
                out.push(e);
                assert(entry_views(out@) =~= task_entries(pre).push(
                    (name@, disabled),
                ));
            },
            None => {
                assert(!exists|j: int| crate::text::last_char_at(t@, '|', j));
            },
        }
        i = i + 1;
    }
    assert(all.subrange(0, ls@.len() as int) =~= all);
    out
}

/// The PowerShell listing of every scheduled task and its state.
pub fn task_snapshot_command() -> (c: Command)
    ensures
        command_is(
            c,
            "powershell.exe"@,
            seq![
                "-NoProfile"@,
                "-NonInteractive"@,
                "-ExecutionPolicy"@,
                "Bypass"@,
                "-Command"@,
                "Get-ScheduledTask | ForEach-Object { \"$($_.TaskPath)$($_.TaskName)|$($_.State)\" }"@,
            ],
        ),
{
    crate::winapi::run_powershell(
        "Get-ScheduledTask | ForEach-Object { \"$($_.TaskPath)$($_.TaskName)|$($_.State)\" }",
    )
}

/// Every task and its state, from the listing: nothing when the listing
/// could not be run or failed.
pub fn task_snapshot(run: &Result<Output, ZenouError>) -> (r: Option<Vec<TaskEntry>>)
    ensures
        match run {
            Ok(o) => if o.exit_code == 0 {
                r matches Some(v) && entry_views(v@) == task_entries(crate::text::lines(out_stdout(*o)))
            } else {
                r is None
            },
            Err(_) => r is None,
        },
{
    match run {
        Ok(o) => {
            if o.exit_code != 0 {
                return None;
            }
            let text = o.stdout_str();
            let tv = chars_of(text.as_str());
            Some(parse_task_snapshot(tv.as_slice()))
        },
        Err(_) => None,
    }
}

/// The names of the disabled entries, in order.
pub open spec fn disabled_names(es: Seq<(Seq<char>, bool)>) -> Seq<Seq<char>>
    decreases es.len(),
{
    if es.len() == 0 {
        Seq::empty()
    } else {
        let p = disabled_names(es.drop_last());
        if es.last().1 {
            p.push(es.last().0)
        } else {
            p
        }
    }
}

/// Names of every disabled task; nothing when the snapshot is unavailable.
pub fn disabled_tasks_snapshot(snapshot: &Option<Vec<TaskEntry>>) -> (r: Option<Vec<String>>)
    ensures
        match snapshot {
            Some(v) => r matches Some(names) && views(names@) == disabled_names(entry_views(v@)),
            None => r is None,
        },
{
    match snapshot {
        None => None,
        Some(v) => {
            let ghost ev = entry_views(v@);
            let mut names: Vec<String> = Vec::new();
            let mut i: usize = 0;
            assert(ev.subrange(0, 0) =~= Seq::<(Seq<char>, bool)>::empty());
            while i < v.len()
                invariant
                    ev == entry_views(v@),
                    i <= v@.len(),
                    views(names@) == disabled_names(ev.subrange(0, i as int)),
                decreases v.len() - i,
            {
                assert(ev.subrange(0, i + 1).drop_last() =~= ev.subrange(0, i as int));
                if v[i].disabled {
                    names.push(v[i].name.clone());
                    assert(views(names@) =~= disabled_names(ev.subrange(0, i as int)).push(v@[i as int].name@));
                }
                i = i + 1;
            }
            assert(ev.subrange(0, v@.len() as int) =~= ev);
            Some(names)
        },
    }
}

/// Whether a task is listed in the snapshot; nothing when it is unavailable.
pub fn task_present(task_path: &str, snapshot: &Option<Vec<TaskEntry>>) -> (r: Option<bool>)
    ensures
        match snapshot {
            Some(v) => r is Some && (r->0 <==> exists|i: int|
                0 <= i < v@.len() && (#[trigger] v@[i]).name@ == full_task_name(task_path@)),
            None => r is None,
        },
{
    match snapshot {
        None => None,
        Some(v) => {
            let full = task_full_name(task_path);
            let mut found = false;
            let mut i: usize = 0;
            while i < v.len()
                invariant
                    full@ == full_task_name(task_path@),
                    i <= v@.len(),
                    found <==> exists|j: int| 0 <= j < i && (#[trigger] v@[j]).name@ == full@,
                decreases v.len() - i,
            {
                if crate::text::str_eq(v[i].name.as_str(), full.as_str()) {
                    found = true;
                }
                i = i + 1;
            }
            Some(found)
        },
    }
}


// ---------------------------------------------------------------- power configuration

/// The views of string slices.
pub open spec fn str_views(v: Seq<&str>) -> Seq<Seq<char>> {
    v.map_values(|a: &str| a@)
}

/// The `powercfg` invocation with fixed arguments.
pub fn powercfg_command(args: &[&str]) -> (c: Command)
    ensures
        command_is(c, "powercfg.exe"@, str_views(args@)),
{
    let mut v: Vec<String> = Vec::new();
    let mut i: usize = 0;
    assert(str_views(args@).subrange(0, 0) =~= Seq::<Seq<char>>::empty());
    while i < args.len()
        invariant
            i <= args@.len(),
            views(v@) == str_views(args@).subrange(0, i as int),
        decreases args.len() - i,
    {
        push_owned(&mut v, args[i]);
        assert(str_views(args@).subrange(0, i + 1) =~= str_views(args@).subrange(0, i as int).push(args@[i as int]@));
        i = i + 1;
    }
    assert(str_views(args@).subrange(0, args@.len() as int) =~= str_views(args@));
    Command { program: owned("powercfg.exe"), args: v }
}

/// The message of a refused power configuration change.
pub open spec fn powercfg_refused() -> Seq<char> {
    "Windows (powercfg) refused the power configuration change."@
}

/// The report of a `powercfg` run: refused when it exited with a failure.
pub fn powercfg(out: Output) -> (r: Result<Output, ZenouError>)
    ensures
        out.exit_code == 0 ==> r == Ok::<Output, ZenouError>(out),
        out.exit_code != 0 ==> (r matches Err(e) && error_is(e, "command"@, powercfg_refused(), Some(out_combined(out)))),
{
    if out.exit_code != 0 {
        return Err(ZenouError::command(
            owned("Windows (powercfg) refused the power configuration change."),
            Some(out.combined()),
        ));
    }
    Ok(out)
}

proof fn lemma_first_unique(h: Seq<char>, n: Seq<char>, i: int, j: int)
    requires
        crate::text::first_occurrence(h, n, i),
        crate::text::first_occurrence(h, n, j),
    ensures
        i == j,
{
    if i < j {
        assert(!crate::text::occurs_at(h, n, i));
    } else if j < i {
        assert(!crate::text::occurs_at(h, n, j));
    }
}

/// The scheme a `powercfg /list` line describes ("... GUID: <guid>  (<name>)"):
/// the first word after "GUID" and one more character, and the text between
/// the last `(` and the last `)` when the `)` comes after it.
pub open spec fn scheme_line(l: Seq<char>) -> Option<(Seq<char>, Seq<char>)> {
    if exists|i: int| crate::text::first_occurrence(l, "GUID"@, i) {
        let i = choose|i: int| crate::text::first_occurrence(l, "GUID"@, i);
        if i + 5 <= l.len() && (exists|o: int| crate::text::last_char_at(l, '(', o)) && (exists|c: int|
            crate::text::last_char_at(l, ')', c)) {
            let o = choose|o: int| crate::text::last_char_at(l, '(', o);
            let c = choose|c: int| crate::text::last_char_at(l, ')', c);
            if c > o {
                Some((crate::text::first_token(l.subrange(i + 5, l.len() as int)), l.subrange(o + 1, c)))
            } else {
                None
            }
        } else {
            None
        }
    } else {
        None
    }
}

/// The schemes described by the lines `ls`, in order.
pub open spec fn schemes_of(ls: Seq<Seq<char>>) -> Seq<(Seq<char>, Seq<char>)>
    decreases ls.len(),
{
    if ls.len() == 0 {
        Seq::empty()
    } else {
        let p = schemes_of(ls.drop_last());
        match scheme_line(ls.last()) {
            Some(e) => p.push(e),
            None => p,
        }
    }
}

/// The views of (guid, name) pairs.
pub open spec fn pair_views(v: Seq<(String, String)>) -> Seq<(Seq<char>, Seq<char>)> {
    v.map_values(|p: (String, String)| (p.0@, p.1@))
}

fn scheme_of_line(l: &[char]) -> (r: Option<(String, String)>)
    ensures
        match r {
            Some(p) => scheme_line(l@) == Some((p.0@, p.1@)),
            None => scheme_line(l@) is None,
        },
{
    let guid_v = chars_of("GUID");
    match crate::text::find_seq(l, guid_v.as_slice()) {
        None => None,
        Some(idx) => {
            proof {
                let j = choose|j: int| crate::text::first_occurrence(l@, "GUID"@, j);
                lemma_first_unique(l@, "GUID"@, idx as int, j);
            }
            let n = l.len();
            if idx > n || n - idx < 5 {
                return None;
            }
            let open = crate::text::rfind_char(l, '(');
            let close = crate::text::rfind_char(l, ')');
            match (open, close) {
                (Some(o), Some(c)) => {
                    proof {
                        let o2 = choose|x: int| crate::text::last_char_at(l@, '(', x);
                        lemma_last_char_unique(l@, '(', o as int, o2);
                        let c2 = choose|x: int| crate::text::last_char_at(l@, ')', x);
                        lemma_last_char_unique(l@, ')', c as int, c2);
                    }
                    if c > o {
                        let rest = crate::text::slice_range(l, idx + 5, n);
                        let guid = crate::text::first_word(rest.as_slice());
                        let name = crate::text::slice_range(l, o + 1, c);
                        Some((crate::text::string_of(guid.as_slice()), crate::text::string_of(name.as_slice())))
                    } else {
                        None
                    }
                },
                (None, _) => {
                    assert(!exists|x: int| crate::text::last_char_at(l@, '(', x));
                    None
                },
                (_, None) => {
                    assert(!exists|x: int| crate::text::last_char_at(l@, ')', x));
                    None
                },
            }
        },
    }
}

/// Parses the schemes of a `powercfg /list` report as (guid, name) pairs.
pub fn parse_power_schemes(text: &[char]) -> (r: Vec<(String, String)>)
    ensures
        pair_views(r@) == schemes_of(crate::text::lines(text@)),
{
    let ls = crate::text::lines_of(text);
    let ghost all = crate::text::lines(text@);
    let mut out: Vec<(String, String)> = Vec::new();
    let mut i: usize = 0;
    assert(all.subrange(0, 0) =~= Seq::<Seq<char>>::empty());
    while i < ls.len()
        invariant
            crate::text::views_eq(ls@, all),
            i <= ls@.len(),
            pair_views(out@) == schemes_of(all.subrange(0, i as int)),
        decreases ls.len() - i,
    {
        assert(all.subrange(0, i + 1).drop_last() =~= all.subrange(0, i as int));
        assert(all.subrange(0, i + 1).last() == ls@[i as int]@);
        match scheme_of_line(ls[i].as_slice()) {
            Some(p) => {
                let ghost pv = (p.0@, p.1@);
                out.push(p);
                assert(pair_views(out@) =~= schemes_of(all.subrange(0, i as int)).push(pv));
            },
            None => {},
        }
        i = i + 1;
    }
    assert(all.subrange(0, ls@.len() as int) =~= all);
    out
}

/// The schemes listed by a `powercfg /list` report, as (guid, name) pairs.
pub fn list_power_schemes(out: Output) -> (r: Result<Vec<(String, String)>, ZenouError>)
    ensures
        out.exit_code == 0 ==> (r matches Ok(v) && pair_views(v@) == schemes_of(crate::text::lines(out_stdout(out)))),
        out.exit_code != 0 ==> (r matches Err(e) && error_is(e, "command"@, powercfg_refused(), Some(out_combined(out)))),
{
    let o = powercfg(out)?;
    let text = o.stdout_str();
    let tv = chars_of(text.as_str());
    Ok(parse_power_schemes(tv.as_slice()))
}

/// The guid of the first scheme of `after` whose guid is not among `before`.
pub open spec fn first_new_guid(after: Seq<(Seq<char>, Seq<char>)>, before: Seq<(Seq<char>, Seq<char>)>) -> Option<Seq<char>>
    decreases after.len(),
{
    if after.len() == 0 {
        None
    } else if forall|j: int| 0 <= j < before.len() ==> (#[trigger] before[j]).0 != after[0].0 {
        Some(after[0].0)
    } else {
        first_new_guid(after.drop_first(), before)
    }
}

/// The guid of a duplicated scheme, found by comparing the scheme lists
/// before and after the duplication.
pub fn duplicate_scheme(before: &Vec<(String, String)>, after: &Vec<(String, String)>) -> (r: Result<String, ZenouError>)
    ensures
        match first_new_guid(pair_views(after@), pair_views(before@)) {
            Some(g) => r matches Ok(x) && x@ == g,
            None => r matches Err(e) && error_is(
                e,
                "state"@,
                "The power plan was created but could not be identified."@,
                None,
            ),
        },
{
    let ghost av = pair_views(after@);
    let ghost bv = pair_views(before@);
    let mut i: usize = 0;
    assert(av.subrange(0, av.len() as int) =~= av);
    while i < after.len()
        invariant
            av == pair_views(after@),
            bv == pair_views(before@),
            i <= after@.len(),
            first_new_guid(av, bv) == first_new_guid(av.subrange(i as int, av.len() as int), bv),
        decreases after.len() - i,
    {
        let ghost rest = av.subrange(i as int, av.len() as int);
        let mut seen = false;
        let mut j: usize = 0;
        while j < before.len()
            invariant
                bv == pair_views(before@),
                av == pair_views(after@),
                i < after@.len(),
                j <= before@.len(),
                seen <==> exists|k: int| 0 <= k < j && (#[trigger] bv[k]).0 == av[i as int].0,
            decreases before.len() - j,
        {
            assert(bv[j as int].0 == before@[j as int].0@);
            assert(av[i as int].0 == after@[i as int].0@);
            if crate::text::str_eq(before[j].0.as_str(), after[i].0.as_str()) {
                seen = true;
            }
            j = j + 1;
        }
        assert(rest[0] == av[i as int]);
        if !seen {
            return Ok(after[i].0.clone());
        }
        assert(rest.drop_first() =~= av.subrange(i + 1, av.len() as int));
        i = i + 1;
    }
    Err(ZenouError::state(owned("The power plan was created but could not be identified.")))
}

/// The `powercfg` arguments that duplicate a scheme.
pub fn duplicate_scheme_command(source_guid: &str) -> (c: Command)
    ensures
        command_is(c, "powercfg.exe"@, seq!["-duplicatescheme"@, source_guid@]),
{
    let mut args: Vec<String> = Vec::new();
    assert(views(args@) =~= Seq::<Seq<char>>::empty());
    push_owned(&mut args, "-duplicatescheme");
    push_owned(&mut args, source_guid);
    assert(views(args@) =~= seq!["-duplicatescheme"@, source_guid@]);
    Command { program: owned("powercfg.exe"), args }
}

/// The `powercfg` arguments that make a scheme active.
pub fn set_active_scheme(guid: &str) -> (c: Command)
    ensures
        command_is(c, "powercfg.exe"@, seq!["-setactive"@, guid@]),
{
    let mut args: Vec<String> = Vec::new();
    assert(views(args@) =~= Seq::<Seq<char>>::empty());
    push_owned(&mut args, "-setactive");
    push_owned(&mut args, guid);
    assert(views(args@) =~= seq!["-setactive"@, guid@]);
    Command { program: owned("powercfg.exe"), args }
}

/// The `powercfg` arguments that delete a scheme.
pub fn delete_scheme(guid: &str) -> (c: Command)
    ensures
        command_is(c, "powercfg.exe"@, seq!["-delete"@, guid@]),
{
    let mut args: Vec<String> = Vec::new();
    assert(views(args@) =~= Seq::<Seq<char>>::empty());
    push_owned(&mut args, "-delete");
    push_owned(&mut args, guid);
    assert(views(args@) =~= seq!["-delete"@, guid@]);
    Command { program: owned("powercfg.exe"), args }
}

/// The active scheme a `powercfg /getactivescheme` report names: the first
/// word after "GUID:" on the first line mentioning "GUID".
pub open spec fn active_scheme_spec(report: Seq<char>) -> Option<Seq<char>> {
    match first_line_with(crate::text::lines(report), "GUID"@) {
        Some(l) => if exists|i: int| crate::text::first_occurrence(l, "GUID:"@, i) {
            let i = choose|i: int| crate::text::first_occurrence(l, "GUID:"@, i);
            let w = crate::text::first_token(l.subrange(i + 5, l.len() as int));
            if w.len() > 0 {
                Some(w)
            } else {
                None
            }
        } else {
            None
        },
        None => None,
    }
}

/// The active scheme's guid, from a `powercfg /getactivescheme` report.
pub fn active_scheme(out: Output) -> (r: Result<Option<String>, ZenouError>)
    ensures
        out.exit_code == 0 ==> (r matches Ok(g) && crate::text::opt_view(g) == active_scheme_spec(out_stdout(out))),
        out.exit_code != 0 ==> (r matches Err(e) && error_is(e, "command"@, powercfg_refused(), Some(out_combined(out)))),
{
    let o = match powercfg(out) {
        Ok(o) => o,
        Err(e) => {
            return Err(e);
        },
    };
    let text = o.stdout_str();
    let tv = chars_of(text.as_str());
    let ls = crate::text::lines_of(tv.as_slice());
    proof {
        assert(ls@.map_values(|l: Vec<char>| l@) =~= crate::text::lines(tv@));
    }
    assert(o == out);
    match find_line(&ls, "GUID") {
        None => {
            assert(active_scheme_spec(out_stdout(out)) is None);
            Ok(None)
        },
        Some(k) => {
            let l = &ls[k];
            let pat = chars_of("GUID:");
            match crate::text::find_seq(l.as_slice(), pat.as_slice()) {
                None => {
                    assert(active_scheme_spec(out_stdout(out)) is None);
                    Ok(None)
                },
                Some(idx) => {
                    proof {
                        reveal_strlit("GUID:");
                        let j = choose|j: int| crate::text::first_occurrence(l@, "GUID:"@, j);
                        lemma_first_unique(l@, "GUID:"@, idx as int, j);
                    }
                    let n = l.len();
                    assert(idx + 5 <= n);
                    let rest = crate::text::slice_range(l.as_slice(), idx + 5, n);
                    let w = crate::text::first_word(rest.as_slice());
                    assert(first_line_with(crate::text::lines(out_stdout(out)), "GUID"@) == Some(l@));
                    assert(crate::text::first_occurrence(l@, "GUID:"@, idx as int));
                    assert(w@ == crate::text::first_token(l@.subrange(idx + 5, l@.len() as int)));
                    assert((choose|i: int| crate::text::first_occurrence(l@, "GUID:"@, i)) == idx);
                    if w.len() > 0 {
                        assert(active_scheme_spec(out_stdout(out)) == Some(w@));
                        Ok(Some(crate::text::string_of(w.as_slice())))
                    } else {
                        Ok(None)
                    }
                },
            }
        },
    }
}


// ---------------------------------------------------------------- file system, network, memory

/// The `fsutil behavior set` invocation.
pub fn fsutil_set_command(operation: &str, value: &str) -> (c: Command)
    ensures
        command_is(c, "fsutil.exe"@, seq!["behavior"@, "set"@, operation@, value@]),
{
    let mut args: Vec<String> = Vec::new();
    assert(views(args@) =~= Seq::<Seq<char>>::empty());
    push_owned(&mut args, "behavior");
    push_owned(&mut args, "set");
    push_owned(&mut args, operation);
    push_owned(&mut args, value);
    assert(views(args@) =~= seq!["behavior"@, "set"@, operation@, value@]);
    Command { program: owned("fsutil.exe"), args }
}

/// The outcome of an `fsutil behavior set` run.
pub fn fsutil_set(out: &Output) -> (r: Result<(), ZenouError>)
    ensures
        checked_spec(*out, "Windows (fsutil) refused the file system configuration change."@, r),
{
    checked(out, "Windows (fsutil) refused the file system configuration change.")
}

/// The `fsutil behavior query` invocation.
pub fn fsutil_get_command(operation: &str) -> (c: Command)
    ensures
        command_is(c, "fsutil.exe"@, seq!["behavior"@, "query"@, operation@]),
{
    let mut args: Vec<String> = Vec::new();
    assert(views(args@) =~= Seq::<Seq<char>>::empty());
    push_owned(&mut args, "behavior");
    push_owned(&mut args, "query");
    push_owned(&mut args, operation);
    assert(views(args@) =~= seq!["behavior"@, "query"@, operation@]);
    Command { program: owned("fsutil.exe"), args }
}

/// What an `fsutil behavior query` printed.
pub fn fsutil_get(out: &Output) -> (r: Result<String, ZenouError>)
    ensures
        r matches Ok(t) && t@ == out_stdout(*out),
{
    Ok(out.stdout_str())
}

/// The `netsh int tcp set global` invocation.
pub fn netsh_tcp_global_command(setting: &str, value: &str) -> (c: Command)
    ensures
        command_is(c, "netsh.exe"@, seq!["int"@, "tcp"@, "set"@, "global"@, setting@, "="@, value@]),
{
    let mut args: Vec<String> = Vec::new();
    assert(views(args@) =~= Seq::<Seq<char>>::empty());
    push_owned(&mut args, "int");
    push_owned(&mut args, "tcp");
    push_owned(&mut args, "set");
    push_owned(&mut args, "global");
    push_owned(&mut args, setting);
    push_owned(&mut args, "=");
    push_owned(&mut args, value);
    assert(views(args@) =~= seq!["int"@, "tcp"@, "set"@, "global"@, setting@, "="@, value@]);
    Command { program: owned("netsh.exe"), args }
}

/// The outcome of a `netsh` TCP setting change.
pub fn netsh_tcp_global(out: &Output) -> (r: Result<(), ZenouError>)
    ensures
        checked_spec(*out, "Windows (netsh) refused the network configuration change."@, r),
{
    checked(out, "Windows (netsh) refused the network configuration change.")
}

/// The PowerShell command that turns memory compression off.
pub fn disable_memory_compression_command() -> (c: Command)
    ensures
        command_is(
            c,
            "powershell.exe"@,
            seq!["-NoProfile"@, "-NonInteractive"@, "-ExecutionPolicy"@, "Bypass"@, "-Command"@, "Disable-MMAgent -mc"@],
        ),
{
    crate::winapi::run_powershell("Disable-MMAgent -mc")
}

/// The outcome of turning memory compression off.
pub fn disable_memory_compression(out: &Output) -> (r: Result<(), ZenouError>)
    ensures
        checked_spec(*out, "Windows refused to disable memory compression."@, r),
{
    checked(out, "Windows refused to disable memory compression.")
}

/// The PowerShell command that turns memory compression on.
pub fn enable_memory_compression_command() -> (c: Command)
    ensures
        command_is(
            c,
            "powershell.exe"@,
            seq!["-NoProfile"@, "-NonInteractive"@, "-ExecutionPolicy"@, "Bypass"@, "-Command"@, "Enable-MMAgent -mc"@],
        ),
{
    crate::winapi::run_powershell("Enable-MMAgent -mc")
}

/// The outcome of turning memory compression on.
pub fn enable_memory_compression(out: &Output) -> (r: Result<(), ZenouError>)
    ensures
        checked_spec(*out, "Windows refused to enable memory compression."@, r),
{
    checked(out, "Windows refused to enable memory compression.")
}

/// The PowerShell query of the memory compression setting.
pub fn memory_compression_query() -> (c: Command)
    ensures
        command_is(
            c,
            "powershell.exe"@,
            seq![
                "-NoProfile"@,
                "-NonInteractive"@,
                "-ExecutionPolicy"@,
                "Bypass"@,
                "-Command"@,
                "(Get-MMAgent).MemoryCompression"@,
            ],
        ),
{
    crate::winapi::run_powershell("(Get-MMAgent).MemoryCompression")
}

/// Whether memory compression is on, from the query's report: nothing when
/// the query failed, otherwise whether it printed "true" (any ASCII case).
pub fn memory_compression_enabled(out: &Output) -> (r: Result<Option<bool>, ZenouError>)
    ensures
        r == Ok::<Option<bool>, ZenouError>(
            if out.exit_code != 0 {
                None
            } else {
                Some(lower_seq(crate::text::trim(out_stdout(*out))) == lower_seq("true"@))
            },
        ),
{
    if out.exit_code != 0 {
        return Ok(None);
    }
    let text = out.stdout_str();
    let tv = chars_of(text.as_str());
    let t = crate::text::trim_chars(tv.as_slice());
    Ok(Some(crate::text::eq_ignore_ascii_case(t.as_slice(), "true")))
}

/// The command that flushes the DNS resolver cache.
pub fn flush_dns_command() -> (c: Command)
    ensures
        command_is(c, "ipconfig.exe"@, seq!["/flushdns"@]),
{
    let mut args: Vec<String> = Vec::new();
    assert(views(args@) =~= Seq::<Seq<char>>::empty());
    push_owned(&mut args, "/flushdns");
    assert(views(args@) =~= seq!["/flushdns"@]);
    Command { program: owned("ipconfig.exe"), args }
}

/// The outcome of flushing the DNS cache.
pub fn flush_dns(out: &Output) -> (r: Result<(), ZenouError>)
    ensures
        checked_spec(*out, "The DNS cache could not be flushed."@, r),
{
    checked(out, "The DNS cache could not be flushed.")
}

// ---------------------------------------------------------------- laws of the listings

/// The disabled names of a snapshot are its entries flagged disabled, by
/// name, in order.
pub proof fn law_disabled_names(es: Seq<(Seq<char>, bool)>)
    ensures
        disabled_names(es) == es.filter(|e: (Seq<char>, bool)| e.1).map_values(|e: (Seq<char>, bool)| e.0),
    decreases es.len(),
{
    reveal(Seq::filter);
    if es.len() > 0 {
        law_disabled_names(es.drop_last());
        let f = es.drop_last().filter(|e: (Seq<char>, bool)| e.1);
        let g = |e: (Seq<char>, bool)| e.0;
        if es.last().1 {
            assert(f.push(es.last()).map_values(g) =~= f.map_values(g).push(g(es.last())));
        }
    }
}

/// A task listing gives one entry for each line that describes a task, in
/// line order, and nothing for the other lines.
pub proof fn law_task_entries(ls: Seq<Seq<char>>)
    ensures
        task_entries(ls) == ls.filter_map(|l: Seq<char>| task_line(l)),
    decreases ls.len(),
{
    if ls.len() > 0 {
        law_task_entries(ls.drop_last());
        let p = ls.drop_last().filter_map(|l: Seq<char>| task_line(l));
        if let Some(e) = task_line(ls.last()) {
            assert(p + seq![e] =~= p.push(e));
        }
    }
}

/// A scheme listing gives one (guid, name) pair for each line that describes
/// a scheme, in line order, and nothing for the other lines.
pub proof fn law_schemes_of(ls: Seq<Seq<char>>)
    ensures
        schemes_of(ls) == ls.filter_map(|l: Seq<char>| scheme_line(l)),
    decreases ls.len(),
{
    if ls.len() > 0 {
        law_schemes_of(ls.drop_last());
        let p = ls.drop_last().filter_map(|l: Seq<char>| scheme_line(l));
        if let Some(e) = scheme_line(ls.last()) {
            assert(p + seq![e] =~= p.push(e));
        }
    }
}

/// The guid of a duplicated scheme is that of the first scheme after the
/// duplication whose guid was not listed before; there is none exactly when
/// every guid listed after was listed before.
pub proof fn law_first_new_guid(after: Seq<(Seq<char>, Seq<char>)>, before: Seq<(Seq<char>, Seq<char>)>)
    ensures
        first_new_guid(after, before) is None <==> forall|i: int|
            0 <= i < after.len() ==> exists|j: int| 0 <= j < before.len() && (#[trigger] before[j]).0 == (
            #[trigger] after[i]).0,
        first_new_guid(after, before) matches Some(g) ==> exists|i: int|
            0 <= i < after.len() && (#[trigger] after[i]).0 == g && (forall|j: int|
                0 <= j < before.len() ==> (#[trigger] before[j]).0 != g) && forall|k: int|
                0 <= k < i ==> exists|j: int| 0 <= j < before.len() && (#[trigger] before[j]).0 == (
                #[trigger] after[k]).0,
    decreases after.len(),
{
    if after.len() > 0 {
        let rest = after.drop_first();
        law_first_new_guid(rest, before);
        assert forall|i: int| 0 <= i < rest.len() implies #[trigger] rest[i] == after[i + 1] by {}
        if forall|j: int| 0 <= j < before.len() ==> (#[trigger] before[j]).0 != after[0].0 {
            assert(first_new_guid(after, before) == Some(after[0].0));
        } else {
            let j0 = choose|j: int| 0 <= j < before.len() && !((#[trigger] before[j]).0 != after[0].0);
            assert(first_new_guid(after, before) == first_new_guid(rest, before));
            if forall|i: int|
                0 <= i < rest.len() ==> exists|j: int| 0 <= j < before.len() && (#[trigger] before[j]).0 == (
                #[trigger] rest[i]).0 {
                assert forall|i: int| 0 <= i < after.len() implies exists|j: int|
                    0 <= j < before.len() && (#[trigger] before[j]).0 == (#[trigger] after[i]).0 by {
                    if i == 0 {
                        assert(before[j0].0 == after[0].0);
                    } else {
                        assert(rest[i - 1] == after[i]);
                    }
                }
            } else {
                let i = choose|i: int|
                    0 <= i < rest.len() && !(exists|j: int| 0 <= j < before.len() && (#[trigger] before[j]).0 == (
                    #[trigger] rest[i]).0);
                assert(rest[i] == after[i + 1]);
            }
            if first_new_guid(rest, before) is Some {
                let g = first_new_guid(rest, before)->0;
                let i = choose|i: int|
                    0 <= i < rest.len() && (#[trigger] rest[i]).0 == g && (forall|j: int|
                        0 <= j < before.len() ==> (#[trigger] before[j]).0 != g) && forall|k: int|
                        0 <= k < i ==> exists|j: int| 0 <= j < before.len() && (#[trigger] before[j]).0 == (
                        #[trigger] rest[k]).0;
                assert(after[i + 1] == rest[i]);
                assert forall|k: int| 0 <= k < i + 1 implies exists|j: int|
                    0 <= j < before.len() && (#[trigger] before[j]).0 == (#[trigger] after[k]).0 by {
                    if k == 0 {
                        assert(before[j0].0 == after[0].0);
                    } else {
                        assert(rest[k - 1] == after[k]);
                    }
                }
            }
        }
    }
}

/// The first line containing a pattern is the line at the first index whose
/// line contains it; there is none exactly when no line contains it.
pub proof fn law_first_line_with(ls: Seq<Seq<char>>, pat: Seq<char>)
    ensures
        first_line_with(ls, pat) is None <==> forall|i: int| 0 <= i < ls.len() ==> !seq_contains(#[trigger] ls[i], pat),
        first_line_with(ls, pat) matches Some(l) ==> exists|i: int|
            0 <= i < ls.len() && #[trigger] ls[i] == l && seq_contains(l, pat) && forall|k: int|
                0 <= k < i ==> !seq_contains(#[trigger] ls[k], pat),
    decreases ls.len(),
{
    if ls.len() > 0 {
        let rest = ls.drop_first();
        law_first_line_with(rest, pat);
        assert forall|i: int| 0 <= i < rest.len() implies #[trigger] rest[i] == ls[i + 1] by {}
        if !seq_contains(ls[0], pat) {
            if forall|i: int| 0 <= i < rest.len() ==> !seq_contains(#[trigger] rest[i], pat) {
                assert forall|i: int| 0 <= i < ls.len() implies !seq_contains(#[trigger] ls[i], pat) by {
                    if i > 0 {
                        assert(rest[i - 1] == ls[i]);
                    }
                }
            } else {
                let i = choose|i: int| 0 <= i < rest.len() && seq_contains(#[trigger] rest[i], pat);
                assert(rest[i] == ls[i + 1]);
            }
            if first_line_with(rest, pat) is Some {
                let l = first_line_with(rest, pat)->0;
                let i = choose|i: int|
                    0 <= i < rest.len() && #[trigger] rest[i] == l && seq_contains(l, pat) && forall|k: int|
                        0 <= k < i ==> !seq_contains(#[trigger] rest[k], pat);
                assert(ls[i + 1] == rest[i]);
                assert forall|k: int| 0 <= k < i + 1 implies !seq_contains(#[trigger] ls[k], pat) by {
                    if k > 0 {
                        assert(rest[k - 1] == ls[k]);
                    }
                }
            }
        } else {
            assert(ls[0] == ls[0]);
        }
    }
}

} // verus!
