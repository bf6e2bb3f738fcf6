//! Windows restore points: the fixed Checkpoint-Computer invocation and the
//! interpretation of its outcome.

use vstd::prelude::*;
use crate::error::{error_is, ZenouError};
use crate::text::{chars_of, contains_str, owned, push_char, push_str, seq_contains, to_lowercase, lowercase_of};
use crate::winapi::{out_combined, out_stderr, out_stdout, Command, Output};

verus! {

/// The key holding `SystemRestorePointCreationFrequency` (set to 0 first so a
/// restore point is allowed even shortly after another).
pub fn restore_point_interval_key() -> (r: &'static str)
    ensures
        r@ == "SOFTWARE\\Microsoft\\Windows NT\\CurrentVersion\\SystemRestore"@,
{
    "SOFTWARE\\Microsoft\\Windows NT\\CurrentVersion\\SystemRestore"
}

/// `s` with every double quote replaced by a single quote.
pub open spec fn quotes_softened(s: Seq<char>) -> Seq<char> {
    s.map_values(|c: char| if c == '"' { '\'' } else { c })
}

/// The script that creates a restore point with the given description.
pub open spec fn checkpoint_script(description: Seq<char>) -> Seq<char> {
    "Checkpoint-Computer -Description \""@ + quotes_softened(description)
        + "\" -RestorePointType MODIFY_SETTINGS"@
}

/// The PowerShell command that creates a restore point.
pub fn create_restore_point_command(description: &str) -> (c: Command)
    ensures
        crate::winapi::command_is(
            c,
            "powershell.exe"@,
            seq![
                "-NoProfile"@,
                "-NonInteractive"@,
                "-ExecutionPolicy"@,
                "Bypass"@,
                "-Command"@,
                checkpoint_script(description@),
            ],
        ),
{
    let d = chars_of(description);
    let mut script = owned("Checkpoint-Computer -Description \"");
    let ghost start = script@;
    let mut i: usize = 0;
    while i < d.len()
        invariant
            d@ == description@,
            start == "Checkpoint-Computer -Description \""@,
            i <= d@.len(),
            script@ == start + quotes_softened(d@.subrange(0, i as int)),
        decreases d.len() - i,
    {
        let c = d[i];
        push_char(&mut script, if c == '"' { '\'' } else { c });
        assert(quotes_softened(d@.subrange(0, i + 1)) =~= quotes_softened(d@.subrange(0, i as int)).push(
            if c == '"' { '\'' } else { c },
        ));
        i = i + 1;
    }
    assert(d@.subrange(0, d@.len() as int) =~= d@);
    push_str(&mut script, "\" -RestorePointType MODIFY_SETTINGS");
    crate::winapi::run_powershell(script.as_str())
}

/// The message when System Restore is off.
pub open spec fn restore_disabled_msg() -> Seq<char> {
    "System Restore is disabled on this computer, so a restore point could not be created. You can enable it in Windows (System Properties > System Protection) or continue without one."@
}

/// The outcome of creating a restore point: System Restore being off is
/// reported as such, any other failure as a command error.
pub fn create_restore_point(out: &Output) -> (r: Result<(), ZenouError>)
    ensures
        out.exit_code == 0 ==> r is Ok,
        out.exit_code != 0 && (seq_contains(lowercase_of(out_stderr(*out)), "not enabled"@) || seq_contains(
            lowercase_of(out_stderr(*out)),
            "disabled"@,
        )) ==> (r matches Err(e) && error_is(e, "state"@, restore_disabled_msg(), None)),
        out.exit_code != 0 && !(seq_contains(lowercase_of(out_stderr(*out)), "not enabled"@) || seq_contains(
            lowercase_of(out_stderr(*out)),
            "disabled"@,
        )) ==> (r matches Err(e) && error_is(
            e,
            "command"@,
            "Windows could not create a restore point."@,
            Some(out_combined(*out)),
        )),
{
    if out.exit_code != 0 {
        let low = to_lowercase(out.stderr_str().as_str());
        let lv = chars_of(low.as_str());
        if contains_str(lv.as_slice(), "not enabled") || contains_str(lv.as_slice(), "disabled") {
            return Err(ZenouError::state(owned(
                "System Restore is disabled on this computer, so a restore point could not be created. You can enable it in Windows (System Properties > System Protection) or continue without one.",
            )));
        }
        return Err(ZenouError::command(owned("Windows could not create a restore point."), Some(out.combined())));
    }
    Ok(())
}

/// Whether System Restore is on, from the probe's report: the probe ran,
/// exited with 0 and printed "true" (any ASCII case).
pub fn system_restore_enabled(run: &Result<Output, ZenouError>) -> (r: bool)
    ensures
        r == (run matches Ok(o) && o.exit_code == 0 && crate::text::lower_seq(crate::text::trim(out_stdout(*o)))
            == crate::text::lower_seq("true"@)),
{
    match run {
        Ok(o) => {
            if o.exit_code != 0 {
                return false;
            }
            let t = o.stdout_str();
            let tv = chars_of(t.as_str());
            let trimmed = crate::text::trim_chars(tv.as_slice());
            crate::text::eq_ignore_ascii_case(trimmed.as_slice(), "true")
        },
        Err(_) => false,
    }
}

/// The PowerShell probe of System Restore.
pub fn system_restore_probe() -> (c: Command)
    ensures
        crate::winapi::command_is(
            c,
            "powershell.exe"@,
            seq![
                "-NoProfile"@,
                "-NonInteractive"@,
                "-ExecutionPolicy"@,
                "Bypass"@,
                "-Command"@,
                "try { (Get-ComputerRestorePoint -ErrorAction Stop | Measure-Object).Count -ge 0 } catch { $false }"@,
            ],
        ),
{
    crate::winapi::run_powershell(
        "try { (Get-ComputerRestorePoint -ErrorAction Stop | Measure-Object).Count -ge 0 } catch { $false }",
    )
}

/// The error of an elevation request ShellExecuteW refused with `code`
/// (a code of 5 is the user declining the prompt).
pub fn elevation_error(code: u64) -> (e: ZenouError)
    ensures
        code == 5 ==> error_is(
            e,
            "cancelled"@,
            "Administrator permission was not granted, so this action was not performed."@,
            None,
        ),
        code != 5 ==> error_is(
            e,
            "permission"@,
            "Windows could not start the elevated helper for this action."@,
            Some("ShellExecuteW returned "@ + crate::text::decimal(code as nat)),
        ),
{
    if code == 5 {
        ZenouError::cancelled(owned("Administrator permission was not granted, so this action was not performed."))
    } else {
        let mut d = owned("ShellExecuteW returned ");
        crate::text::push_decimal(&mut d, code);
        ZenouError::permission(owned("Windows could not start the elevated helper for this action."), Some(d))
    }
}

} // verus!
