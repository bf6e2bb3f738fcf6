//! One-shot cleanup operations: previews with item and byte counts, and the
//! tallies of a cleanup run. Walking and deleting files is done by the host.

use vstd::prelude::*;
use crate::text::owned;

verus! {

/// What a cleanup would remove.
pub struct CleanupPreview {
    pub id: String,
    pub name: String,
    pub description: String,
    pub file_count: u64,
    pub total_bytes: u64,
    /// Files are deleted permanently (no undo possible).
    pub irreversible: bool,
}

fn preview(id: &str, name: &str, description: &str, count: u64, bytes: u64) -> (p: CleanupPreview)
    ensures
        p.id@ == id@,
        p.name@ == name@,
        p.description@ == description@,
        p.file_count == count,
        p.total_bytes == bytes,
        p.irreversible,
{
    CleanupPreview {
        id: owned(id),
        name: owned(name),
        description: owned(description),
        file_count: count,
        total_bytes: bytes,
        irreversible: true,
    }
}

/// The preview of the user temp folder, given its item and byte counts.
pub fn preview_user_temp(count: u64, bytes: u64) -> (p: CleanupPreview)
    ensures
        p.id@ == "cleanup.user-temp"@,
        p.file_count == count,
        p.total_bytes == bytes,
        p.irreversible,
{
    preview(
        "cleanup.user-temp",
        "User temporary files",
        "Files in your user temp folder (%TEMP%) that are not currently locked by running apps.",
        count,
        bytes,
    )
}

/// The preview of `C:\Windows\Temp`, given its item and byte counts.
pub fn preview_windows_temp(count: u64, bytes: u64) -> (p: CleanupPreview)
    ensures
        p.id@ == "cleanup.windows-temp"@,
        p.file_count == count,
        p.total_bytes == bytes,
        p.irreversible,
{
    preview(
        "cleanup.windows-temp",
        "Windows temporary files",
        "Files in C:\\Windows\\Temp not currently in use by Windows.",
        count,
        bytes,
    )
}

/// The preview of the Prefetch folder, given its item and byte counts.
pub fn preview_prefetch(count: u64, bytes: u64) -> (p: CleanupPreview)
    ensures
        p.id@ == "cleanup.prefetch"@,
        p.file_count == count,
        p.total_bytes == bytes,
        p.irreversible,
{
    preview(
        "cleanup.prefetch",
        "Prefetch data",
        "Windows Prefetch trace files. They will be recreated as apps are used; first launches may be slightly slower afterwards.",
        count,
        bytes,
    )
}

/// The preview of the Windows Update download cache, given its item and byte counts.
pub fn preview_windows_update_cache(count: u64, bytes: u64) -> (p: CleanupPreview)
    ensures
        p.id@ == "cleanup.wu-cache"@,
        p.file_count == count,
        p.total_bytes == bytes,
        p.irreversible,
{
    preview(
        "cleanup.wu-cache",
        "Windows Update cache",
        "Downloaded update files in SoftwareDistribution\\Download. Windows re-downloads anything it still needs.",
        count,
        bytes,
    )
}

/// The folders the cleanups empty (the user temp folder is the host's temp directory).
pub fn cleanup_dir(id: &str) -> (r: Option<&'static str>)
    ensures
        id@ == "cleanup.windows-temp"@ ==> r == Some("C:\\Windows\\Temp"),
        id@ == "cleanup.prefetch"@ ==> r == Some("C:\\Windows\\Prefetch"),
        id@ == "cleanup.wu-cache"@ ==> r == Some("C:\\Windows\\SoftwareDistribution\\Download"),
        (id@ != "cleanup.windows-temp"@ && id@ != "cleanup.prefetch"@ && id@ != "cleanup.wu-cache"@) ==> r is None,
{
    proof {
        reveal_strlit("cleanup.windows-temp");
        reveal_strlit("cleanup.prefetch");
        reveal_strlit("cleanup.wu-cache");
        assert("cleanup.windows-temp"@[8] != "cleanup.prefetch"@[8]);
        assert("cleanup.windows-temp"@[9] != "cleanup.wu-cache"@[9]);
        assert("cleanup.prefetch"@[8] != "cleanup.wu-cache"@[8]);
    }
    if crate::text::str_eq(id, "cleanup.windows-temp") {
        Some("C:\\Windows\\Temp")
    } else if crate::text::str_eq(id, "cleanup.prefetch") {
        Some("C:\\Windows\\Prefetch")
    } else if crate::text::str_eq(id, "cleanup.wu-cache") {
        Some("C:\\Windows\\SoftwareDistribution\\Download")
    } else {
        None
    }
}

/// Items removed, bytes freed and items skipped, given each entry's size and
/// whether its removal succeeded.
pub open spec fn tally_spec(entries: Seq<(bool, u64)>) -> (nat, nat, nat)
    decreases entries.len(),
{
    if entries.len() == 0 {
        (0, 0, 0)
    } else {
        let t = tally_spec(entries.drop_last());
        if entries.last().0 {
            (t.0 + 1, t.1 + entries.last().1 as nat, t.2)
        } else {
            (t.0, t.1, t.2 + 1)
        }
    }
}

/// A cleanup run counts as removed the entries whose removal succeeded and
/// as skipped the others.
pub proof fn law_tally_counts(entries: Seq<(bool, u64)>)
    ensures
        tally_spec(entries).0 == entries.filter(|e: (bool, u64)| e.0).len(),
        tally_spec(entries).2 == entries.filter(|e: (bool, u64)| !e.0).len(),
    decreases entries.len(),
{
    reveal(Seq::filter);
    if entries.len() > 0 {
        law_tally_counts(entries.drop_last());
    }
}

/// The totals of a cleanup run (`(removed, freed bytes, skipped)`), given each
/// entry's removal outcome and size; the byte total must fit in 64 bits.
pub fn clear_tally(entries: &Vec<(bool, u64)>) -> (r: (u64, u64, u64))
    requires
        tally_spec(entries@).1 <= u64::MAX,
    ensures
        r.0 == tally_spec(entries@).0,
        r.1 == tally_spec(entries@).1,
        r.2 == tally_spec(entries@).2,
{
    let mut deleted: u64 = 0;
    let mut freed: u64 = 0;
    let mut skipped: u64 = 0;
    let mut i: usize = 0;
    while i < entries.len()
        invariant
            i <= entries@.len(),
            tally_spec(entries@).1 <= u64::MAX,
            deleted == tally_spec(entries@.subrange(0, i as int)).0,
            freed == tally_spec(entries@.subrange(0, i as int)).1,
            skipped == tally_spec(entries@.subrange(0, i as int)).2,
            deleted + skipped == i,
        decreases entries.len() - i,
    {
        proof {
            assert(entries@.subrange(0, i + 1).drop_last() =~= entries@.subrange(0, i as int));
            lemma_tally_prefix(entries@, i + 1);
        }
        let (ok, size) = entries[i];
        if ok {
            deleted = deleted + 1;
            freed = freed + size;
        } else {
            skipped = skipped + 1;
        }
        i = i + 1;
    }
    assert(entries@.subrange(0, entries@.len() as int) =~= entries@);
    (deleted, freed, skipped)
}

proof fn lemma_tally_prefix(s: Seq<(bool, u64)>, k: int)
    requires
        0 <= k <= s.len(),
    ensures
        tally_spec(s.subrange(0, k)).1 <= tally_spec(s).1,
    decreases s.len(),
{
    if k < s.len() {
        assert(s.drop_last().subrange(0, k) =~= s.subrange(0, k));
        lemma_tally_prefix(s.drop_last(), k);
    } else {
        assert(s.subrange(0, k) =~= s);
    }
}

/// The query of a service's current state (`sc query <service>`).
pub fn service_query_command(service: &str) -> (c: crate::winapi::Command)
    ensures
        crate::winapi::command_is(c, "sc.exe"@, seq!["query"@, service@]),
{
    let mut args: Vec<String> = Vec::new();
    crate::text::push_owned(&mut args, "query");
    crate::text::push_owned(&mut args, service);
    assert(crate::text::views(args@) =~= seq!["query"@, service@]);
    crate::winapi::Command { program: owned("sc.exe"), args }
}

/// Whether a service query reported the service running.
pub open spec fn reported_running(query: Result<crate::winapi::Output, crate::error::ZenouError>) -> bool {
    query matches Ok(o) && o.exit_code == 0 && crate::text::seq_contains(crate::winapi::out_stdout(o), "RUNNING"@)
}

/// After purging the update cache, the update service is started again only
/// when it was running before the purge (as the query taken before stopping
/// it reported), so the service is left in the state it was found in.
pub fn restart_update_service(query_before: &Result<crate::winapi::Output, crate::error::ZenouError>) -> (r: bool)
    ensures
        r == reported_running(*query_before),
{
    match query_before {
        Ok(o) => {
            if o.exit_code != 0 {
                return false;
            }
            let text = o.stdout_str();
            let tv = crate::text::chars_of(text.as_str());
            crate::text::contains_str(tv.as_slice(), "RUNNING")
        },
        Err(_) => false,
    }
}

} // verus!
