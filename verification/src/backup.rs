//! Backup entries: the recorded originals of each tweak, restorable at any time.

use vstd::prelude::*;
use crate::catalog_ext::start_in;
use crate::engine::{captured_from, edit_key, read_view, read_views, CommandHook, Tweak};
use crate::error::{error_is, ZenouError};
use crate::registry::{capture_spec, Hive, RegValue, RegValueView};
use crate::text::{copy_string, opt_view, views};
use crate::types::{saved_views, SavedValue};

verus! {

/// The recorded originals of one tweak.
pub struct SnapshotEntry {
    pub tweak_id: String,
    pub tweak_name: String,
    pub values: Vec<SavedValue>,
    /// For task tweaks: the original enable state of each task.
    pub task_states: Vec<(String, bool)>,
    /// For service tweaks: the original Start value of each service.
    pub service_states: Vec<(String, u32)>,
}

/// What the host read of a group tweak's tasks and services before a backup:
/// each listed task's enable state (`None` when the task is absent or its
/// state unknown) and each listed service's Start value read.
pub struct GroupReads {
    pub tasks: Vec<Option<bool>>,
    pub services: Vec<Result<Option<u32>, ZenouError>>,
}

/// The tasks a tweak disables as its command step.
pub open spec fn group_task_names(t: Tweak) -> Seq<Seq<char>> {
    match t.extra_apply {
        Some(CommandHook::DisableTasks(v)) => views(v@),
        _ => Seq::empty(),
    }
}

/// The services a tweak disables as its command step.
pub open spec fn group_service_names(t: Tweak) -> Seq<Seq<char>> {
    match t.extra_apply {
        Some(CommandHook::DisableServices(v)) => views(v@),
        _ => Seq::empty(),
    }
}

/// Each task found, with its original enable state, in order.
pub open spec fn recorded_tasks(names: Seq<Seq<char>>, states: Seq<Option<bool>>) -> Seq<(Seq<char>, bool)>
    decreases names.len(),
{
    if names.len() == 0 {
        Seq::empty()
    } else {
        let p = recorded_tasks(names.drop_last(), states);
        match states[names.len() - 1] {
            Some(b) => p.push((names.last(), b)),
            None => p,
        }
    }
}

/// Each installed service, with its original Start value, in order.
pub open spec fn recorded_services(names: Seq<Seq<char>>, reads: Seq<Result<Option<u32>, ZenouError>>) -> Seq<(Seq<char>, u32)>
    decreases names.len(),
{
    if names.len() == 0 {
        Seq::empty()
    } else {
        let p = recorded_services(names.drop_last(), reads);
        match reads[names.len() - 1] {
            Ok(Some(v)) => p.push((names.last(), v)),
            _ => p,
        }
    }
}

/// The views of (name, start) pairs.
pub open spec fn start_pairs(v: Seq<(String, u32)>) -> Seq<(Seq<char>, u32)> {
    v.map_values(|p: (String, u32)| (p.0@, p.1))
}

/// The views of (name, flag) pairs.
pub open spec fn flag_pairs(v: Seq<(String, bool)>) -> Seq<(Seq<char>, bool)> {
    v.map_values(|p: (String, bool)| (p.0@, p.1))
}

fn task_names_of(t: &Tweak) -> (r: Vec<String>)
    ensures
        views(r@) == group_task_names(*t),
{
    match &t.extra_apply {
        Some(CommandHook::DisableTasks(v)) => copy_names(v),
        _ => {
            assert(views(Seq::<String>::empty()) =~= Seq::<Seq<char>>::empty());
            Vec::new()
        },
    }
}

fn service_names_of(t: &Tweak) -> (r: Vec<String>)
    ensures
        views(r@) == group_service_names(*t),
{
    match &t.extra_apply {
        Some(CommandHook::DisableServices(v)) => copy_names(v),
        _ => {
            assert(views(Seq::<String>::empty()) =~= Seq::<Seq<char>>::empty());
            Vec::new()
        },
    }
}

fn copy_names(v: &Vec<String>) -> (r: Vec<String>)
    ensures
        views(r@) == views(v@),
{
    let mut r: Vec<String> = Vec::new();
    let mut i: usize = 0;
    while i < v.len()
        invariant
            i <= v@.len(),
            views(r@) == views(v@).subrange(0, i as int),
        decreases v.len() - i,
    {
        let ghost before = views(r@);
        r.push(copy_string(&v[i]));
        assert(views(r@) =~= before.push(v@[i as int]@));
        assert(views(v@).subrange(0, i + 1) =~= views(v@).subrange(0, i as int).push(v@[i as int]@));
        i = i + 1;
    }
    assert(views(v@).subrange(0, v@.len() as int) =~= views(v@));
    r
}

/// The original states of the tasks found.
pub fn record_tasks(names: &Vec<String>, states: &Vec<Option<bool>>) -> (r: Vec<(String, bool)>)
    requires
        states@.len() == names@.len(),
    ensures
        flag_pairs(r@) == recorded_tasks(views(names@), states@),
{
    let ghost nv = views(names@);
    let mut r: Vec<(String, bool)> = Vec::new();
    let mut i: usize = 0;
    while i < names.len()
        invariant
            nv == views(names@),
            states@.len() == names@.len(),
            i <= names@.len(),
            flag_pairs(r@) == recorded_tasks(nv.subrange(0, i as int), states@),
        decreases names.len() - i,
    {
        let ghost pre = nv.subrange(0, i as int);
        assert(nv.subrange(0, i + 1).drop_last() =~= pre);
        assert(nv.subrange(0, i + 1).last() == names@[i as int]@);
        match states[i] {
            Some(b) => {
                let ghost before = flag_pairs(r@);
                r.push((copy_string(&names[i]), b));
                assert(flag_pairs(r@) =~= before.push((names@[i as int]@, b)));
            },
            None => {},
        }
        i = i + 1;
    }
    assert(nv.subrange(0, names@.len() as int) =~= nv);
    r
}

/// The original Start values of the services found.
pub fn record_services(names: &Vec<String>, reads: &Vec<Result<Option<u32>, ZenouError>>) -> (r: Vec<(String, u32)>)
    requires
        reads@.len() == names@.len(),
    ensures
        start_pairs(r@) == recorded_services(views(names@), reads@),
{
    let ghost nv = views(names@);
    let mut r: Vec<(String, u32)> = Vec::new();
    let mut i: usize = 0;
    while i < names.len()
        invariant
            nv == views(names@),
            reads@.len() == names@.len(),
            i <= names@.len(),
            start_pairs(r@) == recorded_services(nv.subrange(0, i as int), reads@),
        decreases names.len() - i,
    {
        let ghost pre = nv.subrange(0, i as int);
        assert(nv.subrange(0, i + 1).drop_last() =~= pre);
        assert(nv.subrange(0, i + 1).last() == names@[i as int]@);
        match &reads[i] {
            Ok(Some(v)) => {
                let ghost before = start_pairs(r@);
                r.push((copy_string(&names[i]), *v));
                assert(start_pairs(r@) =~= before.push((names@[i as int]@, *v)));
            },
            _ => {},
        }
        i = i + 1;
    }
    assert(nv.subrange(0, names@.len() as int) =~= nv);
    r
}

/// `e` records tweak `t`: its id and name, the original value of each of
/// its edits as read (`rs`), and its tasks' and services' original states as
/// read (`g`).
pub open spec fn entry_records(t: Tweak, rs: Seq<Result<Option<RegValue>, ZenouError>>, g: GroupReads, e: SnapshotEntry) -> bool {
    &&& e.tweak_id@ == t.meta.id@
    &&& e.tweak_name@ == t.meta.name@
    &&& e.values@.len() == t.group.edits@.len()
    &&& forall|i: int|
        0 <= i < e.values@.len() ==> captured_from(t.group.edits@[i]@, read_view(rs[i]), (#[trigger] e.values@[i])@)
    &&& flag_pairs(e.task_states@) == recorded_tasks(group_task_names(t), g.tasks@)
    &&& start_pairs(e.service_states@) == recorded_services(group_service_names(t), g.services@)
}

/// The enable state `ts` holds for task `name`; `None` where the task does not exist.
pub open spec fn task_state_in(ts: Map<Seq<char>, bool>, name: Seq<char>) -> Option<bool> {
    if ts.dom().contains(name) {
        Some(ts[name])
    } else {
        None
    }
}

proof fn lemma_recorded_tasks(names: Seq<Seq<char>>, states: Seq<Option<bool>>, ts: Map<Seq<char>, bool>)
    requires
        states.len() >= names.len(),
        forall|i: int| 0 <= i < names.len() ==> #[trigger] states[i] == task_state_in(ts, names[i]),
    ensures
        recorded_tasks(names, states) == names.filter(|n: Seq<char>| ts.dom().contains(n)).map_values(
            |n: Seq<char>| (n, ts[n]),
        ),
    decreases names.len(),
{
    reveal(Seq::filter);
    if names.len() > 0 {
        let n1 = names.drop_last();
        assert forall|i: int| 0 <= i < n1.len() implies #[trigger] states[i] == task_state_in(ts, n1[i]) by {
            assert(n1[i] == names[i]);
        }
        lemma_recorded_tasks(n1, states, ts);
        assert(states[names.len() - 1] == task_state_in(ts, names[names.len() - 1]));
        let f = n1.filter(|n: Seq<char>| ts.dom().contains(n));
        let g = |n: Seq<char>| (n, ts[n]);
        if ts.dom().contains(names.last()) {
            assert(f.push(names.last()).map_values(g) =~= f.map_values(g).push(g(names.last())));
        }
    }
}

proof fn lemma_recorded_services(
    names: Seq<Seq<char>>,
    reads: Seq<Result<Option<u32>, ZenouError>>,
    st: Map<Seq<char>, u32>,
)
    requires
        reads.len() >= names.len(),
        forall|i: int| 0 <= i < names.len() ==> #[trigger] reads[i] == Ok::<Option<u32>, ZenouError>(start_in(st, names[i])),
    ensures
        recorded_services(names, reads) == names.filter(|n: Seq<char>| st.dom().contains(n)).map_values(
            |n: Seq<char>| (n, st[n]),
        ),
    decreases names.len(),
{
    reveal(Seq::filter);
    if names.len() > 0 {
        let n1 = names.drop_last();
        assert forall|i: int| 0 <= i < n1.len() implies #[trigger] reads[i] == Ok::<Option<u32>, ZenouError>(
            start_in(st, n1[i]),
        ) by {
            assert(n1[i] == names[i]);
        }
        lemma_recorded_services(n1, reads, st);
        assert(reads[names.len() - 1] == Ok::<Option<u32>, ZenouError>(start_in(st, names[names.len() - 1])));
        let f = n1.filter(|n: Seq<char>| st.dom().contains(n));
        let g = |n: Seq<char>| (n, st[n]);
        if st.dom().contains(names.last()) {
            assert(f.push(names.last()).map_values(g) =~= f.map_values(g).push(g(names.last())));
        }
    }
}

/// A backup entry holds the tweak's originals. Where the reads a backup is
/// taken from are those of a system whose registry is `m`, whose tasks have
/// the enable states `ts` and whose services have the Start values `st`,
/// the entry for a tweak carries the tweak's id and name, one saved value per
/// edit in order, each the capture of what `m` holds at the edit's location,
/// each of the tweak's tasks that exists with its enable state, and each of
/// its services that is installed with its Start value, in the tweak's order.
pub proof fn law_backup_records_originals(
    t: Tweak,
    rs: Seq<Result<Option<RegValue>, ZenouError>>,
    g: GroupReads,
    e: SnapshotEntry,
    m: Map<(Hive, Seq<char>, Seq<char>), RegValueView>,
    ts: Map<Seq<char>, bool>,
    st: Map<Seq<char>, u32>,
)
    requires
        rs.len() == t.group.edits@.len(),
        g.tasks@.len() == group_task_names(t).len(),
        g.services@.len() == group_service_names(t).len(),
        forall|i: int| 0 <= i < rs.len() ==> read_view(#[trigger] rs[i]) == Ok::<Option<RegValueView>, ()>(m.get(edit_key(t.group.edits@[i]@))),
        forall|i: int| 0 <= i < g.tasks@.len() ==> #[trigger] g.tasks@[i] == task_state_in(ts, group_task_names(t)[i]),
        forall|i: int|
            0 <= i < g.services@.len() ==> #[trigger] g.services@[i] == Ok::<Option<u32>, ZenouError>(
                start_in(st, group_service_names(t)[i]),
            ),
        entry_records(t, rs, g, e),
    ensures
        e.tweak_id@ == t.meta.id@,
        e.tweak_name@ == t.meta.name@,
        e.values@.len() == t.group.edits@.len(),
        forall|i: int|
            0 <= i < e.values@.len() ==> (#[trigger] e.values@[i])@ == capture_spec(
                t.group.edits@[i]@.hive,
                t.group.edits@[i]@.path,
                t.group.edits@[i]@.name,
                m.get(edit_key(t.group.edits@[i]@)),
            ),
        flag_pairs(e.task_states@) == group_task_names(t).filter(|n: Seq<char>| ts.dom().contains(n)).map_values(
            |n: Seq<char>| (n, ts[n]),
        ),
        start_pairs(e.service_states@) == group_service_names(t).filter(|n: Seq<char>| st.dom().contains(n)).map_values(
            |n: Seq<char>| (n, st[n]),
        ),
{
    assert forall|i: int| 0 <= i < e.values@.len() implies (#[trigger] e.values@[i])@ == capture_spec(
        t.group.edits@[i]@.hive,
        t.group.edits@[i]@.path,
        t.group.edits@[i]@.name,
        m.get(edit_key(t.group.edits@[i]@)),
    ) by {
        assert(read_view(rs[i]) == Ok::<Option<RegValueView>, ()>(m.get(edit_key(t.group.edits@[i]@))));
    }
    lemma_recorded_tasks(group_task_names(t), g.tasks@, ts);
    lemma_recorded_services(group_service_names(t), g.services@, st);
}

/// Where backup snapshots live; the files themselves are handled by the host.
pub struct BackupStore {
    pub dir: String,
}

impl BackupStore {
    /// A store over the directory `dir`.
    pub fn new(dir: String) -> (s: BackupStore)
        ensures
            s.dir@ == dir@,
    {
        BackupStore { dir }
    }

    /// The file name of snapshot `id` in the store's directory.
    pub fn path_for(&self, id: &str) -> (p: String)
        ensures
            p@ == id@ + ".json"@,
    {
        crate::text::concat2(id, ".json")
    }

    /// Capture entries for the given tweaks from each tweak's value reads
    /// (`reads[k]` holds the reads of `tweaks[k]`'s edits, in order) and, for a
    /// task or service group tweak, the states of its tasks or services
    /// (`groups[k]`); the first failed capture fails the whole backup.
    pub fn capture_entries(
        &self,
        tweaks: &Vec<&Tweak>,
        reads: &Vec<Vec<Result<Option<RegValue>, ZenouError>>>,
        groups: &Vec<GroupReads>,
    ) -> (r: Result<Vec<SnapshotEntry>, ZenouError>)
        requires
            reads@.len() == tweaks@.len(),
            groups@.len() == tweaks@.len(),
            forall|k: int| 0 <= k < tweaks@.len() ==> (#[trigger] reads@[k])@.len() == tweaks@[k].group.edits@.len(),
            forall|k: int| 0 <= k < tweaks@.len() ==> (#[trigger] groups@[k]).tasks@.len() == group_task_names(*tweaks@[k]).len()
                && groups@[k].services@.len() == group_service_names(*tweaks@[k]).len(),
        ensures
            (forall|k: int, i: int|
                0 <= k < reads@.len() && 0 <= i < reads@[k]@.len() ==> (#[trigger] reads@[k]@[i]) is Ok) <==> r is Ok,
            r matches Err(e) ==> exists|k: int, i: int|
                0 <= k < reads@.len() && 0 <= i < reads@[k]@.len() && (forall|j: int, l: int|
                    0 <= j < k && 0 <= l < reads@[j]@.len() ==> (#[trigger] reads@[j]@[l]) is Ok) && (forall|l: int|
                    0 <= l < i ==> (#[trigger] reads@[k]@[l]) is Ok) && (#[trigger] reads@[k]@[i] matches Err(x)
                    && error_is(e, x.code@, x.message@, opt_view(x.details))),
            r matches Ok(v) ==> v@.len() == tweaks@.len() && forall|k: int|
                0 <= k < v@.len() ==> entry_records(*tweaks@[k], reads@[k]@, groups@[k], #[trigger] v@[k]),
    {
        let mut entries: Vec<SnapshotEntry> = Vec::new();
        let mut k: usize = 0;
        while k < tweaks.len()
            invariant
                reads@.len() == tweaks@.len(),
                groups@.len() == tweaks@.len(),
                forall|j: int| 0 <= j < tweaks@.len() ==> (#[trigger] reads@[j])@.len() == tweaks@[j].group.edits@.len(),
                forall|j: int| 0 <= j < tweaks@.len() ==> (#[trigger] groups@[j]).tasks@.len() == group_task_names(*tweaks@[j]).len()
                    && groups@[j].services@.len() == group_service_names(*tweaks@[j]).len(),
                k <= tweaks@.len(),
                entries@.len() == k,
                forall|j: int, l: int| 0 <= j < k && 0 <= l < reads@[j]@.len() ==> (#[trigger] reads@[j]@[l]) is Ok,
                forall|j: int|
                    0 <= j < k ==> entry_records(*tweaks@[j], reads@[j]@, groups@[j], #[trigger] entries@[j]),
            decreases tweaks.len() - k,
        {
            let t = tweaks[k];
            let rs = &reads[k];
            let values = match t.capture_all(rs.as_slice()) {
                Ok(v) => v,
                Err(e) => {
                    proof {
                        assert(!(forall|i: int| 0 <= i < rs@.len() ==> rs@[i] is Ok));
                        let i = choose|i: int|
                            0 <= i < rs@.len() && (forall|j: int| 0 <= j < i ==> (#[trigger] rs@[j]) is Ok) && (
                            #[trigger] rs@[i] matches Err(x) && error_is(e, x.code@, x.message@, opt_view(x.details)));
                        assert(reads@[k as int]@[i] == rs@[i]);
                        assert(forall|l: int| 0 <= l < i ==> reads@[k as int]@[l] == rs@[l]);
                    }
                    return Err(e);
                },
            };
            proof {
                assert forall|i: int| 0 <= i < values@.len() implies captured_from(
                    tweaks@[k as int].group.edits@[i]@,
                    read_view(reads@[k as int]@[i]),
                    (#[trigger] values@[i])@,
                ) by {
                    assert(read_views(rs@)[i] == read_view(rs@[i]));
                }
            }
            let tnames = task_names_of(t);
            let snames = service_names_of(t);
            let task_states = record_tasks(&tnames, &groups[k].tasks);
            let service_states = record_services(&snames, &groups[k].services);
            entries.push(SnapshotEntry {
                tweak_id: copy_string(&t.meta.id),
                tweak_name: copy_string(&t.meta.name),
                values,
                task_states,
                service_states,
            });
            k = k + 1;
        }
        Ok(entries)
    }
}

/// The recorded values of tweak `id` in the newest snapshot that has an
/// entry for it (snapshots newest first; entries in order).
pub open spec fn restore_source_spec(snapshots: Seq<Seq<SnapshotEntry>>, id: Seq<char>) -> Option<Seq<SavedValue>>
    decreases snapshots.len(),
{
    if snapshots.len() == 0 {
        None
    } else {
        match first_entry(snapshots[0], id) {
            Some(e) => Some(e.values@),
            None => restore_source_spec(snapshots.drop_first(), id),
        }
    }
}

/// The first entry for tweak `id`.
pub open spec fn first_entry(entries: Seq<SnapshotEntry>, id: Seq<char>) -> Option<SnapshotEntry>
    decreases entries.len(),
{
    if entries.len() == 0 {
        None
    } else if entries[0].tweak_id@ == id {
        Some(entries[0])
    } else {
        first_entry(entries.drop_first(), id)
    }
}

proof fn lemma_first_entry(es: Seq<SnapshotEntry>, id: Seq<char>)
    ensures
        (forall|j: int| 0 <= j < es.len() ==> (#[trigger] es[j]).tweak_id@ != id) ==> first_entry(es, id) is None,
        forall|j: int|
            0 <= j < es.len() && (#[trigger] es[j]).tweak_id@ == id && (forall|k: int|
                0 <= k < j ==> es[k].tweak_id@ != id) ==> first_entry(es, id) == Some(es[j]),
    decreases es.len(),
{
    if es.len() > 0 {
        let rest = es.drop_first();
        lemma_first_entry(rest, id);
        assert forall|j: int| 0 <= j < rest.len() implies #[trigger] rest[j] == es[j + 1] by {}
        if es[0].tweak_id@ != id {
            assert forall|j: int|
                0 <= j < es.len() && (#[trigger] es[j]).tweak_id@ == id && (forall|k: int|
                    0 <= k < j ==> es[k].tweak_id@ != id) implies first_entry(es, id) == Some(es[j]) by {
                assert(j > 0);
                assert(rest[j - 1] == es[j]);
                assert forall|k: int| 0 <= k < j - 1 implies rest[k].tweak_id@ != id by {
                    assert(rest[k] == es[k + 1]);
                }
            }
            if forall|j: int| 0 <= j < es.len() ==> (#[trigger] es[j]).tweak_id@ != id {
                assert forall|j: int| 0 <= j < rest.len() implies (#[trigger] rest[j]).tweak_id@ != id by {
                    assert(rest[j] == es[j + 1]);
                }
            }
        } else {
            assert forall|j: int|
                0 <= j < es.len() && (#[trigger] es[j]).tweak_id@ == id && (forall|k: int|
                    0 <= k < j ==> es[k].tweak_id@ != id) implies first_entry(es, id) == Some(es[j]) by {
                if j > 0 {
                    assert(es[0].tweak_id@ != id);
                }
            }
        }
    }
}

proof fn lemma_first_entry_found(es: Seq<SnapshotEntry>, id: Seq<char>)
    ensures
        (exists|j: int| 0 <= j < es.len() && (#[trigger] es[j]).tweak_id@ == id) ==> first_entry(es, id) is Some,
    decreases es.len(),
{
    if es.len() > 0 {
        let rest = es.drop_first();
        lemma_first_entry_found(rest, id);
        if es[0].tweak_id@ != id && exists|j: int| 0 <= j < es.len() && (#[trigger] es[j]).tweak_id@ == id {
            let j = choose|j: int| 0 <= j < es.len() && (#[trigger] es[j]).tweak_id@ == id;
            assert(rest[j - 1] == es[j]);
        }
    }
}

proof fn lemma_restore_none(snapshots: Seq<Seq<SnapshotEntry>>, id: Seq<char>)
    ensures
        (forall|i: int, j: int|
            0 <= i < snapshots.len() && 0 <= j < snapshots[i].len() ==> (#[trigger] snapshots[i][j]).tweak_id@ != id)
            <==> restore_source_spec(snapshots, id) is None,
    decreases snapshots.len(),
{
    if snapshots.len() > 0 {
        let rest = snapshots.drop_first();
        lemma_restore_none(rest, id);
        lemma_first_entry(snapshots[0], id);
        lemma_first_entry_found(snapshots[0], id);
        if forall|i: int, j: int|
            0 <= i < snapshots.len() && 0 <= j < snapshots[i].len() ==> (#[trigger] snapshots[i][j]).tweak_id@ != id {
            assert forall|j: int| 0 <= j < snapshots[0].len() implies (#[trigger] snapshots[0][j]).tweak_id@ != id by {}
            assert forall|i: int, j: int| 0 <= i < rest.len() && 0 <= j < rest[i].len() implies (
            #[trigger] rest[i][j]).tweak_id@ != id by {
                assert(rest[i] == snapshots[i + 1]);
            }
        } else {
            let (i, j) = choose|i: int, j: int|
                0 <= i < snapshots.len() && 0 <= j < snapshots[i].len() && (#[trigger] snapshots[i][j]).tweak_id@ == id;
            if i > 0 {
                assert(rest[i - 1] == snapshots[i]);
                assert(rest[i - 1][j] == snapshots[i][j]);
            } else {
                assert(snapshots[0][j].tweak_id@ == id);
            }
        }
    }
}

proof fn lemma_restore_newest_at(snapshots: Seq<Seq<SnapshotEntry>>, id: Seq<char>, i: int, j: int)
    requires
        0 <= i < snapshots.len(),
        0 <= j < snapshots[i].len(),
        snapshots[i][j].tweak_id@ == id,
        forall|i2: int, j2: int|
            0 <= i2 < i && 0 <= j2 < snapshots[i2].len() ==> (#[trigger] snapshots[i2][j2]).tweak_id@ != id,
        forall|k: int| 0 <= k < j ==> (#[trigger] snapshots[i][k]).tweak_id@ != id,
    ensures
        restore_source_spec(snapshots, id) == Some(snapshots[i][j].values@),
    decreases i,
{
    lemma_first_entry(snapshots[0], id);
    if i > 0 {
        let rest = snapshots.drop_first();
        assert forall|k: int| 0 <= k < snapshots[0].len() implies (#[trigger] snapshots[0][k]).tweak_id@ != id by {}
        assert(rest[i - 1] == snapshots[i]);
        assert forall|i2: int, j2: int| 0 <= i2 < i - 1 && 0 <= j2 < rest[i2].len() implies (
        #[trigger] rest[i2][j2]).tweak_id@ != id by {
            assert(rest[i2] == snapshots[i2 + 1]);
        }
        assert forall|k: int| 0 <= k < j implies (#[trigger] rest[i - 1][k]).tweak_id@ != id by {
            assert(rest[i - 1][k] == snapshots[i][k]);
        }
        lemma_restore_newest_at(rest, id, i - 1, j);
    } else {
        assert forall|k: int| 0 <= k < j implies (#[trigger] snapshots[0][k]).tweak_id@ != id by {}
    }
}

/// A restore takes its values from the newest snapshot that has an entry for
/// the tweak, whatever newer snapshots lack one: when some snapshot holds an
/// entry for `id`, the values are those of the first such entry in the first
/// (newest) such snapshot; there are none exactly when no snapshot holds an
/// entry for `id`.
pub proof fn law_restore_source_newest(snapshots: Seq<Seq<SnapshotEntry>>, id: Seq<char>)
    ensures
        (forall|i: int, j: int|
            0 <= i < snapshots.len() && 0 <= j < snapshots[i].len() ==> (#[trigger] snapshots[i][j]).tweak_id@ != id)
            <==> restore_source_spec(snapshots, id) is None,
        forall|i: int, j: int|
            0 <= i < snapshots.len() && 0 <= j < snapshots[i].len() && (#[trigger] snapshots[i][j]).tweak_id@ == id
                && (forall|i2: int, j2: int|
                0 <= i2 < i && 0 <= j2 < snapshots[i2].len() ==> snapshots[i2][j2].tweak_id@ != id) && (forall|k: int|
                0 <= k < j ==> snapshots[i][k].tweak_id@ != id) ==> restore_source_spec(snapshots, id) == Some(
                snapshots[i][j].values@,
            ),
{
    lemma_restore_none(snapshots, id);
    assert forall|i: int, j: int|
        0 <= i < snapshots.len() && 0 <= j < snapshots[i].len() && (#[trigger] snapshots[i][j]).tweak_id@ == id
            && (forall|i2: int, j2: int|
            0 <= i2 < i && 0 <= j2 < snapshots[i2].len() ==> snapshots[i2][j2].tweak_id@ != id) && (forall|k: int|
            0 <= k < j ==> snapshots[i][k].tweak_id@ != id) implies restore_source_spec(snapshots, id) == Some(
        snapshots[i][j].values@,
    ) by {
        lemma_restore_newest_at(snapshots, id, i, j);
    }
}

fn find_entry(entries: &Vec<SnapshotEntry>, id: &str) -> (r: Option<usize>)
    ensures
        match first_entry(entries@, id@) {
            Some(e) => r matches Some(i) && i < entries@.len() && entries@[i as int] == e,
            None => r is None,
        },
{
    let mut i: usize = 0;
    assert(entries@.subrange(0, entries@.len() as int) =~= entries@);
    while i < entries.len()
        invariant
            i <= entries@.len(),
            first_entry(entries@, id@) == first_entry(entries@.subrange(i as int, entries@.len() as int), id@),
        decreases entries.len() - i,
    {
        let ghost rest = entries@.subrange(i as int, entries@.len() as int);
        assert(rest[0] == entries@[i as int]);
        if crate::text::str_eq(entries[i].tweak_id.as_str(), id) {
            return Some(i);
        }
        assert(rest.drop_first() =~= entries@.subrange(i + 1, entries@.len() as int));
        i = i + 1;
    }
    None
}

/// The values a tweak restore puts back: those of the newest snapshot with
/// an entry for the tweak, none when no snapshot has one.
pub fn restore_source(snapshots: &Vec<Vec<SnapshotEntry>>, id: &str) -> (r: Vec<SavedValue>)
    ensures
        saved_views(r@) == match restore_source_spec(snapshots@.map_values(|s: Vec<SnapshotEntry>| s@), id@) {
            Some(v) => saved_views(v),
            None => Seq::empty(),
        },
        (forall|i: int, j: int|
            0 <= i < snapshots@.len() && 0 <= j < snapshots@[i]@.len() ==> (#[trigger] snapshots@[i]@[j]).tweak_id@
                != id@) ==> r@.len() == 0,
        forall|i: int, j: int|
            0 <= i < snapshots@.len() && 0 <= j < snapshots@[i]@.len() && (#[trigger] snapshots@[i]@[j]).tweak_id@
                == id@ && (forall|i2: int, j2: int|
                0 <= i2 < i && 0 <= j2 < snapshots@[i2]@.len() ==> snapshots@[i2]@[j2].tweak_id@ != id@) && (forall|
                k: int,
            | 0 <= k < j ==> snapshots@[i]@[k].tweak_id@ != id@) ==> saved_views(r@) == saved_views(
                snapshots@[i]@[j].values@,
            ),
{
    let r = newest_values(snapshots, id);
    proof {
        let all = snapshots@.map_values(|s: Vec<SnapshotEntry>| s@);
        law_restore_source_newest(all, id@);
        assert forall|i: int| 0 <= i < snapshots@.len() implies #[trigger] all[i] == snapshots@[i]@ by {}
        if forall|i: int, j: int|
            0 <= i < snapshots@.len() && 0 <= j < snapshots@[i]@.len() ==> (#[trigger] snapshots@[i]@[j]).tweak_id@
                != id@ {
            assert forall|i: int, j: int| 0 <= i < all.len() && 0 <= j < all[i].len() implies (
            #[trigger] all[i][j]).tweak_id@ != id@ by {
                assert(all[i] == snapshots@[i]@);
            }
            assert(saved_views(r@).len() == r@.len());
        }
        assert forall|i: int, j: int|
            0 <= i < snapshots@.len() && 0 <= j < snapshots@[i]@.len() && (#[trigger] snapshots@[i]@[j]).tweak_id@
                == id@ && (forall|i2: int, j2: int|
                0 <= i2 < i && 0 <= j2 < snapshots@[i2]@.len() ==> snapshots@[i2]@[j2].tweak_id@ != id@) && (forall|
                k: int,
            | 0 <= k < j ==> snapshots@[i]@[k].tweak_id@ != id@) implies saved_views(r@) == saved_views(
            snapshots@[i]@[j].values@,
        ) by {
            assert(all[i] == snapshots@[i]@);
            assert(all[i][j] == snapshots@[i]@[j]);
            assert forall|i2: int, j2: int| 0 <= i2 < i && 0 <= j2 < all[i2].len() implies all[i2][j2].tweak_id@
                != id@ by {
                assert(all[i2] == snapshots@[i2]@);
                assert(snapshots@[i2]@[j2].tweak_id@ != id@);
            }
            assert forall|k: int| 0 <= k < j implies all[i][k].tweak_id@ != id@ by {
                assert(snapshots@[i]@[k].tweak_id@ != id@);
            }
        }
    }
    r
}

fn newest_values(snapshots: &Vec<Vec<SnapshotEntry>>, id: &str) -> (r: Vec<SavedValue>)
    ensures
        saved_views(r@) == match restore_source_spec(snapshots@.map_values(|s: Vec<SnapshotEntry>| s@), id@) {
            Some(v) => saved_views(v),
            None => Seq::empty(),
        },
{
    let ghost all = snapshots@.map_values(|s: Vec<SnapshotEntry>| s@);
    let mut i: usize = 0;
    assert(all.subrange(0, all.len() as int) =~= all);
    while i < snapshots.len()
        invariant
            all == snapshots@.map_values(|s: Vec<SnapshotEntry>| s@),
            i <= snapshots@.len(),
            restore_source_spec(all, id@) == restore_source_spec(all.subrange(i as int, all.len() as int), id@),
        decreases snapshots.len() - i,
    {
        let ghost rest = all.subrange(i as int, all.len() as int);
        assert(rest[0] == snapshots@[i as int]@);
        match find_entry(&snapshots[i], id) {
            Some(j) => {
                let mut out: Vec<SavedValue> = Vec::new();
                let vals = &snapshots[i][j].values;
                let mut k: usize = 0;
                while k < vals.len()
                    invariant
                        k <= vals@.len(),
                        saved_views(out@) == saved_views(vals@).subrange(0, k as int),
                    decreases vals.len() - k,
                {
                    let ghost before = saved_views(out@);
                    out.push(vals[k].duplicate());
                    assert(saved_views(out@) =~= before.push(vals@[k as int]@));
                    assert(saved_views(vals@).subrange(0, k + 1) =~= saved_views(vals@).subrange(0, k as int).push(vals@[k as int]@));
                    k = k + 1;
                }
                assert(saved_views(vals@).subrange(0, vals@.len() as int) =~= saved_views(vals@));
                return out;
            },
            None => {},
        }
        assert(rest.drop_first() =~= all.subrange(i + 1, all.len() as int));
        i = i + 1;
    }
    assert(saved_views(Seq::<SavedValue>::empty()) =~= Seq::<crate::types::SavedView>::empty());
    Vec::new()
}

} // verus!
