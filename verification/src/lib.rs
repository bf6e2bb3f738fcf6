//! Zenou Tweaks: the verified core of a reversible Windows tweak engine.

pub mod error;
pub mod text;
pub mod types;
pub mod registry;
pub mod scan;
pub mod engine;
pub mod winapi;
pub mod ops;
pub mod catalog;
pub mod catalog_ext;
pub mod commands;
pub mod backup;
pub mod settings;
pub mod flagged;
pub mod cleanup;
pub mod journal;
pub mod restore_point;

use vstd::prelude::*;
use crate::catalog::{all_tweaks, group_hooked, has_steps, CatalogEnv};
use crate::catalog_ext::{attach_group_hooks, group_lists};
use crate::engine::{AppliesTo, Tweak};
use crate::error::{error_is, ZenouError};
use crate::text::{concat3, owned, views};
use crate::types::Risk;

verus! {

/// A catalog row with its task or service group steps attached, when its id
/// names a group.
pub open spec fn hooked_row(r: crate::catalog::TweakRow) -> crate::catalog::TweakRow {
    match group_lists(r.id) {
        Some((tasks, names)) => if tasks {
            crate::catalog::TweakRow {
                apply: Some(crate::catalog::HookView::DisableTasks(names)),
                verify: Some(crate::catalog::HookView::VerifyTasksDisabled(names)),
                restore: Some(crate::catalog::HookView::RestoreTasks(names)),
                ..r
            }
        } else {
            crate::catalog::TweakRow {
                apply: Some(crate::catalog::HookView::DisableServices(names)),
                verify: Some(crate::catalog::HookView::VerifyServicesDisabled(names)),
                restore: Some(crate::catalog::HookView::RestoreServices(names)),
                ..r
            }
        },
        None => r,
    }
}

/// The catalog with the task and service group steps attached. Every tweak
/// that applies everywhere has steps, Quick Optimize only ever picks
/// low-risk tweaks, and the machine-dependent edits follow the machine.
pub fn build_catalog(env: &CatalogEnv) -> (v: Vec<Tweak>)
    ensures
        crate::catalog::machine_edits(v@, env.ram_tenths, views(env.nvidia_keys@)),
        crate::catalog::rows_of(v@) == crate::catalog::catalog_rows(env.ram_tenths, views(env.nvidia_keys@)).map_values(
            |r: crate::catalog::TweakRow| hooked_row(r),
        ),
        crate::catalog::tweak_ids(v@) == crate::catalog::performance_ids() + crate::catalog::gaming_ids()
            + crate::catalog::gpu_ids() + crate::catalog::network_ids() + crate::catalog::windows_ids(),
        forall|i: int| 0 <= i < v@.len() ==> {
            let t = #[trigger] v@[i];
            &&& t.meta.quick_optimize ==> t.meta.risk == Risk::Low
            &&& t.applies_to == AppliesTo::Always ==> has_steps(t)
        },
{
    let mut tweaks = all_tweaks(env);
    let ghost before = tweaks@;
    let mut i: usize = 0;
    while i < tweaks.len()
        invariant
            tweaks@.len() == before.len(),
            i <= tweaks@.len(),
            forall|k: int| 0 <= k < tweaks@.len() ==> (#[trigger] tweaks@[k]).meta == before[k].meta,
            forall|k: int| 0 <= k < tweaks@.len() ==> (#[trigger] tweaks@[k]).applies_to == before[k].applies_to,
            forall|k: int| 0 <= k < tweaks@.len() ==> (#[trigger] tweaks@[k]).group == before[k].group,
            forall|k: int| 0 <= k < i ==> crate::catalog::row_of(#[trigger] tweaks@[k]) == hooked_row(crate::catalog::row_of(before[k])),
            forall|k: int| i <= k < tweaks@.len() ==> #[trigger] tweaks@[k] == before[k],
            forall|k: int| 0 <= k < i ==> {
                let t = #[trigger] tweaks@[k];
                t.applies_to == AppliesTo::Always ==> has_steps(t) || !group_hooked(t.meta.id@)
            },
            forall|k: int| 0 <= k < i ==> {
                let t = #[trigger] tweaks@[k];
                !group_hooked(t.meta.id@) ==> has_steps(t) == has_steps(before[k])
            },
        decreases tweaks.len() - i,
    {
        let mut t = tweaks.remove(i);
        let id = crate::text::copy_string(&t.meta.id);
        let is_group = crate::text::str_eq(id.as_str(), "win.telemetry-tasks")
            || crate::text::str_eq(id.as_str(), "win.unnecessary-services")
            || crate::text::str_eq(id.as_str(), "gpu.nvidia-telemetry");
        let ghost t0 = t;
        if is_group {
            attach_group_hooks(&mut t, id.as_str());
        }
        proof {
            assert(t0 == before[i as int]);
            if !is_group {
                assert(group_lists(t0.meta.id@) is None);
            }
            assert(crate::catalog::row_of(t) =~~= hooked_row(crate::catalog::row_of(t0)));
        }
        tweaks.insert(i, t);
        i = i + 1;
    }
    assert(crate::catalog::tweak_ids(tweaks@) =~= crate::catalog::tweak_ids(before));
    assert(crate::catalog::edits_at(tweaks@, 5) == crate::catalog::edits_at(before, 5));
    assert(crate::catalog::edits_at(tweaks@, 42) == crate::catalog::edits_at(before, 42));
    assert(crate::catalog::edits_at(tweaks@, 44) == crate::catalog::edits_at(before, 44));
    assert(crate::catalog::rows_of(tweaks@) =~= crate::catalog::rows_of(before).map_values(
        |r: crate::catalog::TweakRow| hooked_row(r),
    ));
    tweaks
}


/// The tweak with id `id`, or an error naming the unknown id.
pub fn find_tweak<'a>(catalog: &'a [Tweak], id: &str) -> (r: Result<&'a Tweak, ZenouError>)
    ensures
        match r {
            Ok(t) => exists|i: int|
                0 <= i < catalog@.len() && catalog@[i] == *t && t.meta.id@ == id@ && forall|j: int|
                    0 <= j < i ==> (#[trigger] catalog@[j]).meta.id@ != id@,
            Err(e) => (forall|j: int| 0 <= j < catalog@.len() ==> (#[trigger] catalog@[j]).meta.id@ != id@)
                && error_is(e, "state"@, "Unknown tweak \""@ + id@ + "\"."@, None),
        },
{
    let mut i: usize = 0;
    while i < catalog.len()
        invariant
            i <= catalog@.len(),
            forall|j: int| 0 <= j < i ==> (#[trigger] catalog@[j]).meta.id@ != id@,
        decreases catalog.len() - i,
    {
        if crate::text::str_eq(catalog[i].meta.id.as_str(), id) {
            return Ok(&catalog[i]);
        }
        i = i + 1;
    }
    Err(ZenouError::state(concat3("Unknown tweak \"", id, "\".")))
}

/// Session state shared by operations: the ids of tweaks with an operation
/// running, and whether a restore point was created this session.
pub struct AppState {
    pub busy: Vec<String>,
    pub restore_point_done: bool,
}

/// `s` without any occurrence of `x`.
pub open spec fn remove_all(s: Seq<Seq<char>>, x: Seq<char>) -> Seq<Seq<char>>
    decreases s.len(),
{
    if s.len() == 0 {
        s
    } else if s.last() == x {
        remove_all(s.drop_last(), x)
    } else {
        remove_all(s.drop_last(), x).push(s.last())
    }
}

/// Releasing a tweak removes every mark of it and keeps every other mark, in
/// order.
pub proof fn law_remove_all(s: Seq<Seq<char>>, x: Seq<char>)
    ensures
        remove_all(s, x) == s.filter(|y: Seq<char>| y != x),
    decreases s.len(),
{
    reveal(Seq::filter);
    if s.len() > 0 {
        law_remove_all(s.drop_last(), x);
    }
}

/// The session's bookkeeping is consistent: a tweak is marked running at most once.
pub open spec fn busy_wf(s: AppState) -> bool {
    views(s.busy@).no_duplicates()
}

proof fn lemma_remove_all_subset(s: Seq<Seq<char>>, x: Seq<char>)
    ensures
        forall|y: Seq<char>| #[trigger] remove_all(s, x).contains(y) ==> s.contains(y) && y != x,
        s.no_duplicates() ==> remove_all(s, x).no_duplicates(),
    decreases s.len(),
{
    if s.len() > 0 {
        let p = s.drop_last();
        lemma_remove_all_subset(p, x);
        assert forall|y: Seq<char>| p.contains(y) implies s.contains(y) by {
            let k = choose|k: int| 0 <= k < p.len() && p[k] == y;
            assert(s[k] == y);
        }
        assert(s[s.len() - 1] == s.last());
        if s.last() != x {
            let r = remove_all(p, x);
            assert forall|y: Seq<char>| #[trigger] r.push(s.last()).contains(y) implies s.contains(y) && y != x by {
                if !r.contains(y) {
                    let k = choose|k: int| 0 <= k < r.push(s.last()).len() && r.push(s.last())[k] == y;
                    assert(k == r.len());
                }
            }
            if s.no_duplicates() {
                assert(!p.contains(s.last())) by {
                    if p.contains(s.last()) {
                        let k = choose|k: int| 0 <= k < p.len() && p[k] == s.last();
                        assert(s[k] == s[s.len() - 1]);
                    }
                }
                assert(p.no_duplicates()) by {
                    assert forall|i: int, j: int| 0 <= i < p.len() && 0 <= j < p.len() && i != j implies p[i] != p[j] by {
                        assert(s[i] != s[j]);
                    }
                }
                assert(!r.contains(s.last()));
                assert forall|i: int, j: int| 0 <= i < r.push(s.last()).len() && 0 <= j < r.push(s.last()).len() && i != j
                    implies r.push(s.last())[i] != r.push(s.last())[j] by {
                    if i < r.len() && j < r.len() {
                    } else if i < r.len() {
                        assert(r.contains(r[i]));
                    } else if j < r.len() {
                        assert(r.contains(r[j]));
                    }
                }
            }
        } else {
            if s.no_duplicates() {
                assert(p.no_duplicates()) by {
                    assert forall|i: int, j: int| 0 <= i < p.len() && 0 <= j < p.len() && i != j implies p[i] != p[j] by {
                        assert(s[i] != s[j]);
                    }
                }
            }
        }
    }
}

impl AppState {
    /// A session with nothing running and no restore point yet.
    pub fn new() -> (s: AppState)
        ensures
            busy_wf(s),
            views(s.busy@) == Seq::<Seq<char>>::empty(),
            !s.restore_point_done,
    {
        let s = AppState { busy: Vec::new(), restore_point_done: false };
        assert(views(s.busy@) =~= Seq::<Seq<char>>::empty());
        s
    }
}

/// Takes the operation lock of tweak `id`: refused while an operation on it is running.
pub fn acquire_lock(state: &mut AppState, id: &str) -> (r: Result<(), ZenouError>)
    ensures
        views(old(state).busy@).contains(id@) ==> (r matches Err(e) && error_is(
            e,
            "state"@,
            "This tweak already has an operation running. Wait for it to finish."@,
            None,
        )) && views(final(state).busy@) == views(old(state).busy@),
        !views(old(state).busy@).contains(id@) ==> r is Ok && views(final(state).busy@) == views(
            old(state).busy@,
        ).push(id@),
        final(state).restore_point_done == old(state).restore_point_done,
        busy_wf(*old(state)) ==> busy_wf(*final(state)),
{
    let mut i: usize = 0;
    while i < state.busy.len()
        invariant
            i <= state.busy@.len(),
            forall|k: int| 0 <= k < i ==> (#[trigger] state.busy@[k])@ != id@,
        decreases state.busy.len() - i,
    {
        if crate::text::str_eq(state.busy[i].as_str(), id) {
            assert(views(state.busy@)[i as int] == id@);
            return Err(ZenouError::state(owned("This tweak already has an operation running. Wait for it to finish.")));
        }
        i = i + 1;
    }
    assert(!views(state.busy@).contains(id@)) by {
        assert forall|k: int| 0 <= k < views(state.busy@).len() implies views(state.busy@)[k] != id@ by {
            assert(state.busy@[k]@ != id@);
        }
    }
    let ghost before = views(state.busy@);
    state.busy.push(owned(id));
    assert(views(state.busy@) =~= before.push(id@));
    proof {
        if before.no_duplicates() {
            assert forall|a: int, b: int| 0 <= a < views(state.busy@).len() && 0 <= b < views(state.busy@).len() && a != b
                implies views(state.busy@)[a] != views(state.busy@)[b] by {
                if a < before.len() && b < before.len() {
                } else if a < before.len() {
                    assert(before.contains(before[a]));
                } else if b < before.len() {
                    assert(before.contains(before[b]));
                }
            }
        }
    }
    Ok(())
}

/// Releases the operation lock of tweak `id`.
pub fn release_lock(state: &mut AppState, id: &str)
    ensures
        views(final(state).busy@) == remove_all(views(old(state).busy@), id@),
        final(state).restore_point_done == old(state).restore_point_done,
        busy_wf(*old(state)) ==> busy_wf(*final(state)),
{
    let ghost all = views(state.busy@);
    let mut kept: Vec<String> = Vec::new();
    let mut old_busy: Vec<String> = Vec::new();
    std::mem::swap(&mut old_busy, &mut state.busy);
    let mut i: usize = 0;
    assert(all.subrange(0, 0) =~= Seq::<Seq<char>>::empty());
    while i < old_busy.len()
        invariant
            views(old_busy@) == all,
            i <= old_busy@.len(),
            views(kept@) == remove_all(all.subrange(0, i as int), id@),
        decreases old_busy.len() - i,
    {
        assert(all.subrange(0, i + 1).drop_last() =~= all.subrange(0, i as int));
        assert(all.subrange(0, i + 1).last() == old_busy@[i as int]@);
        if !crate::text::str_eq(old_busy[i].as_str(), id) {
            let ghost before = views(kept@);
            let c = crate::text::copy_string(&old_busy[i]);
            kept.push(c);
            assert(views(kept@) =~= before.push(old_busy@[i as int]@));
        }
        i = i + 1;
    }
    assert(all.subrange(0, old_busy@.len() as int) =~= all);
    proof {
        lemma_remove_all_subset(all, id@);
    }
    state.busy = kept;
}

proof fn lemma_remove_absent(s: Seq<Seq<char>>, x: Seq<char>)
    requires
        !s.contains(x),
    ensures
        remove_all(s, x) == s,
    decreases s.len(),
{
    if s.len() > 0 {
        assert(!s.drop_last().contains(x)) by {
            if s.drop_last().contains(x) {
                let k = choose|k: int| 0 <= k < s.drop_last().len() && s.drop_last()[k] == x;
                assert(s[k] == x);
            }
        }
        assert(s.last() != x) by {
            assert(s[s.len() - 1] == s.last());
        }
        lemma_remove_absent(s.drop_last(), x);
        assert(s.drop_last().push(s.last()) =~= s);
    }
}

/// Operation locks: while an operation on a tweak runs, a second one on the
/// same tweak is refused; once it is released, the running set is what it
/// was before the operation took the lock.
pub proof fn law_lock_round_trip(busy: Seq<Seq<char>>, id: Seq<char>)
    requires
        !busy.contains(id),
    ensures
        busy.push(id).contains(id),
        remove_all(busy.push(id), id) == busy,
{
    assert(busy.push(id)[busy.len() as int] == id);
    assert(busy.push(id).drop_last() =~= busy);
    lemma_remove_absent(busy, id);
}

/// A restore point is needed when forced, or once per session when the setting asks for one.
pub open spec fn restore_point_needed(done: bool, forced: bool, setting_enabled: bool) -> bool {
    forced || (!done && setting_enabled)
}

/// Whether a restore point is to be created before risky work: once per
/// session, or every time it is forced; not at all when the setting is off
/// and nothing forces it. A decision to create one marks the session.
pub fn ensure_restore_point(state: &mut AppState, forced: bool, setting_enabled: bool) -> (need: bool)
    ensures
        need == restore_point_needed(old(state).restore_point_done, forced, setting_enabled),
        final(state).restore_point_done == (old(state).restore_point_done || need),
        views(final(state).busy@) == views(old(state).busy@),
{
    if state.restore_point_done && !forced {
        false
    } else if forced || setting_enabled {
        state.restore_point_done = true;
        true
    } else {
        false
    }
}

/// A restore point is created at most once per session unless forced:
/// after one was decided, an unforced request decides none.
pub proof fn law_restore_point_once(done: bool, forced: bool, setting: bool, later_setting: bool)
    requires
        restore_point_needed(done, forced, setting),
    ensures
        !restore_point_needed(done || restore_point_needed(done, forced, setting), false, later_setting),
{
}

} // verus!
