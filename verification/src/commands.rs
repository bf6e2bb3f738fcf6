//! The decisions behind the application's commands: result assembly, step
//! reports, restore-point policy, profiles, favorites and cleanup dispatch.
//! The commands themselves (locks, I/O, events) run in the host around them.

use vstd::prelude::*;
use crate::error::{error_is, ZenouError};
use crate::text::{concat3, copy_opt, copy_string, opt_view, owned, push_str, views};
use crate::types::{outcome_views, ChangePreview, OutcomeView, Risk, StepOutcome, TweakMeta, TweakResult, TweakState};

verus! {

/// The message of the last step that has one, newest first.
pub open spec fn last_error_spec(steps: Seq<OutcomeView>) -> Seq<char>
    decreases steps.len(),
{
    if steps.len() == 0 {
        "The operation did not complete."@
    } else {
        match steps.last().error {
            Some(e) => e,
            None => last_error_spec(steps.drop_last()),
        }
    }
}

/// The error shown for a failed operation is the message of the last step
/// that has one; with no such step it is the fixed fallback message.
pub proof fn law_last_error(steps: Seq<OutcomeView>)
    ensures
        (forall|i: int| 0 <= i < steps.len() ==> (#[trigger] steps[i]).error is None) ==> last_error_spec(steps)
            == "The operation did not complete."@,
        forall|i: int|
            0 <= i < steps.len() && (#[trigger] steps[i]).error is Some && (forall|k: int|
                i < k < steps.len() ==> steps[k].error is None) ==> last_error_spec(steps) == steps[i].error->0,
    decreases steps.len(),
{
    if steps.len() > 0 {
        let s1 = steps.drop_last();
        law_last_error(s1);
        let n = steps.len() - 1;
        assert(steps[n] == steps.last());
        assert forall|i: int| 0 <= i < s1.len() implies #[trigger] s1[i] == steps[i] by {}
        if steps.last().error is None {
            assert forall|i: int|
                0 <= i < steps.len() && (#[trigger] steps[i]).error is Some && (forall|k: int|
                    i < k < steps.len() ==> steps[k].error is None) implies last_error_spec(steps)
                == steps[i].error->0 by {
                assert(i < n);
                assert(s1[i] == steps[i]);
                assert forall|k: int| i < k < s1.len() implies s1[k].error is None by {
                    assert(s1[k] == steps[k]);
                }
            }
            if forall|i: int| 0 <= i < steps.len() ==> (#[trigger] steps[i]).error is None {
                assert forall|i: int| 0 <= i < s1.len() implies (#[trigger] s1[i]).error is None by {
                    assert(s1[i] == steps[i]);
                }
            }
        } else {
            assert forall|i: int|
                0 <= i < steps.len() && (#[trigger] steps[i]).error is Some && (forall|k: int|
                    i < k < steps.len() ==> steps[k].error is None) implies last_error_spec(steps)
                == steps[i].error->0 by {
                if i < n {
                    assert(steps[n].error is None);
                }
            }
        }
    }
}

/// The error shown for a failed operation: the last step error.
pub fn last_error(steps: &[StepOutcome]) -> (r: String)
    ensures
        r@ == last_error_spec(outcome_views(steps@)),
{
    let ghost all = outcome_views(steps@);
    let mut i: usize = steps.len();
    assert(all.subrange(0, all.len() as int) =~= all);
    while i > 0
        invariant
            all == outcome_views(steps@),
            i <= steps@.len(),
            last_error_spec(all) == last_error_spec(all.subrange(0, i as int)),
        decreases i,
    {
        let ghost pre = all.subrange(0, i as int);
        assert(pre.last() == steps@[i - 1]@);
        match &steps[i - 1].error {
            Some(e) => {
                return copy_string(e);
            },
            None => {},
        }
        assert(pre.drop_last() =~= all.subrange(0, i - 1));
        i = i - 1;
    }
    owned("The operation did not complete.")
}

/// One line of a step report: "location -> OK" or "location -> FAILED",
/// followed by ": error" when the step has one.
pub open spec fn step_line(o: OutcomeView) -> Seq<char> {
    o.location + " -> "@ + (if o.ok {
        "OK"@
    } else {
        "FAILED"@
    }) + match o.error {
        Some(e) => ": "@ + e,
        None => Seq::empty(),
    }
}

/// The lines of a step report joined with newlines.
pub open spec fn step_report(steps: Seq<OutcomeView>) -> Seq<char>
    decreases steps.len(),
{
    if steps.len() == 0 {
        Seq::empty()
    } else if steps.len() == 1 {
        step_line(steps[0])
    } else {
        step_report(steps.drop_last()) + "\n"@ + step_line(steps.last())
    }
}

/// The technical report of an operation's steps.
pub fn format_steps(steps: &[StepOutcome]) -> (r: String)
    ensures
        r@ == step_report(outcome_views(steps@)),
{
    let ghost all = outcome_views(steps@);
    let mut r = String::new();
    let mut i: usize = 0;
    assert(all.subrange(0, 0) =~= Seq::<OutcomeView>::empty());
    while i < steps.len()
        invariant
            all == outcome_views(steps@),
            i <= steps@.len(),
            r@ == step_report(all.subrange(0, i as int)),
        decreases steps.len() - i,
    {
        let s = &steps[i];
        let ghost before = r@;
        if i > 0 {
            push_str(&mut r, "\n");
        }
        push_str(&mut r, s.location.as_str());
        push_str(&mut r, " -> ");
        push_str(&mut r, if s.ok { "OK" } else { "FAILED" });
        match &s.error {
            Some(e) => {
                push_str(&mut r, ": ");
                push_str(&mut r, e.as_str());
            },
            None => {},
        }
        proof {
            let pre = all.subrange(0, i as int);
            let next = all.subrange(0, i + 1);
            assert(next.drop_last() =~= pre);
            assert(next.last() == s@);
            if i == 0 {
                assert(next.len() == 1);
                assert(r@ =~= step_line(s@));
            } else {
                assert(r@ =~= before + "\n"@ + step_line(s@));
            }
        }
        i = i + 1;
    }
    assert(all.subrange(0, steps@.len() as int) =~= all);
    r
}

/// The technical report of an operation's steps.
pub fn format_steps_public(steps: &[StepOutcome]) -> (r: String)
    ensures
        r@ == step_report(outcome_views(steps@)),
{
    format_steps(steps)
}

/// Every step succeeded.
pub open spec fn all_ok(steps: Seq<OutcomeView>) -> bool {
    forall|i: int| 0 <= i < steps.len() ==> (#[trigger] steps[i]).ok
}

fn steps_ok(steps: &[StepOutcome]) -> (r: bool)
    ensures
        r == all_ok(outcome_views(steps@)),
{
    let mut i: usize = 0;
    let mut ok = true;
    while i < steps.len()
        invariant
            i <= steps@.len(),
            ok <==> forall|k: int| 0 <= k < i ==> (#[trigger] outcome_views(steps@)[k]).ok,
        decreases steps.len() - i,
    {
        assert(outcome_views(steps@)[i as int] == steps@[i as int]@);
        if !steps[i].ok {
            ok = false;
        }
        i = i + 1;
    }
    ok
}

/// The result of applying or restoring a tweak: a success when every step
/// succeeded, otherwise the last step error and the step report; a restart
/// is asked for only after a successful operation that needs one.
pub fn tweak_result(tweak_id: &str, restart_required: bool, steps: Vec<StepOutcome>) -> (r: TweakResult)
    ensures
        r.tweak_id@ == tweak_id@,
        r.success == all_ok(outcome_views(steps@)),
        !r.skipped,
        opt_view(r.error) == if r.success {
            None
        } else {
            Some(last_error_spec(outcome_views(steps@)))
        },
        opt_view(r.details) == if r.success {
            None
        } else {
            Some(step_report(outcome_views(steps@)))
        },
        r.restart_required == (restart_required && r.success),
        outcome_views(r.steps@) == outcome_views(steps@),
{
    let success = steps_ok(steps.as_slice());
    let error = if success {
        None
    } else {
        Some(last_error(steps.as_slice()))
    };
    let details = if success {
        None
    } else {
        Some(format_steps(steps.as_slice()))
    };
    TweakResult {
        tweak_id: owned(tweak_id),
        success,
        skipped: false,
        error,
        details,
        restart_required: restart_required && success,
        steps,
    }
}

/// A failed result with a message and details and no steps.
pub open spec fn failed_result(r: TweakResult, tweak_id: Seq<char>, message: Seq<char>, details: Option<Seq<char>>) -> bool {
    &&& r.tweak_id@ == tweak_id
    &&& !r.success
    &&& !r.skipped
    &&& opt_view(r.error) == Some(message)
    &&& opt_view(r.details) == details
    &&& !r.restart_required
    &&& r.steps@.len() == 0
}

/// The message of a tweak refused for want of administrator rights.
pub open spec fn admin_required_msg() -> Seq<char> {
    "Administrator permission is required. Right-click Zenou Tweaks in the Start menu and choose \"Run as administrator\", then apply this tweak again."@
}

/// A tweak that needs administrator rights is refused without them.
pub fn admin_blocked(requires_admin: bool, elevated: bool) -> (r: bool)
    ensures
        r == (requires_admin && !elevated),
{
    requires_admin && !elevated
}

/// The result of a tweak refused for want of administrator rights.
pub fn admin_required_result(tweak_id: &str) -> (r: TweakResult)
    ensures
        failed_result(r, tweak_id@, admin_required_msg(), None),
{
    TweakResult {
        tweak_id: owned(tweak_id),
        success: false,
        skipped: false,
        error: Some(owned(
            "Administrator permission is required. Right-click Zenou Tweaks in the Start menu and choose \"Run as administrator\", then apply this tweak again.",
        )),
        details: None,
        restart_required: false,
        steps: Vec::new(),
    }
}

/// Whether an operation needs a restore point first, and whether it is
/// forced: applying a medium-risk tweak asks for one (subject to the
/// setting), applying a high-risk one forces it.
pub fn restore_point_policy(applying: bool, risk: Risk) -> (r: Option<bool>)
    ensures
        r == if applying && (risk == Risk::High || risk == Risk::Medium) {
            Some(risk == Risk::High)
        } else {
            None::<bool>
        },
{
    if applying && (risk == Risk::High || risk == Risk::Medium) {
        Some(risk == Risk::High)
    } else {
        None
    }
}

/// One stage of applying or restoring a single tweak.
#[derive(Debug, Clone, Copy, PartialEq, Eq, Structural)]
pub enum OpStage {
    /// Create a restore point first (`true`: forced, its failure blocks the tweak).
    RestorePoint(bool),
    /// Record the automatic backup of the tweak's current values.
    Backup,
    /// Apply the tweak.
    Apply,
    /// Restore the tweak from its latest automatic backup.
    Restore,
}

/// The stages of an operation, in order: the restore point that the policy
/// asks for, then, when applying, the backup and the change; when
/// restoring, the restore alone.
pub open spec fn operation_plan_spec(applying: bool, risk: Risk) -> Seq<OpStage> {
    let first = if applying && (risk == Risk::High || risk == Risk::Medium) {
        seq![OpStage::RestorePoint(risk == Risk::High)]
    } else {
        Seq::<OpStage>::empty()
    };
    first + if applying {
        seq![OpStage::Backup, OpStage::Apply]
    } else {
        seq![OpStage::Restore]
    }
}

/// The stages of applying (or restoring) a tweak of the given risk.
pub fn operation_plan(applying: bool, risk: Risk) -> (v: Vec<OpStage>)
    ensures
        v@ == operation_plan_spec(applying, risk),
{
    let mut v: Vec<OpStage> = Vec::new();
    match restore_point_policy(applying, risk) {
        Some(forced) => v.push(OpStage::RestorePoint(forced)),
        None => {},
    }
    if applying {
        v.push(OpStage::Backup);
        v.push(OpStage::Apply);
    } else {
        v.push(OpStage::Restore);
    }
    assert(v@ =~= operation_plan_spec(applying, risk));
    v
}

/// Safety order: a change is made only after the automatic backup of the
/// values it touches, which comes right before it, and a restore point, when
/// the policy asks for one, is created before both.
pub proof fn law_backup_before_change(applying: bool, risk: Risk)
    ensures
        ({
            let v = operation_plan_spec(applying, risk);
            &&& applying ==> v.len() >= 2 && v.last() == OpStage::Apply && v[v.len() - 2] == OpStage::Backup
            &&& forall|i: int| 0 <= i < v.len() && (#[trigger] v[i]) is RestorePoint ==> i == 0
            &&& !applying ==> v == seq![OpStage::Restore]
        }),
{
    let v = operation_plan_spec(applying, risk);
    assert(!applying ==> v =~= seq![OpStage::Restore]);
}

/// The result when the restore point could not be created: a forced one
/// blocks the tweak with the failure; an optional one does not block.
pub fn restore_point_failure(tweak_id: &str, forced: bool, e: ZenouError) -> (r: Option<TweakResult>)
    ensures
        forced ==> (r matches Some(x) && failed_result(x, tweak_id@, e.message@, opt_view(e.details))),
        !forced ==> r is None,
{
    if forced {
        Some(TweakResult {
            tweak_id: owned(tweak_id),
            success: false,
            skipped: false,
            error: Some(e.message),
            details: e.details,
            restart_required: false,
            steps: Vec::new(),
        })
    } else {
        None
    }
}

/// The result of a group member whose operation could not run.
pub fn group_failure_result(tweak_id: &String, e: ZenouError) -> (r: TweakResult)
    ensures
        failed_result(r, tweak_id@, e.message@, opt_view(e.details)),
{
    TweakResult {
        tweak_id: copy_string(tweak_id),
        success: false,
        skipped: false,
        error: Some(e.message),
        details: e.details,
        restart_required: false,
        steps: Vec::new(),
    }
}

/// The label of the automatic backup taken before an operation.
pub fn before_label(name: &str) -> (r: String)
    ensures
        r@ == "Before: "@ + name@,
{
    crate::text::concat2("Before: ", name)
}

/// The step of putting back one recorded value: at "hive\path", failed with
/// the error message when the restore failed.
pub fn restored_value_outcome(v: &crate::types::SavedValue, result: Result<(), ZenouError>) -> (o: StepOutcome)
    ensures
        o@ == match result {
            Ok(_) => crate::types::ok_step(v.hive@ + "\\"@ + v.path@),
            Err(e) => crate::types::failed_step(v.hive@ + "\\"@ + v.path@, e.message@),
        },
{
    let loc = concat3(v.hive.as_str(), "\\", v.path.as_str());
    match result {
        Ok(_) => StepOutcome::success(loc),
        Err(e) => StepOutcome::failure(loc, e.message),
    }
}

/// The result of restoring one backup entry: a success when every value was
/// put back, otherwise "Some values could not be restored."; the step report
/// is attached as details when `with_details`.
pub fn entry_result(tweak_id: &String, steps: Vec<StepOutcome>, with_details: bool) -> (r: TweakResult)
    ensures
        r.tweak_id@ == tweak_id@,
        r.success == all_ok(outcome_views(steps@)),
        !r.skipped,
        opt_view(r.error) == if r.success {
            None
        } else {
            Some("Some values could not be restored."@)
        },
        opt_view(r.details) == if with_details {
            Some(step_report(outcome_views(steps@)))
        } else {
            None
        },
        !r.restart_required,
        outcome_views(r.steps@) == outcome_views(steps@),
{
    let success = steps_ok(steps.as_slice());
    let details = if with_details {
        Some(format_steps(steps.as_slice()))
    } else {
        None
    };
    TweakResult {
        tweak_id: copy_string(tweak_id),
        success,
        skipped: false,
        error: if success {
            None
        } else {
            Some(owned("Some values could not be restored."))
        },
        details,
        restart_required: false,
        steps,
    }
}

/// The label of a backup restore.
pub fn backup_restore_label(label: &str) -> (r: String)
    ensures
        r@ == "Restore backup \""@ + label@ + "\""@,
{
    concat3("Restore backup \"", label, "\"")
}

/// The label of a change-set restore.
pub fn change_restore_label(label: &str) -> (r: String)
    ensures
        r@ == "Restore change \""@ + label@ + "\""@,
{
    concat3("Restore change \"", label, "\"")
}

/// The error when a change set has no backup to restore from.
pub fn change_without_backup(backup_id: &Option<String>) -> (r: Result<String, ZenouError>)
    ensures
        match backup_id {
            Some(b) => r matches Ok(x) && x@ == b@,
            None => r matches Err(e) && error_is(
                e,
                "state"@,
                "This change was not paired with a backup, so it cannot be restored automatically. Restore the individual tweaks instead."@,
                None,
            ),
        },
{
    match backup_id {
        Some(b) => Ok(copy_string(b)),
        None => Err(ZenouError::state(owned(
            "This change was not paired with a backup, so it cannot be restored automatically. Restore the individual tweaks instead.",
        ))),
    }
}

/// What the tweak list shows of one tweak.
pub struct TweakView {
    pub meta: TweakMeta,
    pub state: TweakState,
    pub previews: Vec<ChangePreview>,
    pub favorite: bool,
}

/// Whether `id` is among the favorites.
pub fn is_favorite(favorites: &Vec<String>, id: &String) -> (r: bool)
    ensures
        r == views(favorites@).contains(id@),
{
    let mut i: usize = 0;
    let mut found = false;
    while i < favorites.len()
        invariant
            i <= favorites@.len(),
            found <==> exists|k: int| 0 <= k < i && (#[trigger] favorites@[k])@ == id@,
        decreases favorites.len() - i,
    {
        if crate::text::str_eq(favorites[i].as_str(), id.as_str()) {
            found = true;
        }
        i = i + 1;
    }
    proof {
        if found {
            let k = choose|k: int| 0 <= k < favorites@.len() && (#[trigger] favorites@[k])@ == id@;
            assert(views(favorites@)[k] == id@);
        } else {
            assert forall|k: int| 0 <= k < views(favorites@).len() implies views(favorites@)[k] != id@ by {
                assert(favorites@[k]@ != id@);
            }
        }
    }
    found
}

/// The list entry of a tweak.
pub fn tweak_view(meta: TweakMeta, state: TweakState, previews: Vec<ChangePreview>, favorites: &Vec<String>) -> (v: TweakView)
    ensures
        v.meta == meta,
        v.state == state,
        v.previews == previews,
        v.favorite == views(favorites@).contains(meta.id@),
{
    let favorite = is_favorite(favorites, &meta.id);
    TweakView { meta, state, previews, favorite }
}


// ---------------------------------------------------------------- profiles

/// A named collection of tweaks, applied together after review.
pub struct Profile {
    pub id: String,
    pub name: String,
    pub description: String,
    pub tweak_ids: Vec<String>,
    pub builtin: bool,
}

/// The ids and tweak lists of the built-in profiles, in order.
pub open spec fn builtin_profile_rows() -> Seq<(Seq<char>, Seq<Seq<char>>)> {
    seq![
        ("profile.gaming"@, seq!["game.game-mode-on"@, "game.disable-game-bar"@, "game.disable-game-dvr"@, "game.mouse-accurate"@, "game.keyboard-delay"@, "perf.menu-delay"@, "perf.system-responsiveness"@]),
        ("profile.low-latency"@, seq!["perf.system-responsiveness"@, "perf.games-task-priority"@, "game.mouse-hover-fast"@, "gpu.monitor-latency"@]),
        ("profile.balanced"@, seq!["win.telemetry-minimal"@, "win.advertising-id"@, "win.suggested-apps"@, "perf.menu-delay"@, "net.dns-cache-timers"@]),
        ("profile.streaming"@, seq!["win.notifications-off"@, "perf.background-apps-off"@, "perf.system-responsiveness"@]),
    ]
}

/// `p` is built-in profile row `row`.
pub open spec fn profile_is(p: Profile, row: (Seq<char>, Seq<Seq<char>>)) -> bool {
    p.id@ == row.0 && views(p.tweak_ids@) == row.1 && p.builtin
}

fn builtin(id: &str, name: &str, description: &str, ids: Vec<&str>) -> (p: Profile)
    ensures
        p.id@ == id@,
        p.name@ == name@,
        p.description@ == description@,
        views(p.tweak_ids@) == ids@.map_values(|s: &str| s@),
        p.builtin,
{
    let mut t: Vec<String> = Vec::new();
    let mut i: usize = 0;
    while i < ids.len()
        invariant
            i <= ids@.len(),
            views(t@) == ids@.map_values(|s: &str| s@).subrange(0, i as int),
        decreases ids.len() - i,
    {
        crate::text::push_owned(&mut t, ids[i]);
        assert(ids@.map_values(|s: &str| s@).subrange(0, i + 1) =~= ids@.map_values(|s: &str| s@).subrange(
            0,
            i as int,
        ).push(ids@[i as int]@));
        i = i + 1;
    }
    assert(ids@.map_values(|s: &str| s@).subrange(0, ids@.len() as int) =~= ids@.map_values(|s: &str| s@));
    Profile { id: owned(id), name: owned(name), description: owned(description), tweak_ids: t, builtin: true }
}

/// The built-in profiles: Gaming, Low Latency, Balanced and Streaming.
pub fn builtin_profiles() -> (v: Vec<Profile>)
    ensures
        v@.len() == builtin_profile_rows().len(),
        forall|i: int| 0 <= i < v@.len() ==> profile_is(#[trigger] v@[i], builtin_profile_rows()[i]),
{
    let mut out: Vec<Profile> = Vec::new();
    out.push(builtin("profile.gaming", "Gaming", "Game Mode on, Game Bar/DVR off, responsive input, GPU scheduling.", vec!["game.game-mode-on", "game.disable-game-bar", "game.disable-game-dvr", "game.mouse-accurate", "game.keyboard-delay", "perf.menu-delay", "perf.system-responsiveness"]));
    assert(views(out@[0].tweak_ids@) =~= seq!["game.game-mode-on"@, "game.disable-game-bar"@, "game.disable-game-dvr"@, "game.mouse-accurate"@, "game.keyboard-delay"@, "perf.menu-delay"@, "perf.system-responsiveness"@]);
    out.push(builtin("profile.low-latency", "Low Latency", "Multimedia priorities and responsiveness for lower input latency.", vec!["perf.system-responsiveness", "perf.games-task-priority", "game.mouse-hover-fast", "gpu.monitor-latency"]));
    assert(views(out@[1].tweak_ids@) =~= seq!["perf.system-responsiveness"@, "perf.games-task-priority"@, "game.mouse-hover-fast"@, "gpu.monitor-latency"@]);
    out.push(builtin("profile.balanced", "Balanced", "Safe everyday optimizations: telemetry off, suggested apps off, DNS cache tweaks.", vec!["win.telemetry-minimal", "win.advertising-id", "win.suggested-apps", "perf.menu-delay", "net.dns-cache-timers"]));
    assert(views(out@[2].tweak_ids@) =~= seq!["win.telemetry-minimal"@, "win.advertising-id"@, "win.suggested-apps"@, "perf.menu-delay"@, "net.dns-cache-timers"@]);
    out.push(builtin("profile.streaming", "Streaming", "Keeps Game Bar/capture available for broadcasting, trims background noise instead.", vec!["win.notifications-off", "perf.background-apps-off", "perf.system-responsiveness"]));
    assert(views(out@[3].tweak_ids@) =~= seq!["win.notifications-off"@, "perf.background-apps-off"@, "perf.system-responsiveness"@]);
    out
}

/// Every profile: the built-in ones, then the custom ones stored by the user.
pub fn list_profiles(custom: Vec<Profile>) -> (v: Vec<Profile>)
    ensures
        v@.len() == builtin_profile_rows().len() + custom@.len(),
        forall|i: int| 0 <= i < builtin_profile_rows().len() ==> profile_is(#[trigger] v@[i], builtin_profile_rows()[i]),
        v@.subrange(builtin_profile_rows().len() as int, v@.len() as int) == custom@,
{
    let mut out = builtin_profiles();
    let ghost b = out@;
    let mut c = custom;
    out.append(&mut c);
    assert(out@.subrange(builtin_profile_rows().len() as int, out@.len() as int) =~= custom@);
    out
}

/// `s` with every space replaced by a hyphen.
pub open spec fn hyphenate(s: Seq<char>) -> Seq<char> {
    s.map_values(|c: char| if c == ' ' { '-' } else { c })
}

/// The id of a custom profile: "profile.custom-" and its lowercase name with
/// spaces turned into hyphens.
pub fn custom_profile_id(name: &str) -> (r: String)
    ensures
        r@ == "profile.custom-"@ + hyphenate(crate::text::lowercase_of(name@)),
{
    let low = crate::text::to_lowercase(name);
    let cs = crate::text::chars_of(low.as_str());
    let mut r = owned("profile.custom-");
    let ghost start = r@;
    let mut i: usize = 0;
    while i < cs.len()
        invariant
            start == "profile.custom-"@,
            i <= cs@.len(),
            r@ == start + hyphenate(cs@.subrange(0, i as int)),
        decreases cs.len() - i,
    {
        let c = cs[i];
        crate::text::push_char(&mut r, if c == ' ' { '-' } else { c });
        assert(hyphenate(cs@.subrange(0, i + 1)) =~= hyphenate(cs@.subrange(0, i as int)).push(
            if c == ' ' { '-' } else { c },
        ));
        i = i + 1;
    }
    assert(cs@.subrange(0, cs@.len() as int) =~= cs@);
    r
}

/// The profiles of `s` whose name is not `name`, in order.
pub open spec fn without_name(s: Seq<Profile>, name: Seq<char>) -> Seq<Profile>
    decreases s.len(),
{
    if s.len() == 0 {
        s
    } else if s[0].name@ != name {
        seq![s[0]] + without_name(s.drop_first(), name)
    } else {
        without_name(s.drop_first(), name)
    }
}

/// Whether a profile's name is other than `name`.
pub open spec fn not_named(name: Seq<char>) -> spec_fn(Profile) -> bool {
    |p: Profile| p.name@ != name
}

/// Removing a name keeps every profile whose name differs and drops every
/// one with that name, in order: the result is the list filtered by
/// name != the removed name.
pub proof fn law_without_name(s: Seq<Profile>, name: Seq<char>)
    ensures
        without_name(s, name) == s.filter(not_named(name)),
    decreases s.len(),
{
    if s.len() > 0 {
        let rest = s.drop_first();
        law_without_name(rest, name);
        assert(s =~= seq![s[0]] + rest);
        rest.lemma_filter_prepend(s[0], not_named(name));
        if s[0].name@ != name {
        } else {
            assert(Seq::<Profile>::empty() + rest.filter(not_named(name)) =~= rest.filter(not_named(name)));
        }
    }
}

fn remove_named(list: Vec<Profile>, name: &str) -> (r: Vec<Profile>)
    ensures
        r@ == without_name(list@, name@),
        r@ == list@.filter(not_named(name@)),
{
    let ghost all = list@;
    let mut rest = list;
    let mut kept: Vec<Profile> = Vec::new();
    while rest.len() > 0
        invariant
            kept@ + without_name(rest@, name@) == without_name(all, name@),
        decreases rest.len(),
    {
        let ghost before = rest@;
        let p = rest.remove(0);
        assert(before.drop_first() =~= rest@);
        if !crate::text::str_eq(p.name.as_str(), name) {
            let ghost k0 = kept@;
            kept.push(p);
            assert(kept@ + without_name(rest@, name@) =~= k0 + (seq![before[0]] + without_name(rest@, name@)));
        }
    }
    assert(kept@ + without_name(rest@, name@) =~= kept@);
    proof {
        law_without_name(all, name@);
    }
    kept
}

/// Saves a custom profile: any profile with the same name is replaced by the
/// new one, added at the end.
pub fn save_custom_profile(list: Vec<Profile>, name: &str, tweak_ids: Vec<String>) -> (r: Vec<Profile>)
    ensures
        r@.len() == without_name(list@, name@).len() + 1,
        r@.drop_last() == without_name(list@, name@),
        r@.drop_last() == list@.filter(not_named(name@)),
        r@.last().id@ == "profile.custom-"@ + hyphenate(crate::text::lowercase_of(name@)),
        r@.last().name@ == name@,
        r@.last().description@ == "Custom profile"@,
        r@.last().tweak_ids == tweak_ids,
        !r@.last().builtin,
{
    let mut kept = remove_named(list, name);
    let p = Profile {
        id: custom_profile_id(name),
        name: owned(name),
        description: owned("Custom profile"),
        tweak_ids,
        builtin: false,
    };
    kept.push(p);
    kept
}

/// Deletes every custom profile with the given name.
pub fn delete_custom_profile(list: Vec<Profile>, name: &str) -> (r: Vec<Profile>)
    ensures
        r@ == without_name(list@, name@),
        r@ == list@.filter(not_named(name@)),
{
    remove_named(list, name)
}

// ---------------------------------------------------------------- cleanup and log texts

/// The one-shot cleanup operations.
#[derive(Debug, Clone, Copy, PartialEq, Eq, Structural)]
pub enum CleanupKind {
    UserTemp,
    WindowsTemp,
    Prefetch,
    UpdateCache,
}

/// The cleanup operation an id names; any other id is refused.
pub fn cleanup_kind(id: &str) -> (r: Result<CleanupKind, ZenouError>)
    ensures
        id@ == "cleanup.user-temp"@ ==> r == Ok::<CleanupKind, ZenouError>(CleanupKind::UserTemp),
        id@ == "cleanup.windows-temp"@ ==> r == Ok::<CleanupKind, ZenouError>(CleanupKind::WindowsTemp),
        id@ == "cleanup.prefetch"@ ==> r == Ok::<CleanupKind, ZenouError>(CleanupKind::Prefetch),
        id@ == "cleanup.wu-cache"@ ==> r == Ok::<CleanupKind, ZenouError>(CleanupKind::UpdateCache),
        (id@ != "cleanup.user-temp"@ && id@ != "cleanup.windows-temp"@ && id@ != "cleanup.prefetch"@ && id@
            != "cleanup.wu-cache"@) ==> (r matches Err(e) && error_is(
            e,
            "state"@,
            "Unknown cleanup operation \""@ + id@ + "\"."@,
            None,
        )),
{
    proof {
        reveal_strlit("cleanup.user-temp");
        reveal_strlit("cleanup.windows-temp");
        reveal_strlit("cleanup.prefetch");
        reveal_strlit("cleanup.wu-cache");
        assert("cleanup.user-temp"@[8] != "cleanup.windows-temp"@[8]);
        assert("cleanup.user-temp"@[8] != "cleanup.prefetch"@[8]);
        assert("cleanup.user-temp"@[8] != "cleanup.wu-cache"@[8]);
        assert("cleanup.windows-temp"@[8] != "cleanup.prefetch"@[8]);
        assert("cleanup.windows-temp"@[9] != "cleanup.wu-cache"@[9]);
        assert("cleanup.prefetch"@[8] != "cleanup.wu-cache"@[8]);
    }
    if crate::text::str_eq(id, "cleanup.user-temp") {
        Ok(CleanupKind::UserTemp)
    } else if crate::text::str_eq(id, "cleanup.windows-temp") {
        Ok(CleanupKind::WindowsTemp)
    } else if crate::text::str_eq(id, "cleanup.prefetch") {
        Ok(CleanupKind::Prefetch)
    } else if crate::text::str_eq(id, "cleanup.wu-cache") {
        Ok(CleanupKind::UpdateCache)
    } else {
        Err(ZenouError::state(concat3("Unknown cleanup operation \"", id, "\".")))
    }
}

/// The log result of an operation: skipped, success or failed.
pub fn log_result_label(r: &TweakResult) -> (s: &'static str)
    ensures
        s@ == if r.skipped {
            "skipped"@
        } else if r.success {
            "success"@
        } else {
            "failed"@
        },
{
    if r.skipped {
        "skipped"
    } else if r.success {
        "success"
    } else {
        "failed"
    }
}

/// The log message of an operation: its error, or what the action achieved.
pub fn log_message(action: &str, r: &TweakResult) -> (m: String)
    ensures
        m@ == match r.error {
            Some(e) => e@,
            None => if action@ == "apply"@ {
                "Applied and verified."@
            } else if action@ == "restore"@ {
                "Restored to recorded original values."@
            } else {
                "Completed."@
            },
        },
{
    match &r.error {
        Some(e) => copy_string(e),
        None => if crate::text::str_eq(action, "apply") {
            owned("Applied and verified.")
        } else if crate::text::str_eq(action, "restore") {
            owned("Restored to recorded original values.")
        } else {
            owned("Completed.")
        },
    }
}

/// The log message of a finished cleanup.
pub fn cleanup_log_message(id: &str, files: u64) -> (m: String)
    ensures
        m@ == id@ + ": "@ + crate::text::decimal(files as nat) + " items removed."@,
{
    let mut m = crate::text::concat2(id, ": ");
    crate::text::push_decimal(&mut m, files);
    push_str(&mut m, " items removed.");
    m
}

/// The log message of a created backup.
pub fn backup_log_message(label: &str, entries: u64) -> (m: String)
    ensures
        m@ == "Created backup \""@ + label@ + "\" with "@ + crate::text::decimal(entries as nat) + " entries."@,
{
    let mut m = crate::text::concat3("Created backup \"", label, "\" with ");
    crate::text::push_decimal(&mut m, entries);
    push_str(&mut m, " entries.");
    m
}

} // verus!
