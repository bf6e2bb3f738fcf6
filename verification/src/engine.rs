//! Tweak definitions: declarative plans with capture, mutate, verify and revert
//! steps, live state classification, and the apply run with step-level
//! rollback.

use vstd::prelude::*;
use crate::error::{error_is, ZenouError};
use crate::registry::{
    binary_value, capture, capture_spec, decode_payload, dword_label, dword_value, hex_bytes,
    hex_join, hive_abbrev, le16, le_value, raw_view, render_saved, render_spec, reg_type_label,
    sz_value, utf16_of, value_key, format_dword, dword_from_le, decode_utf16le, Hive, RegAction,
    RegActionView, RegType, RegValue, RegValueView,
};
use crate::scan::{GpuVendor, HardwareFacts};
use crate::text::{chars_of, concat3, opt_view, owned, push_str, slice_eq, str_eq};
use crate::types::{
    failed_step, ok_step, outcome_views, saved_views, ChangePreview, OutcomeView, Risk, SavedValue,
    SavedView, StepOutcome, TweakCategory, TweakMeta, TweakState,
};

verus! {

/// The value a registry edit puts in place.
pub enum RegEditKind {
    Dword(u32),
    Sz(String),
    Binary(Vec<u8>),
    /// Delete the value (restore re-creates it from capture).
    Delete,
}

/// Plain-value view of an edit kind.
pub enum EditKindView {
    Dword(u32),
    Sz(Seq<char>),
    Binary(Seq<u8>),
    Delete,
}

/// One concrete registry mutation.
pub struct RegEdit {
    pub hive: Hive,
    pub path: String,
    pub name: String,
    pub kind: RegEditKind,
}

/// Plain-value view of a registry edit.
pub struct EditView {
    pub hive: Hive,
    pub path: Seq<char>,
    pub name: Seq<char>,
    pub kind: EditKindView,
}

impl View for RegEdit {
    type V = EditView;

    open spec fn view(&self) -> EditView {
        EditView {
            hive: self.hive,
            path: self.path@,
            name: self.name@,
            kind: match self.kind {
                RegEditKind::Dword(v) => EditKindView::Dword(v),
                RegEditKind::Sz(s) => EditKindView::Sz(s@),
                RegEditKind::Binary(b) => EditKindView::Binary(b@),
                RegEditKind::Delete => EditKindView::Delete,
            },
        }
    }
}

/// The registry location of an edit: hive and key path.
pub open spec fn edit_location(e: EditView) -> Seq<char> {
    hive_abbrev(e.hive) + "\\"@ + e.path
}

/// Where the edited value lives.
pub open spec fn edit_key(e: EditView) -> (Hive, Seq<char>, Seq<char>) {
    value_key(e.hive, e.path, e.name)
}

/// What a preview shows as the new value.
pub open spec fn new_value_spec(k: EditKindView) -> Seq<char> {
    match k {
        EditKindView::Dword(v) => dword_label(v as nat),
        EditKindView::Sz(s) => s,
        EditKindView::Binary(b) => hex_join(b),
        EditKindView::Delete => "deleted"@,
    }
}

/// The type name under which a current value is shown.
pub open spec fn shown_type(t: RegType) -> Seq<char> {
    match t {
        RegType::REG_SZ => "REG_SZ"@,
        RegType::REG_DWORD => "REG_DWORD"@,
        _ => "REG_BINARY"@,
    }
}

/// What a preview shows as the current value, given the outcome of reading it.
pub open spec fn current_label_spec(e: EditView, read: Result<Option<RegValueView>, ()>) -> Seq<char> {
    match read {
        Ok(Some(v)) => render_spec(
            SavedView {
                hive: hive_abbrev(e.hive),
                path: e.path,
                name: e.name,
                reg_type: shown_type(v.vtype),
                data: v.bytes,
            },
        ),
        Ok(None) => "not set"@,
        Err(_) => "unknown"@,
    }
}

/// The view of a read outcome.
pub open spec fn read_view(r: Result<Option<RegValue>, ZenouError>) -> Result<Option<RegValueView>, ()> {
    match r {
        Ok(v) => Ok(raw_view(v)),
        Err(_) => Err(()),
    }
}

/// The value is the edit's target: the written DWORD, string or bytes, or absent for a delete.
pub open spec fn verify_spec(k: EditKindView, raw: Option<RegValueView>) -> bool {
    match k {
        EditKindView::Dword(v) => raw matches Some(r) && r.bytes.len() == 4 && le_value(r.bytes) == v as nat,
        EditKindView::Sz(s) => raw matches Some(r) && decode_payload(r.bytes) == Some(s),
        EditKindView::Binary(b) => raw matches Some(r) && r.bytes == b,
        EditKindView::Delete => raw is None,
    }
}

/// The mutation an edit performs.
pub open spec fn write_spec(e: EditView) -> RegActionView {
    match e.kind {
        EditKindView::Dword(v) => RegActionView::Write {
            key: edit_key(e),
            value: RegValueView { vtype: RegType::REG_DWORD, bytes: crate::registry::dword_bytes(v) },
        },
        EditKindView::Sz(s) => RegActionView::Write {
            key: edit_key(e),
            value: RegValueView { vtype: RegType::REG_SZ, bytes: le16(utf16_of(s)) },
        },
        EditKindView::Binary(b) => RegActionView::Write {
            key: edit_key(e),
            value: RegValueView { vtype: RegType::REG_BINARY, bytes: b },
        },
        EditKindView::Delete => RegActionView::Delete { key: edit_key(e) },
    }
}

/// The edit's target holds, judged from a read outcome (a failed read does not count).
pub open spec fn target_holds(k: EditKindView, read: Result<Option<RegValueView>, ()>) -> bool {
    match read {
        Ok(v) => verify_spec(k, v),
        Err(_) => false,
    }
}

/// No character of `s` is NUL.
pub open spec fn no_nul(s: Seq<char>) -> bool {
    forall|i: int| 0 <= i < s.len() ==> (s[i] as u32) != 0
}

/// What an edit writes verifies when read back, in every registry state: a
/// DWORD, the bytes, an absent value, and every string without NUL characters.
pub proof fn law_write_then_verify(e: EditView, m: Map<(Hive, Seq<char>, Seq<char>), RegValueView>)
    requires
        e.kind matches EditKindView::Sz(s) ==> no_nul(s),
    ensures
        verify_spec(e.kind, crate::registry::apply_action(m, write_spec(e)).get(edit_key(e))),
{
    match e.kind {
        EditKindView::Dword(v) => {
            let b = crate::registry::dword_bytes(v);
            reveal_with_fuel(le_value, 5);
            assert(b.drop_first().drop_first().drop_first().drop_first() =~= Seq::<u8>::empty());
        },
        EditKindView::Sz(s) => {
            crate::registry::law_utf16_round_trip(s);
        },
        _ => {},
    }
}

impl RegEdit {
    /// The registry location (hive and key path).
    pub fn location(&self) -> (r: String)
        ensures
            r@ == edit_location(self@),
    {
        concat3(self.hive.as_str(), "\\", self.path.as_str())
    }

    /// What a preview shows as the value this edit writes.
    pub fn new_value_label(&self) -> (r: String)
        ensures
            r@ == new_value_spec(self@.kind),
    {
        match &self.kind {
            RegEditKind::Dword(v) => format_dword(*v),
            RegEditKind::Sz(s) => s.clone(),
            RegEditKind::Binary(b) => hex_bytes(b.as_slice()),
            RegEditKind::Delete => owned("deleted"),
        }
    }

    /// What a preview shows as the current value, given the outcome of reading it.
    pub fn current_label(&self, read: &Result<Option<RegValue>, ZenouError>) -> (r: String)
        ensures
            r@ == current_label_spec(self@, read_view(*read)),
    {
        match read {
            Ok(Some(v)) => {
                let t = match v.vtype {
                    RegType::REG_SZ => "REG_SZ",
                    RegType::REG_DWORD => "REG_DWORD",
                    _ => "REG_BINARY",
                };
                let saved = SavedValue {
                    hive: owned(self.hive.as_str()),
                    path: self.path.clone(),
                    name: self.name.clone(),
                    reg_type: owned(t),
                    data: v.bytes.clone(),
                };
                render_saved(&saved)
            },
            Ok(None) => owned("not set"),
            Err(_) => owned("unknown"),
        }
    }

    /// The change preview of this edit, given the outcome of reading its current value.
    pub fn preview(&self, read: &Result<Option<RegValue>, ZenouError>) -> (p: ChangePreview)
        ensures
            p.location@ == edit_location(self@),
            opt_view(p.value_name) == Some(self@.name),
            p.current@ == current_label_spec(self@, read_view(*read)),
            p.new@ == new_value_spec(self@.kind),
    {
        ChangePreview {
            location: self.location(),
            value_name: Some(self.name.clone()),
            current: self.current_label(read),
            new: self.new_value_label(),
        }
    }

    /// Records the value this edit is about to replace.
    pub fn capture(&self, raw: &Option<RegValue>) -> (s: SavedValue)
        ensures
            s@ == capture_spec(self.hive, self@.path, self@.name, raw_view(*raw)),
    {
        capture(self.hive, self.path.as_str(), self.name.as_str(), raw)
    }

    /// The registry mutation this edit performs.
    pub fn apply(&self) -> (a: RegAction)
        ensures
            a@ == write_spec(self@),
    {
        match &self.kind {
            RegEditKind::Dword(v) => RegAction::Write {
                hive: self.hive,
                path: self.path.clone(),
                name: self.name.clone(),
                value: dword_value(*v),
            },
            RegEditKind::Sz(s) => RegAction::Write {
                hive: self.hive,
                path: self.path.clone(),
                name: self.name.clone(),
                value: sz_value(s.as_str()),
            },
            RegEditKind::Binary(b) => RegAction::Write {
                hive: self.hive,
                path: self.path.clone(),
                name: self.name.clone(),
                value: binary_value(b.as_slice()),
            },
            RegEditKind::Delete => RegAction::Delete {
                hive: self.hive,
                path: self.path.clone(),
                name: self.name.clone(),
            },
        }
    }

    /// Read-back verification: whether the value read is this edit's target.
    pub fn verify(&self, raw: &Option<RegValue>) -> (r: bool)
        ensures
            r == verify_spec(self@.kind, raw_view(*raw)),
    {
        match &self.kind {
            RegEditKind::Dword(v) => match raw {
                Some(r) => r.bytes.len() == 4 && dword_from_le(r.bytes.as_slice()) == *v,
                None => false,
            },
            RegEditKind::Sz(s) => match raw {
                Some(r) => match decode_utf16le(r.bytes.as_slice()) {
                    Some(t) => str_eq(t.as_str(), s.as_str()),
                    None => false,
                },
                None => false,
            },
            RegEditKind::Binary(b) => match raw {
                Some(r) => bytes_eq(r.bytes.as_slice(), b.as_slice()),
                None => false,
            },
            RegEditKind::Delete => raw.is_none(),
        }
    }

    /// The registry mutation that puts back a captured value.
    pub fn revert(&self, saved: &SavedValue) -> (r: Result<RegAction, ZenouError>)
        ensures
            revert_planned(saved@, r),
    {
        crate::registry::restore(saved)
    }

    /// Whether the target state holds, judged from the outcome of reading the value.
    pub fn is_target_state(&self, read: &Result<Option<RegValue>, ZenouError>) -> (r: bool)
        ensures
            r == target_holds(self@.kind, read_view(*read)),
    {
        match read {
            Ok(v) => self.verify(v),
            Err(_) => false,
        }
    }
}

/// Byte-wise equality.
pub fn bytes_eq(a: &[u8], b: &[u8]) -> (r: bool)
    ensures
        r == (a@ == b@),
{
    if a.len() != b.len() {
        return false;
    }
    let mut i: usize = 0;
    while i < a.len()
        invariant
            a@.len() == b@.len(),
            i <= a@.len(),
            forall|k: int| 0 <= k < i ==> a@[k] == b@[k],
        decreases a.len() - i,
    {
        if a[i] != b[i] {
            return false;
        }
        i = i + 1;
    }
    assert(a@ =~= b@);
    true
}


/// An ordered group of edits applied all-or-rollback.
pub struct EditGroup {
    pub edits: Vec<RegEdit>,
}

/// The views of a sequence of edits.
pub open spec fn edit_views(s: Seq<RegEdit>) -> Seq<EditView> {
    s.map_values(|e: RegEdit| e@)
}

/// The views of a sequence of read outcomes.
pub open spec fn read_views(s: Seq<Result<Option<RegValue>, ZenouError>>) -> Seq<Result<Option<RegValueView>, ()>> {
    s.map_values(|r: Result<Option<RegValue>, ZenouError>| read_view(r))
}

impl EditGroup {
    /// The previews of every edit, given the outcome of reading each current value.
    pub fn previews(&self, reads: &[Result<Option<RegValue>, ZenouError>]) -> (v: Vec<ChangePreview>)
        requires
            reads@.len() == self.edits@.len(),
        ensures
            v@.len() == self.edits@.len(),
            forall|i: int| 0 <= i < v@.len() ==> {
                &&& (#[trigger] v@[i]).location@ == edit_location(self.edits@[i]@)
                &&& v@[i].current@ == current_label_spec(self.edits@[i]@, read_view(reads@[i]))
                &&& v@[i].new@ == new_value_spec(self.edits@[i]@.kind)
            },
    {
        let mut v: Vec<ChangePreview> = Vec::new();
        let mut i: usize = 0;
        while i < self.edits.len()
            invariant
                reads@.len() == self.edits@.len(),
                i <= self.edits@.len(),
                v@.len() == i,
                forall|k: int| 0 <= k < i ==> {
                    &&& (#[trigger] v@[k]).location@ == edit_location(self.edits@[k]@)
                    &&& v@[k].current@ == current_label_spec(self.edits@[k]@, read_view(reads@[k]))
                    &&& v@[k].new@ == new_value_spec(self.edits@[k]@.kind)
                },
            decreases self.edits.len() - i,
        {
            v.push(self.edits[i].preview(&reads[i]));
            i = i + 1;
        }
        v
    }

    /// Whether every edit's target holds.
    pub fn all_applied(&self, reads: &[Result<Option<RegValue>, ZenouError>]) -> (r: bool)
        requires
            reads@.len() == self.edits@.len(),
        ensures
            r == forall|i: int| 0 <= i < self.edits@.len() ==> target_holds(
                #[trigger] self.edits@[i]@.kind,
                read_view(reads@[i]),
            ),
    {
        let mut i: usize = 0;
        while i < self.edits.len()
            invariant
                reads@.len() == self.edits@.len(),
                i <= self.edits@.len(),
                forall|k: int| 0 <= k < i ==> target_holds(#[trigger] self.edits@[k]@.kind, read_view(reads@[k])),
            decreases self.edits.len() - i,
        {
            if !self.edits[i].is_target_state(&reads[i]) {
                return false;
            }
            i = i + 1;
        }
        true
    }

    /// Whether some edit's target holds.
    pub fn any_applied(&self, reads: &[Result<Option<RegValue>, ZenouError>]) -> (r: bool)
        requires
            reads@.len() == self.edits@.len(),
        ensures
            r == exists|i: int| 0 <= i < self.edits@.len() && target_holds(
                #[trigger] self.edits@[i]@.kind,
                read_view(reads@[i]),
            ),
    {
        let mut i: usize = 0;
        while i < self.edits.len()
            invariant
                reads@.len() == self.edits@.len(),
                i <= self.edits@.len(),
                forall|k: int| 0 <= k < i ==> !target_holds(#[trigger] self.edits@[k]@.kind, read_view(reads@[k])),
            decreases self.edits.len() - i,
        {
            if self.edits[i].is_target_state(&reads[i]) {
                return true;
            }
            i = i + 1;
        }
        false
    }
}

/// Applicability predicate: a tweak only shows and applies on matching systems.
#[derive(Debug, Clone, Copy, PartialEq, Eq, Structural)]
pub enum AppliesTo {
    Always,
    Nvidia,
    Amd,
    Intel,
    Laptop,
}

/// A fixed system operation attached to a tweak (never frontend-controlled).
pub enum CommandHook {
    /// Activate the High Performance plan, duplicating it first when missing.
    HighPerformancePlan,
    /// Whether the active plan is High Performance or Ultimate.
    VerifyHighPerformancePlan,
    /// Activate the Balanced plan when it exists.
    BalancedPlan,
    /// `powercfg <args>` followed by `powercfg -setactive scheme_current`.
    PowerValue(Vec<String>),
    /// Power settings cannot be read back locale-independently; counted as verified.
    VerifyPowerValue,
    /// `powercfg <args>`.
    Powercfg(Vec<String>),
    /// Whether hibernation is off (`true`) or on (`false`).
    VerifyHibernation(bool),
    DisableMemoryCompression,
    EnableMemoryCompression,
    /// Whether memory compression is reported as off.
    VerifyMemoryCompressionOff,
    /// `fsutil behavior set <operation> <value>`.
    FsutilSet(String, String),
    /// Whether `fsutil behavior <operation>` is at `<value>`.
    VerifyFsutil(String, String),
    /// `ipconfig /flushdns`.
    FlushDns,
    /// A step that has nothing to read back.
    AlwaysVerified,
    /// Disable scheduled tasks, recording which were enabled.
    DisableTasks(Vec<String>),
    /// Whether every listed task is disabled or absent.
    VerifyTasksDisabled(Vec<String>),
    /// Re-enable the tasks recorded as enabled.
    RestoreTasks(Vec<String>),
    /// Disable services, recording their start types.
    DisableServices(Vec<String>),
    /// Whether every listed service is disabled or absent.
    VerifyServicesDisabled(Vec<String>),
    /// Put back the recorded service start types.
    RestoreServices(Vec<String>),
    /// A step that always fails (rollback fixture for tests).
    FailForTest,
}

/// A tweak's execution plan: registry edits plus optional fixed command steps.
pub struct Tweak {
    pub meta: TweakMeta,
    pub applies_to: AppliesTo,
    /// Registry edits applied in order.
    pub group: EditGroup,
    pub extra_apply: Option<CommandHook>,
    pub extra_verify: Option<CommandHook>,
    pub extra_restore: Option<CommandHook>,
    /// When true, the applied state means the target values are set; when
    /// false the tweak is inverted and the applied state means they are absent.
    pub target_is_values: bool,
}

/// What an apply run needs to know of a tweak.
pub struct PlanView {
    pub edits: Seq<EditView>,
    pub target_is_values: bool,
    pub apply_hook: bool,
    pub verify_hook: bool,
    pub restore_hook: bool,
}

/// The apply plan of a tweak.
pub open spec fn plan_of(t: Tweak) -> PlanView {
    PlanView {
        edits: edit_views(t.group.edits@),
        target_is_values: t.target_is_values,
        apply_hook: t.extra_apply is Some,
        verify_hook: t.extra_verify is Some,
        restore_hook: t.extra_restore is Some,
    }
}

/// `s` is the capture of the edited value, read successfully as `r`.
pub open spec fn captured_from(e: EditView, r: Result<Option<RegValueView>, ()>, s: SavedView) -> bool {
    match r {
        Ok(raw) => s == capture_spec(e.hive, e.path, e.name, raw),
        Err(_) => false,
    }
}

/// Whether a tweak with applicability `a` applies, given the primary GPU
/// vendor and the CPU vendor (absent when the scan failed).
pub open spec fn supported_spec(a: AppliesTo, gpu: Option<GpuVendor>, cpu: Option<Seq<char>>) -> bool {
    match a {
        AppliesTo::Always => true,
        AppliesTo::Nvidia => gpu == Some(GpuVendor::Nvidia),
        AppliesTo::Amd => gpu == Some(GpuVendor::Amd),
        AppliesTo::Intel => gpu == Some(GpuVendor::Intel),
        AppliesTo::Laptop => cpu is Some,
    }
}

/// One edit's part of a tweak's state holds: its target is in place, or, for
/// an inverted tweak (whose applied state means the values are absent), its
/// value is absent.
pub open spec fn part_holds(k: EditKindView, r: Result<Option<RegValueView>, ()>, target_is_values: bool) -> bool {
    if target_is_values {
        target_holds(k, r)
    } else {
        r == Ok::<Option<RegValueView>, ()>(None)
    }
}

/// Number of edits whose part of the state holds.
pub open spec fn count_hits(e: Seq<EditView>, r: Seq<Result<Option<RegValueView>, ()>>, target_is_values: bool) -> nat
    decreases e.len(),
{
    if e.len() == 0 {
        0
    } else {
        count_hits(e.drop_last(), r, target_is_values) + if part_holds(
            e.last().kind,
            r[e.len() - 1],
            target_is_values,
        ) {
            1nat
        } else {
            0nat
        }
    }
}

/// The state when `held` of `total` parts hold: all of them (or there are
/// none) is Applied, none is Available, some is Partial.
pub open spec fn parts_state(held: nat, total: nat) -> TweakState {
    if held == total {
        TweakState::Applied
    } else if held == 0 {
        TweakState::Available
    } else {
        TweakState::Partial
    }
}

/// The state of a supported tweak: each edit is one part, and the command
/// verification, when there is one, is one more part; a verification that
/// could not run leaves the state Unknown.
pub open spec fn combined_state(hits: nat, total: nat, verify: Option<Result<bool, ()>>) -> TweakState {
    match verify {
        None => parts_state(hits, total),
        Some(Ok(b)) => parts_state(hits + if b { 1nat } else { 0nat }, total + 1),
        Some(Err(_)) => TweakState::Unknown,
    }
}

/// The view of a verification outcome.
pub open spec fn check_view(v: Option<Result<bool, ZenouError>>) -> Option<Result<bool, ()>> {
    match v {
        None => None,
        Some(Ok(b)) => Some(Ok(b)),
        Some(Err(_)) => Some(Err(())),
    }
}

fn is_laptop(_hostname: &str) -> (r: bool)
    ensures
        r,
{
    // Battery detection would need a subprocess on every state read; laptop
    // tweaks are treated as applicable wherever the scan succeeded.
    true
}

impl Tweak {
    /// Declarative constructor for catalog entries.
    pub fn simple(
        id: &str,
        name: &str,
        description: &str,
        category: TweakCategory,
        risk: Risk,
        requires_admin: bool,
        restart_required: bool,
        effect: &str,
        quick_optimize: bool,
        applies_to: AppliesTo,
        target_is_values: bool,
        edits: Vec<RegEdit>,
    ) -> (t: Tweak)
        ensures
            t.meta.id@ == id@,
            t.meta.name@ == name@,
            t.meta.description@ == description@,
            t.meta.category == category,
            t.meta.risk == risk,
            t.meta.requires_admin == requires_admin,
            t.meta.restart_required == restart_required,
            t.meta.effect@ == effect@,
            t.meta.quick_optimize == quick_optimize,
            t.applies_to == applies_to,
            t.target_is_values == target_is_values,
            t.group.edits@ == edits@,
            t.extra_apply is None,
            t.extra_verify is None,
            t.extra_restore is None,
    {
        Tweak {
            meta: TweakMeta {
                id: owned(id),
                name: owned(name),
                description: owned(description),
                category,
                risk,
                requires_admin,
                restart_required,
                effect: owned(effect),
                quick_optimize,
            },
            applies_to,
            group: EditGroup { edits },
            extra_apply: None,
            extra_verify: None,
            extra_restore: None,
            target_is_values,
        }
    }

    /// Attaches the command steps.
    pub fn with_hooks(
        self,
        apply: Option<CommandHook>,
        verify: Option<CommandHook>,
        restore: Option<CommandHook>,
    ) -> (t: Tweak)
        ensures
            t.meta == self.meta,
            t.applies_to == self.applies_to,
            t.group == self.group,
            t.target_is_values == self.target_is_values,
            t.extra_apply == apply,
            t.extra_verify == verify,
            t.extra_restore == restore,
    {
        Tweak { extra_apply: apply, extra_verify: verify, extra_restore: restore, ..self }
    }

    /// Whether the tweak applies to this system's hardware.
    pub fn is_supported(&self, facts: &HardwareFacts) -> (r: bool)
        ensures
            r == supported_spec(self.applies_to, facts.primary_gpu, opt_view(facts.cpu_vendor)),
    {
        match self.applies_to {
            AppliesTo::Always => true,
            AppliesTo::Nvidia => facts.primary_gpu == Some(GpuVendor::Nvidia),
            AppliesTo::Amd => facts.primary_gpu == Some(GpuVendor::Amd),
            AppliesTo::Intel => facts.primary_gpu == Some(GpuVendor::Intel),
            AppliesTo::Laptop => match &facts.cpu_vendor {
                Some(_) => is_laptop(""),
                None => false,
            },
        }
    }

    /// Test support: a tag for separate scratch paths (changes nothing).
    pub fn with_path_tag(self, _path: &str) -> (t: Tweak)
        ensures
            t == self,
    {
        self
    }

    /// Test support: attach a command step that always fails (rollback fixture).
    pub fn with_failing_hook(self) -> (t: Tweak)
        ensures
            t.meta == self.meta,
            t.applies_to == self.applies_to,
            t.group == self.group,
            t.target_is_values == self.target_is_values,
            t.extra_verify == self.extra_verify,
            t.extra_restore == self.extra_restore,
            t.extra_apply == Some(CommandHook::FailForTest),
    {
        Tweak { extra_apply: Some(CommandHook::FailForTest), ..self }
    }

    /// Live state, judged from the system: whether the tweak is supported,
    /// the outcome of reading each edited value, and the outcome of the
    /// command verification step (when the tweak has one).
    pub fn check_state(
        &self,
        supported: bool,
        reads: &[Result<Option<RegValue>, ZenouError>],
        verify: Option<Result<bool, ZenouError>>,
    ) -> (st: TweakState)
        requires
            supported ==> reads@.len() == self.group.edits@.len(),
        ensures
            st == if !supported {
                TweakState::Unsupported
            } else {
                combined_state(
                    count_hits(edit_views(self.group.edits@), read_views(reads@), self.target_is_values),
                    self.group.edits@.len(),
                    check_view(verify),
                )
            },
    {
        if !supported {
            return TweakState::Unsupported;
        }
        let total = self.group.edits.len();
        let mut hits: usize = 0;
        let mut i: usize = 0;
        let ghost ev = edit_views(self.group.edits@);
        let ghost rv = read_views(reads@);
        while i < total
            invariant
                total == self.group.edits@.len(),
                reads@.len() == total,
                ev == edit_views(self.group.edits@),
                rv == read_views(reads@),
                i <= total,
                hits <= i,
                hits == count_hits(ev.subrange(0, i as int), rv, self.target_is_values),
            decreases total - i,
        {
            assert(ev.subrange(0, i + 1).drop_last() =~= ev.subrange(0, i as int));
            let holds = if self.target_is_values {
                self.group.edits[i].is_target_state(&reads[i])
            } else {
                match &reads[i] {
                    Ok(None) => true,
                    _ => false,
                }
            };
            if holds {
                hits = hits + 1;
            }
            i = i + 1;
        }
        assert(ev.subrange(0, total as int) =~= ev);
        let (all_held, none_held) = match verify {
            None => (hits == total, hits == 0),
            Some(Ok(b)) => (hits == total && b, hits == 0 && !b),
            Some(Err(_)) => {
                return TweakState::Unknown;
            },
        };
        if all_held {
            TweakState::Applied
        } else if none_held {
            TweakState::Available
        } else {
            TweakState::Partial
        }
    }

    /// The previews of every edit.
    pub fn previews(&self, reads: &[Result<Option<RegValue>, ZenouError>]) -> (v: Vec<ChangePreview>)
        requires
            reads@.len() == self.group.edits@.len(),
        ensures
            v@.len() == self.group.edits@.len(),
            forall|i: int| 0 <= i < v@.len() ==> {
                &&& (#[trigger] v@[i]).location@ == edit_location(self.group.edits@[i]@)
                &&& v@[i].current@ == current_label_spec(self.group.edits@[i]@, read_view(reads@[i]))
                &&& v@[i].new@ == new_value_spec(self.group.edits@[i]@.kind)
            },
    {
        self.group.previews(reads)
    }

    /// Captures the originals of every edit, given each value read (a failed
    /// read fails the capture with its error).
    pub fn capture_all(&self, reads: &[Result<Option<RegValue>, ZenouError>]) -> (r: Result<Vec<SavedValue>, ZenouError>)
        requires
            reads@.len() == self.group.edits@.len(),
        ensures
            (forall|i: int| 0 <= i < reads@.len() ==> reads@[i] is Ok) <==> r is Ok,
            r matches Ok(v) ==> v@.len() == self.group.edits@.len() && forall|i: int|
                0 <= i < v@.len() ==> captured_from(self.group.edits@[i]@, read_view(reads@[i]), (#[trigger] v@[i])@),
            r matches Err(e) ==> exists|i: int|
                0 <= i < reads@.len() && (forall|j: int| 0 <= j < i ==> (#[trigger] reads@[j]) is Ok) && (
                #[trigger] reads@[i] matches Err(x) && error_is(e, x.code@, x.message@, opt_view(x.details))),
    {
        let mut v: Vec<SavedValue> = Vec::new();
        let mut i: usize = 0;
        while i < self.group.edits.len()
            invariant
                reads@.len() == self.group.edits@.len(),
                i <= self.group.edits@.len(),
                forall|j: int| 0 <= j < i ==> (#[trigger] reads@[j]) is Ok,
                v@.len() == i,
                forall|k: int| 0 <= k < i ==> captured_from(self.group.edits@[k]@, read_view(reads@[k]), (#[trigger] v@[k])@),
            decreases self.group.edits.len() - i,
        {
            match &reads[i] {
                Ok(raw) => {
                    v.push(self.group.edits[i].capture(raw));
                },
                Err(e) => {
                    return Err(e.duplicate());
                },
            }
            i = i + 1;
        }
        Ok(v)
    }
}


// ---------------------------------------------------------------- the apply run

/// Where an apply run stands.
#[derive(Debug, Clone, Copy, PartialEq, Eq, Structural)]
pub enum Stage {
    /// Reading the current edit's value to see whether its target already holds.
    Probing,
    /// Reading the current edit's value to capture it.
    Capturing,
    /// Writing the current edit's target.
    Writing,
    /// Reading the current edit's value back.
    Verifying,
    /// Putting back the current edit's value after it did not verify.
    RevertingFailed,
    /// Running the command step.
    HookApplying,
    /// Running the command verification.
    HookVerifying,
    /// Undoing the command step after it did not verify.
    HookRestoring,
    /// Putting back completed edits, newest first.
    RollingBack,
    /// Undoing the command step at the end of a rollback.
    FinalRestore,
    /// Finished.
    Done,
}

/// What the run asks the system to do next.
pub enum ApplyAction {
    /// Read the value of edit `i`.
    ReadValue(usize),
    /// Write the target of edit `i`.
    WriteValue(usize),
    /// Put back a captured value.
    Revert(SavedValue),
    /// Run the tweak's command step.
    RunApplyHook,
    /// Run the tweak's command verification.
    RunVerifyHook,
    /// Run the tweak's command undo step.
    RunRestoreHook,
    /// The run is over; its outcomes are final.
    Finish,
}

/// Plain-value view of an action.
pub enum ActionView {
    ReadValue(nat),
    WriteValue(nat),
    Revert(SavedView),
    RunApplyHook,
    RunVerifyHook,
    RunRestoreHook,
    Finish,
}

impl View for ApplyAction {
    type V = ActionView;

    open spec fn view(&self) -> ActionView {
        match self {
            ApplyAction::ReadValue(i) => ActionView::ReadValue(*i as nat),
            ApplyAction::WriteValue(i) => ActionView::WriteValue(*i as nat),
            ApplyAction::Revert(s) => ActionView::Revert(s@),
            ApplyAction::RunApplyHook => ActionView::RunApplyHook,
            ApplyAction::RunVerifyHook => ActionView::RunVerifyHook,
            ApplyAction::RunRestoreHook => ActionView::RunRestoreHook,
            ApplyAction::Finish => ActionView::Finish,
        }
    }
}

/// What the system reports back for an action.
pub enum ApplyEvent {
    /// Outcome of reading a value.
    Read(Result<Option<RegValue>, ZenouError>),
    /// Outcome of writing a target.
    Wrote(Result<(), ZenouError>),
    /// Outcome of putting back a captured value.
    Reverted(Result<(), ZenouError>),
    /// Outcome of a command step or undo step.
    HookRan(Result<(), ZenouError>),
    /// Outcome of the command verification.
    HookChecked(Result<bool, ZenouError>),
}

/// Plain-value view of an event: failures are seen by their message.
pub enum EventView {
    Read(Result<Option<RegValueView>, Seq<char>>),
    Wrote(Result<(), Seq<char>>),
    Reverted(Result<(), Seq<char>>),
    HookRan(Result<(), Seq<char>>),
    HookChecked(Result<bool, Seq<char>>),
}

/// The message of a failed outcome.
pub open spec fn failure_view<T>(r: Result<T, ZenouError>) -> Result<T, Seq<char>> {
    match r {
        Ok(v) => Ok(v),
        Err(e) => Err(e.message@),
    }
}

impl View for ApplyEvent {
    type V = EventView;

    open spec fn view(&self) -> EventView {
        match self {
            ApplyEvent::Read(r) => EventView::Read(
                match r {
                    Ok(v) => Ok(raw_view(*v)),
                    Err(e) => Err(e.message@),
                },
            ),
            ApplyEvent::Wrote(r) => EventView::Wrote(failure_view(*r)),
            ApplyEvent::Reverted(r) => EventView::Reverted(failure_view(*r)),
            ApplyEvent::HookRan(r) => EventView::HookRan(failure_view(*r)),
            ApplyEvent::HookChecked(r) => EventView::HookChecked(failure_view(*r)),
        }
    }
}

/// The state of an apply run.
pub struct ApplyRun {
    pub stage: Stage,
    /// The edit being processed.
    pub idx: usize,
    /// Outcome of every step so far.
    pub outcomes: Vec<StepOutcome>,
    /// Indexes of the edits written and verified, in order.
    pub done_idx: Vec<usize>,
    /// The captured original of each of those edits.
    pub done_saved: Vec<SavedValue>,
    /// The captured original of the edit being written.
    pub pending: Option<SavedValue>,
    /// No step has failed.
    pub all_ok: bool,
    /// Completed edits still to put back during a rollback.
    pub rb: usize,
}

/// Plain-value view of an apply run.
#[verifier::ext_equal]
pub struct RunView {
    pub stage: Stage,
    pub idx: nat,
    pub outcomes: Seq<OutcomeView>,
    pub done_idx: Seq<nat>,
    pub done_saved: Seq<SavedView>,
    pub pending: Option<SavedView>,
    pub all_ok: bool,
    pub rb: nat,
}

impl View for ApplyRun {
    type V = RunView;

    open spec fn view(&self) -> RunView {
        RunView {
            stage: self.stage,
            idx: self.idx as nat,
            outcomes: outcome_views(self.outcomes@),
            done_idx: self.done_idx@.map_values(|i: usize| i as nat),
            done_saved: saved_views(self.done_saved@),
            pending: match self.pending {
                Some(p) => Some(p@),
                None => None,
            },
            all_ok: self.all_ok,
            rb: self.rb as nat,
        }
    }
}

/// The message of a step that did not verify and was put back.
pub open spec fn not_verified_msg() -> Seq<char> {
    "The change could not be verified and was rolled back."@
}

/// `s` with one more outcome.
pub open spec fn push_outcome(s: RunView, o: OutcomeView) -> RunView {
    RunView { outcomes: s.outcomes.push(o), ..s }
}

/// Outcomes after a rollback: a last successful step is marked as rolled back
/// because of a later failure, then every successful registry step is marked
/// "Rolled back." (the command step keeps its mark).
pub open spec fn mark_rolled_back(o: Seq<OutcomeView>) -> Seq<OutcomeView> {
    let o1 = if o.len() > 0 && o.last().ok {
        o.update(
            o.len() - 1,
            OutcomeView { error: Some("Rolled back due to a later step failing."@), ..o.last() },
        )
    } else {
        o
    };
    o1.map_values(
        |x: OutcomeView|
            if x.ok && x.location != "system command"@ {
                OutcomeView { error: Some("Rolled back."@), ..x }
            } else {
                x
            },
    )
}

/// After the rollback: run the command undo step when there is one.
pub open spec fn final_restore_spec(p: PlanView, s: RunView) -> (RunView, ActionView) {
    if p.restore_hook {
        (RunView { stage: Stage::FinalRestore, ..s }, ActionView::RunRestoreHook)
    } else {
        (RunView { stage: Stage::Done, ..s }, ActionView::Finish)
    }
}

/// Put back the next completed edit, newest first; then mark the outcomes.
pub open spec fn rollback_spec(p: PlanView, s: RunView) -> (RunView, ActionView) {
    if s.rb > 0 {
        (RunView { stage: Stage::RollingBack, ..s }, ActionView::Revert(s.done_saved[s.rb - 1]))
    } else {
        final_restore_spec(p, RunView { outcomes: mark_rolled_back(s.outcomes), ..s })
    }
}

/// The end of the steps: done when all succeeded, otherwise roll back.
pub open spec fn finish_spec(p: PlanView, s: RunView) -> (RunView, ActionView) {
    if s.all_ok {
        (RunView { stage: Stage::Done, ..s }, ActionView::Finish)
    } else {
        rollback_spec(p, RunView { rb: s.done_saved.len(), ..s })
    }
}

/// After the edits: run the command step when there is one and nothing failed.
pub open spec fn after_edits_spec(p: PlanView, s: RunView) -> (RunView, ActionView) {
    if s.all_ok && p.apply_hook {
        (RunView { stage: Stage::HookApplying, ..s }, ActionView::RunApplyHook)
    } else {
        finish_spec(p, s)
    }
}

/// Start on edit `s.idx`, or move past the edits.
pub open spec fn begin_edit_spec(p: PlanView, s: RunView) -> (RunView, ActionView) {
    if s.idx < p.edits.len() {
        if p.target_is_values {
            (RunView { stage: Stage::Probing, ..s }, ActionView::ReadValue(s.idx))
        } else {
            (RunView { stage: Stage::Capturing, ..s }, ActionView::ReadValue(s.idx))
        }
    } else {
        after_edits_spec(p, s)
    }
}

/// The current edit failed with `msg`: record it and stop processing edits.
pub open spec fn fail_edit_spec(p: PlanView, s: RunView, msg: Seq<char>) -> (RunView, ActionView) {
    after_edits_spec(
        p,
        RunView {
            outcomes: s.outcomes.push(failed_step(edit_location(p.edits[s.idx as int]), msg)),
            all_ok: false,
            ..s
        },
    )
}

/// A command step failed at `loc` with `msg`.
pub open spec fn fail_system_spec(p: PlanView, s: RunView, loc: Seq<char>, msg: Seq<char>) -> (RunView, ActionView) {
    finish_spec(p, RunView { outcomes: s.outcomes.push(failed_step(loc, msg)), all_ok: false, ..s })
}

/// The action a run is waiting on.
pub open spec fn pending_spec(s: RunView) -> ActionView {
    match s.stage {
        Stage::Probing => ActionView::ReadValue(s.idx),
        Stage::Capturing => ActionView::ReadValue(s.idx),
        Stage::Writing => ActionView::WriteValue(s.idx),
        Stage::Verifying => ActionView::ReadValue(s.idx),
        Stage::RevertingFailed => ActionView::Revert(s.pending.unwrap()),
        Stage::HookApplying => ActionView::RunApplyHook,
        Stage::HookVerifying => ActionView::RunVerifyHook,
        Stage::HookRestoring => ActionView::RunRestoreHook,
        Stage::RollingBack => ActionView::Revert(s.done_saved[s.rb - 1]),
        Stage::FinalRestore => ActionView::RunRestoreHook,
        Stage::Done => ActionView::Finish,
    }
}

/// One step of the apply run: the state after an event and the next action.
/// An event that does not answer the pending action changes nothing.
pub open spec fn apply_step(p: PlanView, s: RunView, ev: EventView) -> (RunView, ActionView) {
    let i = s.idx as int;
    match (s.stage, ev) {
        (Stage::Probing, EventView::Read(r)) => {
            if r matches Ok(v) && verify_spec(p.edits[i].kind, v) {
                begin_edit_spec(
                    p,
                    RunView {
                        outcomes: s.outcomes.push(ok_step(edit_location(p.edits[i]))),
                        idx: s.idx + 1,
                        ..s
                    },
                )
            } else {
                (RunView { stage: Stage::Capturing, ..s }, ActionView::ReadValue(s.idx))
            }
        },
        (Stage::Capturing, EventView::Read(r)) => match r {
            Err(m) => fail_edit_spec(p, s, m),
            Ok(v) => (
                RunView {
                    stage: Stage::Writing,
                    pending: Some(capture_spec(p.edits[i].hive, p.edits[i].path, p.edits[i].name, v)),
                    ..s
                },
                ActionView::WriteValue(s.idx),
            ),
        },
        (Stage::Writing, EventView::Wrote(r)) => match r {
            Err(m) => fail_edit_spec(p, s, m),
            Ok(_) => (RunView { stage: Stage::Verifying, ..s }, ActionView::ReadValue(s.idx)),
        },
        (Stage::Verifying, EventView::Read(r)) => match r {
            Err(m) => fail_edit_spec(p, s, m),
            Ok(v) => if verify_spec(p.edits[i].kind, v) {
                begin_edit_spec(
                    p,
                    RunView {
                        outcomes: s.outcomes.push(ok_step(edit_location(p.edits[i]))),
                        done_idx: s.done_idx.push(s.idx),
                        done_saved: s.done_saved.push(s.pending.unwrap()),
                        pending: None,
                        idx: s.idx + 1,
                        ..s
                    },
                )
            } else {
                (RunView { stage: Stage::RevertingFailed, ..s }, ActionView::Revert(s.pending.unwrap()))
            },
        },
        (Stage::RevertingFailed, EventView::Reverted(r)) => match r {
            Err(m) => fail_edit_spec(p, s, m),
            Ok(_) => fail_edit_spec(p, s, not_verified_msg()),
        },
        (Stage::HookApplying, EventView::HookRan(r)) => match r {
            Err(m) => fail_system_spec(p, s, "system command"@, m),
            Ok(_) => {
                let s2 = push_outcome(s, ok_step("system command"@));
                if p.verify_hook {
                    (RunView { stage: Stage::HookVerifying, ..s2 }, ActionView::RunVerifyHook)
                } else {
                    finish_spec(p, s2)
                }
            },
        },
        (Stage::HookVerifying, EventView::HookChecked(r)) => match r {
            Ok(true) => finish_spec(p, s),
            Ok(false) => if p.restore_hook {
                (RunView { stage: Stage::HookRestoring, ..s }, ActionView::RunRestoreHook)
            } else {
                fail_system_spec(p, s, "system command verification"@, not_verified_msg())
            },
            Err(m) => fail_system_spec(p, s, "system command verification"@, m),
        },
        (Stage::HookRestoring, EventView::HookRan(_)) => fail_system_spec(
            p,
            s,
            "system command verification"@,
            not_verified_msg(),
        ),
        (Stage::RollingBack, EventView::Reverted(_)) => rollback_spec(
            p,
            RunView { rb: (s.rb - 1) as nat, ..s },
        ),
        (Stage::FinalRestore, EventView::HookRan(_)) => (
            RunView { stage: Stage::Done, ..s },
            ActionView::Finish,
        ),
        _ => (s, pending_spec(s)),
    }
}

/// A run before its first step.
pub open spec fn initial_run() -> RunView {
    RunView {
        stage: Stage::Probing,
        idx: 0,
        outcomes: Seq::empty(),
        done_idx: Seq::empty(),
        done_saved: Seq::empty(),
        pending: None,
        all_ok: true,
        rb: 0,
    }
}

/// The run's bookkeeping is consistent with the plan.
pub open spec fn run_wf(p: PlanView, s: RunView) -> bool {
    &&& s.idx <= p.edits.len()
    &&& s.done_idx.len() == s.done_saved.len()
    &&& s.rb <= s.done_saved.len()
    &&& (s.stage is Probing || s.stage is Capturing || s.stage is Writing || s.stage is Verifying
        || s.stage is RevertingFailed) ==> s.idx < p.edits.len()
    &&& (s.stage is Writing || s.stage is Verifying || s.stage is RevertingFailed) ==> s.pending is Some
    &&& s.stage is RollingBack ==> s.rb > 0
}

impl ApplyRun {
    fn push_ok(&mut self, location: String)
        ensures
            final(self)@ == push_outcome(old(self)@, ok_step(location@)),
    {
        let o = StepOutcome::success(location);
        self.outcomes.push(o);
        assert(outcome_views(self.outcomes@) =~= outcome_views(old(self).outcomes@).push(ok_step(location@)));
    }

    fn push_failed(&mut self, location: String, message: String)
        ensures
            final(self)@ == (RunView {
                outcomes: old(self)@.outcomes.push(failed_step(location@, message@)),
                all_ok: false,
                ..old(self)@
            }),
    {
        let o = StepOutcome::failure(location, message);
        self.outcomes.push(o);
        self.all_ok = false;
        assert(outcome_views(self.outcomes@) =~= outcome_views(old(self).outcomes@).push(
            failed_step(location@, message@),
        ));
    }

    fn mark(&mut self)
        ensures
            final(self)@ == (RunView { outcomes: mark_rolled_back(old(self)@.outcomes), ..old(self)@ }),
    {
        let n = self.outcomes.len();
        let ghost o = old(self)@.outcomes;
        if n > 0 && self.outcomes[n - 1].ok {
            let last = self.outcomes.pop().unwrap();
            let updated = StepOutcome {
                location: last.location,
                ok: last.ok,
                error: Some(owned("Rolled back due to a later step failing.")),
            };
            self.outcomes.push(updated);
            assert(outcome_views(self.outcomes@) =~= o.update(
                o.len() - 1,
                OutcomeView { error: Some("Rolled back due to a later step failing."@), ..o.last() },
            ));
        } else {
            assert(outcome_views(self.outcomes@) =~= o);
        }
        let ghost o1 = outcome_views(self.outcomes@);
        let mut rebuilt: Vec<StepOutcome> = Vec::new();
        let mut old_outcomes: Vec<StepOutcome> = Vec::new();
        std::mem::swap(&mut old_outcomes, &mut self.outcomes);
        let mut i: usize = 0;
        while i < old_outcomes.len()
            invariant
                outcome_views(old_outcomes@) == o1,
                i <= old_outcomes@.len(),
                outcome_views(rebuilt@) =~= o1.subrange(0, i as int).map_values(
                    |x: OutcomeView|
                        if x.ok && x.location != "system command"@ {
                            OutcomeView { error: Some("Rolled back."@), ..x }
                        } else {
                            x
                        },
                ),
            decreases old_outcomes.len() - i,
        {
            let x = &old_outcomes[i];
            assert(x@ == o1[i as int]);
            let is_cmd = str_eq(x.location.as_str(), "system command");
            let y = if x.ok && !is_cmd {
                StepOutcome { location: x.location.clone(), ok: x.ok, error: Some(owned("Rolled back.")) }
            } else {
                x.duplicate()
            };
            let ghost yv = y@;
            assert(yv == (if o1[i as int].ok && o1[i as int].location != "system command"@ {
                OutcomeView { error: Some("Rolled back."@), ..o1[i as int] }
            } else {
                o1[i as int]
            }));
            let ghost before = outcome_views(rebuilt@);
            rebuilt.push(y);
            assert(outcome_views(rebuilt@) =~= before.push(yv));
            assert(o1.subrange(0, i + 1) =~= o1.subrange(0, i as int).push(o1[i as int]));
            i = i + 1;
        }
        assert(o1.subrange(0, o1.len() as int) =~= o1);
        self.outcomes = rebuilt;
    }

    fn final_restore(&mut self, p: &Tweak) -> (a: ApplyAction)
        ensures
            (final(self)@, a@) == final_restore_spec(plan_of(*p), old(self)@),
    {
        if p.extra_restore.is_some() {
            self.stage = Stage::FinalRestore;
            ApplyAction::RunRestoreHook
        } else {
            self.stage = Stage::Done;
            ApplyAction::Finish
        }
    }

    fn rollback(&mut self, p: &Tweak) -> (a: ApplyAction)
        requires
            old(self).rb <= old(self).done_saved@.len(),
        ensures
            (final(self)@, a@) == rollback_spec(plan_of(*p), old(self)@),
    {
        if self.rb > 0 {
            self.stage = Stage::RollingBack;
            ApplyAction::Revert(self.done_saved[self.rb - 1].duplicate())
        } else {
            self.mark();
            self.final_restore(p)
        }
    }

    fn finish(&mut self, p: &Tweak) -> (a: ApplyAction)
        ensures
            (final(self)@, a@) == finish_spec(plan_of(*p), old(self)@),
    {
        if self.all_ok {
            self.stage = Stage::Done;
            ApplyAction::Finish
        } else {
            self.rb = self.done_saved.len();
            self.rollback(p)
        }
    }

    fn after_edits(&mut self, p: &Tweak) -> (a: ApplyAction)
        ensures
            (final(self)@, a@) == after_edits_spec(plan_of(*p), old(self)@),
    {
        if self.all_ok && p.extra_apply.is_some() {
            self.stage = Stage::HookApplying;
            ApplyAction::RunApplyHook
        } else {
            self.finish(p)
        }
    }

    fn begin_edit(&mut self, p: &Tweak) -> (a: ApplyAction)
        ensures
            (final(self)@, a@) == begin_edit_spec(plan_of(*p), old(self)@),
    {
        if self.idx < p.group.edits.len() {
            if p.target_is_values {
                self.stage = Stage::Probing;
            } else {
                self.stage = Stage::Capturing;
            }
            ApplyAction::ReadValue(self.idx)
        } else {
            self.after_edits(p)
        }
    }

    fn fail_edit(&mut self, p: &Tweak, message: String) -> (a: ApplyAction)
        requires
            old(self).idx < p.group.edits@.len(),
        ensures
            (final(self)@, a@) == fail_edit_spec(plan_of(*p), old(self)@, message@),
    {
        let loc = p.group.edits[self.idx].location();
        self.push_failed(loc, message);
        self.after_edits(p)
    }

    fn fail_system(&mut self, p: &Tweak, location: &str, message: String) -> (a: ApplyAction)
        ensures
            (final(self)@, a@) == fail_system_spec(plan_of(*p), old(self)@, location@, message@),
    {
        self.push_failed(owned(location), message);
        self.finish(p)
    }

    fn pending_action(&self) -> (a: ApplyAction)
        requires
            self.stage is RevertingFailed ==> self.pending is Some,
            self.stage is RollingBack ==> 0 < self.rb <= self.done_saved@.len(),
        ensures
            a@ == pending_spec(self@),
    {
        match self.stage {
            Stage::Probing => ApplyAction::ReadValue(self.idx),
            Stage::Capturing => ApplyAction::ReadValue(self.idx),
            Stage::Writing => ApplyAction::WriteValue(self.idx),
            Stage::Verifying => ApplyAction::ReadValue(self.idx),
            Stage::RevertingFailed => match &self.pending {
                Some(sv) => ApplyAction::Revert(sv.duplicate()),
                None => ApplyAction::Finish,
            },
            Stage::HookApplying => ApplyAction::RunApplyHook,
            Stage::HookVerifying => ApplyAction::RunVerifyHook,
            Stage::HookRestoring => ApplyAction::RunRestoreHook,
            Stage::RollingBack => ApplyAction::Revert(self.done_saved[self.rb - 1].duplicate()),
            Stage::FinalRestore => ApplyAction::RunRestoreHook,
            Stage::Done => ApplyAction::Finish,
        }
    }

    /// Feeds the outcome of the pending action; returns the next action.
    pub fn step(&mut self, t: &Tweak, ev: ApplyEvent) -> (a: ApplyAction)
        requires
            run_wf(plan_of(*t), old(self)@),
        ensures
            (final(self)@, a@) == apply_step(plan_of(*t), old(self)@, ev@),
            run_wf(plan_of(*t), final(self)@),
    {
        proof {
            lemma_step_wf(plan_of(*t), self@, ev@);
        }
        let ghost p = plan_of(*t);
        match self.stage {
            Stage::Probing => match ev {
                ApplyEvent::Read(r) => {
                    let edit = &t.group.edits[self.idx];
                    assert(edit@ == p.edits[self.idx as int]);
                    let hit = match &r {
                        Ok(v) => edit.verify(v),
                        Err(_) => false,
                    };
                    if hit {
                        let loc = edit.location();
                        self.push_ok(loc);
                        let n_edits = t.group.edits.len();
                        assert(self.idx < n_edits);
                        self.idx = self.idx + 1;
                        self.begin_edit(t)
                    } else {
                        self.stage = Stage::Capturing;
                        ApplyAction::ReadValue(self.idx)
                    }
                },
                _ => self.pending_action(),
            },
            Stage::Capturing => match ev {
                ApplyEvent::Read(r) => match r {
                    Err(e) => self.fail_edit(t, e.message),
                    Ok(v) => {
                        let edit = &t.group.edits[self.idx];
                        assert(edit@ == p.edits[self.idx as int]);
                        let saved = edit.capture(&v);
                        self.pending = Some(saved);
                        self.stage = Stage::Writing;
                        ApplyAction::WriteValue(self.idx)
                    },
                },
                _ => self.pending_action(),
            },
            Stage::Writing => match ev {
                ApplyEvent::Wrote(r) => match r {
                    Err(e) => self.fail_edit(t, e.message),
                    Ok(_) => {
                        self.stage = Stage::Verifying;
                        ApplyAction::ReadValue(self.idx)
                    },
                },
                _ => self.pending_action(),
            },
            Stage::Verifying => match ev {
                ApplyEvent::Read(r) => match r {
                    Err(e) => self.fail_edit(t, e.message),
                    Ok(v) => {
                        let edit = &t.group.edits[self.idx];
                        assert(edit@ == p.edits[self.idx as int]);
                        if edit.verify(&v) {
                            let loc = edit.location();
                            self.push_ok(loc);
                            let ghost before = self@;
                            let sv = self.pending.take().unwrap();
                            let ghost svv = sv@;
                            self.done_idx.push(self.idx);
                            self.done_saved.push(sv);
                            assert(self.done_idx@.map_values(|i: usize| i as nat) =~= before.done_idx.push(
                                self.idx as nat,
                            ));
                            assert(saved_views(self.done_saved@) =~= before.done_saved.push(svv));
                            let n_edits = t.group.edits.len();
                        assert(self.idx < n_edits);
                            self.idx = self.idx + 1;
                            self.begin_edit(t)
                        } else {
                            self.stage = Stage::RevertingFailed;
                            match &self.pending {
                                Some(sv) => ApplyAction::Revert(sv.duplicate()),
                                None => ApplyAction::Finish,
                            }
                        }
                    },
                },
                _ => self.pending_action(),
            },
            Stage::RevertingFailed => match ev {
                ApplyEvent::Reverted(r) => match r {
                    Err(e) => self.fail_edit(t, e.message),
                    Ok(_) => self.fail_edit(t, owned("The change could not be verified and was rolled back.")),
                },
                _ => self.pending_action(),
            },
            Stage::HookApplying => match ev {
                ApplyEvent::HookRan(r) => match r {
                    Err(e) => self.fail_system(t, "system command", e.message),
                    Ok(_) => {
                        self.push_ok(owned("system command"));
                        if t.extra_verify.is_some() {
                            self.stage = Stage::HookVerifying;
                            ApplyAction::RunVerifyHook
                        } else {
                            self.finish(t)
                        }
                    },
                },
                _ => self.pending_action(),
            },
            Stage::HookVerifying => match ev {
                ApplyEvent::HookChecked(r) => match r {
                    Ok(true) => self.finish(t),
                    Ok(false) => {
                        if t.extra_restore.is_some() {
                            self.stage = Stage::HookRestoring;
                            ApplyAction::RunRestoreHook
                        } else {
                            self.fail_system(
                                t,
                                "system command verification",
                                owned("The change could not be verified and was rolled back."),
                            )
                        }
                    },
                    Err(e) => self.fail_system(t, "system command verification", e.message),
                },
                _ => self.pending_action(),
            },
            Stage::HookRestoring => match ev {
                ApplyEvent::HookRan(_) => self.fail_system(
                    t,
                    "system command verification",
                    owned("The change could not be verified and was rolled back."),
                ),
                _ => self.pending_action(),
            },
            Stage::RollingBack => match ev {
                ApplyEvent::Reverted(_) => {
                    self.rb = self.rb - 1;
                    self.rollback(t)
                },
                _ => self.pending_action(),
            },
            Stage::FinalRestore => match ev {
                ApplyEvent::HookRan(_) => {
                    self.stage = Stage::Done;
                    ApplyAction::Finish
                },
                _ => self.pending_action(),
            },
            Stage::Done => ApplyAction::Finish,
        }
    }
}

/// Every step keeps the run's bookkeeping consistent.
proof fn lemma_step_wf(p: PlanView, s: RunView, ev: EventView)
    requires
        run_wf(p, s),
    ensures
        run_wf(p, apply_step(p, s, ev).0),
{
}

impl Tweak {
    /// Starts applying the tweak: every edit is captured, written and read
    /// back in order, then the command step runs; a failure puts back every
    /// completed edit newest first. Returns the run and its first action.
    pub fn apply(&self) -> (r: (ApplyRun, ApplyAction))
        ensures
            (r.0@, r.1@) == begin_edit_spec(plan_of(*self), initial_run()),
            run_wf(plan_of(*self), r.0@),
    {
        let mut run = ApplyRun {
            stage: Stage::Probing,
            idx: 0,
            outcomes: Vec::new(),
            done_idx: Vec::new(),
            done_saved: Vec::new(),
            pending: None,
            all_ok: true,
            rb: 0,
        };
        assert(run@ =~= initial_run());
        let a = run.begin_edit(self);
        (run, a)
    }
}


/// One step of a restore: put back an edit's captured value, when one was
/// captured, or run the tweak's command undo step.
pub struct RestoreStep {
    pub location: String,
    /// `None`: nothing was captured for this edit, so there is nothing to put back.
    pub action: Option<Result<RegAction, ZenouError>>,
    /// The step runs the tweak's command undo step (`extra_restore`).
    pub runs_undo: bool,
}

/// `r` is the plan that puts back `saved`: refused exactly when its hive is unknown.
pub open spec fn revert_planned(saved: SavedView, r: Result<RegAction, ZenouError>) -> bool {
    match r {
        Ok(a) => crate::registry::hive_named(crate::text::upper_seq(saved.hive)) matches Some(h)
            && a@ == crate::registry::restore_action(saved, h),
        Err(_) => crate::registry::hive_named(crate::text::upper_seq(saved.hive)) is None,
    }
}

/// Restore step `k` of a tweak with edits `e`: edit `e.len() - 1 - k` (newest
/// first), put back from `saved` at the same index when there is one.
pub open spec fn restore_step_ok(e: Seq<EditView>, saved: Seq<SavedView>, k: int, st: RestoreStep) -> bool {
    let i = e.len() - 1 - k;
    &&& st.location@ == edit_location(e[i])
    &&& !st.runs_undo
    &&& if i < saved.len() {
        st.action matches Some(r) && revert_planned(saved[i], r)
    } else {
        st.action is None
    }
}

/// The outcome of a restore step, given the result of putting the value back.
pub fn restore_outcome(location: String, result: Result<(), ZenouError>) -> (o: StepOutcome)
    ensures
        o@ == match result {
            Ok(_) => ok_step(location@),
            Err(e) => failed_step(location@, e.message@),
        },
{
    match result {
        Ok(_) => StepOutcome::success(location),
        Err(e) => StepOutcome::failure(location, e.message),
    }
}

impl Tweak {
    /// Plans the restore of previously captured originals: the edits newest
    /// first, each put back from the capture at its index (an edit with no
    /// capture is left alone). The command undo step, when the tweak has one,
    /// runs after them; each result becomes a step by `restore_outcome`.
    pub fn restore(&self, saved: &[SavedValue]) -> (r: Vec<RestoreStep>)
        ensures
            r@.len() == self.group.edits@.len() + if self.extra_restore is Some { 1int } else { 0int },
            self.extra_restore is Some ==> ({
                let last = r@[r@.len() - 1];
                last.location@ == "system command"@ && last.action is None && last.runs_undo
            }),
            forall|k: int| 0 <= k < self.group.edits@.len() ==> restore_step_ok(
                edit_views(self.group.edits@),
                saved_views(saved@),
                k,
                #[trigger] r@[k],
            ),
    {
        let n = self.group.edits.len();
        let ghost ev = edit_views(self.group.edits@);
        let ghost sv = saved_views(saved@);
        let mut out: Vec<RestoreStep> = Vec::new();
        let mut k: usize = 0;
        while k < n
            invariant
                n == self.group.edits@.len(),
                ev == edit_views(self.group.edits@),
                sv == saved_views(saved@),
                k <= n,
                out@.len() == k,
                forall|j: int| 0 <= j < k ==> restore_step_ok(ev, sv, j, #[trigger] out@[j]),
            decreases n - k,
        {
            let i = n - 1 - k;
            let edit = &self.group.edits[i];
            let action = if i < saved.len() {
                Some(edit.revert(&saved[i]))
            } else {
                None
            };
            let step = RestoreStep { location: edit.location(), action, runs_undo: false };
            proof {
                assert(ev[i as int] == edit@);
                if i < saved@.len() {
                    assert(sv[i as int] == saved@[i as int]@);
                }
            }
            out.push(step);
            k = k + 1;
        }
        if self.extra_restore.is_some() {
            out.push(RestoreStep { location: owned("system command"), action: None, runs_undo: true });
        }
        out
    }
}

proof fn lemma_count_hits_bounds(e: Seq<EditView>, r: Seq<Result<Option<RegValueView>, ()>>, tiv: bool)
    ensures
        count_hits(e, r, tiv) <= e.len(),
        count_hits(e, r, tiv) == e.len() ==> forall|i: int| 0 <= i < e.len() ==> part_holds(#[trigger] e[i].kind, r[i], tiv),
        count_hits(e, r, tiv) == 0 ==> forall|i: int| 0 <= i < e.len() ==> !part_holds(#[trigger] e[i].kind, r[i], tiv),
    decreases e.len(),
{
    if e.len() > 0 {
        let e1 = e.drop_last();
        lemma_count_hits_bounds(e1, r, tiv);
        assert forall|i: int| 0 <= i < e.len() - 1 implies #[trigger] e[i] == e1[i] by {}
    }
}

/// A tweak is shown as Applied only when its state was verified: every
/// edit's target read back in place (or, for an inverted tweak, every edited
/// value found absent) and the command verification, when the tweak has
/// one, answered yes.
pub proof fn law_applied_means_verified(
    e: Seq<EditView>,
    r: Seq<Result<Option<RegValueView>, ()>>,
    target_is_values: bool,
    verify: Option<Result<bool, ()>>,
)
    requires
        r.len() == e.len(),
        combined_state(count_hits(e, r, target_is_values), e.len(), verify) == TweakState::Applied,
    ensures
        target_is_values ==> forall|i: int| 0 <= i < e.len() ==> target_holds(#[trigger] e[i].kind, r[i]),
        !target_is_values ==> forall|i: int| 0 <= i < e.len() ==> r[i] == Ok::<Option<RegValueView>, ()>(None),
        verify is None || verify == Some(Ok::<bool, ()>(true)),
{
    lemma_count_hits_bounds(e, r, target_is_values);
    assert forall|i: int| 0 <= i < e.len() implies (target_is_values ==> target_holds(e[i].kind, r[i])) && (
    !target_is_values ==> r[i] == Ok::<Option<RegValueView>, ()>(None)) by {
        assert(part_holds(e[i].kind, r[i], target_is_values));
    }
}

/// A tweak is shown as Available only when nothing of its target is in
/// effect: no edit's part holds and the command verification, when the
/// tweak has one, answered no.
pub proof fn law_available_means_nothing_in_effect(
    e: Seq<EditView>,
    r: Seq<Result<Option<RegValueView>, ()>>,
    target_is_values: bool,
    verify: Option<Result<bool, ()>>,
)
    requires
        r.len() == e.len(),
        combined_state(count_hits(e, r, target_is_values), e.len(), verify) == TweakState::Available,
    ensures
        forall|i: int| 0 <= i < e.len() ==> !part_holds(#[trigger] e[i].kind, r[i], target_is_values),
        verify is None || verify == Some(Ok::<bool, ()>(false)),
{
    lemma_count_hits_bounds(e, r, target_is_values);
}

proof fn lemma_count_hits_exact(e: Seq<EditView>, r: Seq<Result<Option<RegValueView>, ()>>, tiv: bool)
    ensures
        (forall|i: int| 0 <= i < e.len() ==> part_holds(#[trigger] e[i].kind, r[i], tiv)) ==> count_hits(e, r, tiv)
            == e.len(),
        (forall|i: int| 0 <= i < e.len() ==> !part_holds(#[trigger] e[i].kind, r[i], tiv)) ==> count_hits(e, r, tiv)
            == 0,
    decreases e.len(),
{
    if e.len() > 0 {
        let e1 = e.drop_last();
        lemma_count_hits_exact(e1, r, tiv);
        assert forall|i: int| 0 <= i < e.len() - 1 implies #[trigger] e[i] == e1[i] by {}
        assert(e[e.len() - 1] == e.last());
    }
}

/// The parts decide the state: a tweak whose every edit's part holds, and
/// whose command verification (when it has one) answers yes, is Applied; one
/// with no part holding and a verification (when it has one) answering no
/// is Available; and one with some parts holding and others not is Partial.
pub proof fn law_state_from_parts(
    e: Seq<EditView>,
    r: Seq<Result<Option<RegValueView>, ()>>,
    target_is_values: bool,
    verify: Option<Result<bool, ()>>,
)
    requires
        r.len() == e.len(),
    ensures
        (forall|i: int| 0 <= i < e.len() ==> part_holds(#[trigger] e[i].kind, r[i], target_is_values)) && (verify is None
            || verify == Some(Ok::<bool, ()>(true))) ==> combined_state(count_hits(e, r, target_is_values), e.len(), verify)
            == TweakState::Applied,
        (forall|i: int| 0 <= i < e.len() ==> !part_holds(#[trigger] e[i].kind, r[i], target_is_values)) && (verify
            == Some(Ok::<bool, ()>(false)) || (verify is None && e.len() > 0)) ==> combined_state(
            count_hits(e, r, target_is_values),
            e.len(),
            verify,
        ) == TweakState::Available,
        (exists|i: int| 0 <= i < e.len() && part_holds(#[trigger] e[i].kind, r[i], target_is_values)) && (exists|j: int|
            0 <= j < e.len() && !part_holds(#[trigger] e[j].kind, r[j], target_is_values)) && !(verify matches Some(
            Err(_),
        )) ==> combined_state(count_hits(e, r, target_is_values), e.len(), verify) == TweakState::Partial,
{
    lemma_count_hits_exact(e, r, target_is_values);
    lemma_count_hits_bounds(e, r, target_is_values);
}

// ---------------------------------------------------------------- restore law

/// The captures of every edit's value in registry `m0`.
pub open spec fn captures_of(e: Seq<EditView>, m0: Map<(Hive, Seq<char>, Seq<char>), RegValueView>) -> Seq<SavedView> {
    Seq::new(e.len(), |i: int| capture_spec(e[i].hive, e[i].path, e[i].name, m0.get(edit_key(e[i]))))
}

/// The mutations of a restore plan: edit `n - 1 - k` put back at step `k`.
pub open spec fn restore_actions(e: Seq<EditView>, saved: Seq<SavedView>) -> Seq<RegActionView> {
    Seq::new(
        e.len(),
        |k: int| crate::registry::restore_action(saved[e.len() - 1 - k], e[e.len() - 1 - k].hive),
    )
}

/// The registry after the mutations `acts`, in order.
pub open spec fn apply_all(m: Map<(Hive, Seq<char>, Seq<char>), RegValueView>, acts: Seq<RegActionView>) -> Map<
    (Hive, Seq<char>, Seq<char>),
    RegValueView,
>
    decreases acts.len(),
{
    if acts.len() == 0 {
        m
    } else {
        apply_all(crate::registry::apply_action(m, acts[0]), acts.drop_first())
    }
}

/// The edits touch distinct values, and every original value at an edited
/// location has a type with a name of its own.
pub open spec fn edits_restorable(e: Seq<EditView>, m0: Map<(Hive, Seq<char>, Seq<char>), RegValueView>) -> bool {
    plan_restorable(PlanView { edits: e, target_is_values: true, apply_hook: false, verify_hook: false, restore_hook: false }, m0)
}

/// Restoring the captures of a tweak's edits puts every edited value back as
/// it was when captured (present with the same type and bytes, or absent),
/// whatever was written in between, and leaves every other value alone; the
/// plan `Tweak::restore` makes refers to each edit's own hive.
pub proof fn law_restore_puts_back(
    e: Seq<EditView>,
    m0: Map<(Hive, Seq<char>, Seq<char>), RegValueView>,
    m: Map<(Hive, Seq<char>, Seq<char>), RegValueView>,
)
    requires
        edits_restorable(e, m0),
    ensures
        forall|i: int| 0 <= i < e.len() ==> crate::registry::hive_named(
            crate::text::upper_seq((#[trigger] captures_of(e, m0)[i]).hive),
        ) == Some(e[i].hive),
        forall|i: int| 0 <= i < e.len() ==> #[trigger] apply_all(m, restore_actions(e, captures_of(e, m0))).get(
            edit_key(e[i]),
        ) == m0.get(edit_key(e[i])),
        forall|k: (Hive, Seq<char>, Seq<char>)|
            (forall|i: int| 0 <= i < e.len() ==> k != edit_key(#[trigger] e[i])) ==> #[trigger] apply_all(
                m,
                restore_actions(e, captures_of(e, m0)),
            ).get(k) == m.get(k),
    decreases e.len(),
{
    let caps = captures_of(e, m0);
    assert forall|i: int| 0 <= i < e.len() implies crate::registry::hive_named(
        crate::text::upper_seq((#[trigger] captures_of(e, m0)[i]).hive),
    ) == Some(e[i].hive) by {
        lemma_restore_effect(e[i], m, m0, edit_key(e[i]));
    }
    if e.len() > 0 {
        let n = e.len();
        let last = e[n - 1];
        let e1 = e.drop_last();
        assert(edits_restorable(e1, m0)) by {
            assert forall|i: int| 0 <= i < e1.len() && m0.contains_key(edit_key(#[trigger] e1[i])) implies crate::registry::named_type(
                m0[edit_key(e1[i])].vtype,
            ) by {
                assert(e1[i] == e[i]);
            }
        }
        assert(captures_of(e1, m0) =~= caps.drop_last());
        let acts = restore_actions(e, caps);
        assert(acts.drop_first() =~= restore_actions(e1, captures_of(e1, m0)));
        let m1 = crate::registry::apply_action(m, acts[0]);
        assert(acts[0] == crate::registry::restore_action(caps[n - 1], last.hive));
        assert forall|k: (Hive, Seq<char>, Seq<char>)| #[trigger] m1.get(k) == if k == edit_key(last) {
            m0.get(k)
        } else {
            m.get(k)
        } by {
            lemma_restore_effect(last, m, m0, k);
        }
        law_restore_puts_back(e1, m0, m1);
        assert(apply_all(m, acts) == apply_all(m1, restore_actions(e1, captures_of(e1, m0))));
        assert forall|i: int| 0 <= i < e.len() implies #[trigger] apply_all(m, restore_actions(e, captures_of(e, m0))).get(
            edit_key(e[i]),
        ) == m0.get(edit_key(e[i])) by {
            if i < n - 1 {
                assert(e1[i] == e[i]);
            } else {
                assert forall|j: int| 0 <= j < e1.len() implies edit_key(last) != edit_key(#[trigger] e1[j]) by {
                    assert(e1[j] == e[j]);
                }
            }
        }
        assert forall|k: (Hive, Seq<char>, Seq<char>)|
            (forall|i: int| 0 <= i < e.len() ==> k != edit_key(#[trigger] e[i])) implies #[trigger] apply_all(
                m,
                restore_actions(e, captures_of(e, m0)),
            ).get(k) == m.get(k) by {
            assert(k != edit_key(e[n - 1]));
            assert forall|j: int| 0 <= j < e1.len() implies k != edit_key(#[trigger] e1[j]) by {
                assert(e1[j] == e[j]);
            }
        }
    }
}

// ---------------------------------------------------------------- rollback laws

/// The value an edit leaves in place (`None`: the value is deleted).
pub open spec fn target_value(e: EditView) -> Option<RegValueView> {
    match write_spec(e) {
        RegActionView::Write { key, value } => Some(value),
        RegActionView::Delete { key } => None,
    }
}

/// The plan edits distinct values, and every original value at an edited
/// location has a type with a name of its own (so a capture restores it exactly).
pub open spec fn plan_restorable(
    p: PlanView,
    m0: Map<(Hive, Seq<char>, Seq<char>), RegValueView>,
) -> bool {
    &&& forall|i: int, j: int|
        0 <= i < p.edits.len() && 0 <= j < p.edits.len() && i != j ==> edit_key(p.edits[i]) != edit_key(
            p.edits[j],
        )
    &&& forall|i: int|
        0 <= i < p.edits.len() && m0.contains_key(edit_key(#[trigger] p.edits[i]))
            ==> crate::registry::named_type(m0[edit_key(p.edits[i])].vtype)
}

/// The system answers the pending action as a registry would: reads return
/// the stored value, a write either succeeds (and takes effect) or fails
/// (and changes nothing), a revert succeeds and takes effect, and command
/// steps leave the edited values alone.
pub open spec fn registry_responds(
    p: PlanView,
    a: ActionView,
    ev: EventView,
    m: Map<(Hive, Seq<char>, Seq<char>), RegValueView>,
    m2: Map<(Hive, Seq<char>, Seq<char>), RegValueView>,
) -> bool {
    match a {
        ActionView::ReadValue(i) => ev == EventView::Read(Ok(m.get(edit_key(p.edits[i as int]))))
            && m2 == m,
        ActionView::WriteValue(i) => match ev {
            EventView::Wrote(Ok(_)) => m2 == crate::registry::apply_action(m, write_spec(p.edits[i as int])),
            EventView::Wrote(Err(_)) => m2 == m,
            _ => false,
        },
        ActionView::Revert(sv) => ev == EventView::Reverted(Ok(())) && (crate::registry::hive_named(
            crate::text::upper_seq(sv.hive),
        ) matches Some(h) && m2 == crate::registry::apply_action(m, crate::registry::restore_action(sv, h))),
        ActionView::RunApplyHook => ev is HookRan && m2 == m,
        ActionView::RunRestoreHook => ev is HookRan && m2 == m,
        ActionView::RunVerifyHook => ev is HookChecked && m2 == m,
        ActionView::Finish => m2 == m,
    }
}

/// The completed edit at position `j` has been put back.
pub open spec fn reverted(s: RunView, j: int) -> bool {
    !s.all_ok && (s.stage is RollingBack || s.stage is FinalRestore || s.stage is Done) && j >= s.rb
}

/// The current edit's target has been written and not yet put back.
pub open spec fn current_written(s: RunView) -> bool {
    s.stage is Verifying || s.stage is RevertingFailed
}

/// The completed edits are in order and were all before the current edit.
pub open spec fn inv_order(s: RunView) -> bool {
    let n = s.done_idx.len();
    &&& forall|j: int| 0 <= j < n ==> #[trigger] s.done_idx[j] < s.idx
    &&& forall|j1: int, j2: int| 0 <= j1 < j2 < n ==> s.done_idx[j1] < s.done_idx[j2]
}

/// Each completed edit carries the capture of its original, verified its
/// target, and holds the target or, once put back, the original.
pub open spec fn inv_done(
    p: PlanView,
    s: RunView,
    m: Map<(Hive, Seq<char>, Seq<char>), RegValueView>,
    m0: Map<(Hive, Seq<char>, Seq<char>), RegValueView>,
) -> bool {
    forall|j: int| 0 <= j < s.done_idx.len() ==> #[trigger] done_entry_ok(p, s, m, m0, j, reverted(s, j))
}

/// Completed edit `j` carries the capture of its original, verified its
/// target, and holds the original when `back`, else the target.
pub open spec fn done_entry_ok(
    p: PlanView,
    s: RunView,
    m: Map<(Hive, Seq<char>, Seq<char>), RegValueView>,
    m0: Map<(Hive, Seq<char>, Seq<char>), RegValueView>,
    j: int,
    back: bool,
) -> bool {
    let e = p.edits[s.done_idx[j] as int];
    &&& s.done_saved[j] == capture_spec(e.hive, e.path, e.name, m0.get(edit_key(e)))
    &&& verify_spec(e.kind, target_value(e))
    &&& if back {
        m.get(edit_key(e)) == m0.get(edit_key(e))
    } else {
        m.get(edit_key(e)) == target_value(e)
    }
}

/// The current edit's capture and written value.
pub open spec fn inv_current(
    p: PlanView,
    s: RunView,
    m: Map<(Hive, Seq<char>, Seq<char>), RegValueView>,
    m0: Map<(Hive, Seq<char>, Seq<char>), RegValueView>,
) -> bool {
    &&& (s.stage is Writing || s.stage is Verifying || s.stage is RevertingFailed) ==> s.pending
        == Some(
        capture_spec(
            p.edits[s.idx as int].hive,
            p.edits[s.idx as int].path,
            p.edits[s.idx as int].name,
            m0.get(edit_key(p.edits[s.idx as int])),
        ),
    )
    &&& current_written(s) ==> m.get(edit_key(p.edits[s.idx as int])) == target_value(
        p.edits[s.idx as int],
    )
}

/// Edits passed over without writing already held their targets.
pub open spec fn inv_probe(
    p: PlanView,
    s: RunView,
    m0: Map<(Hive, Seq<char>, Seq<char>), RegValueView>,
) -> bool {
    forall|i: int|
        0 <= i < s.idx && (forall|j: int| 0 <= j < s.done_idx.len() ==> s.done_idx[j] != i) ==> verify_spec(
            (#[trigger] p.edits[i]).kind,
            m0.get(edit_key(p.edits[i])),
        )
}

/// Every value not holding a target holds its original.
pub open spec fn inv_keys(
    p: PlanView,
    s: RunView,
    m: Map<(Hive, Seq<char>, Seq<char>), RegValueView>,
    m0: Map<(Hive, Seq<char>, Seq<char>), RegValueView>,
) -> bool {
    forall|k: (Hive, Seq<char>, Seq<char>)|
        (forall|j: int|
            0 <= j < s.done_idx.len() && !reverted(s, j) ==> k != edit_key(p.edits[s.done_idx[j] as int]))
            && !(current_written(s) && k == edit_key(p.edits[s.idx as int])) ==> #[trigger] m.get(k)
            == m0.get(k)
}

/// Stage bookkeeping.
pub open spec fn inv_stage(p: PlanView, s: RunView) -> bool {
    &&& s.stage is FinalRestore ==> !s.all_ok && s.rb == 0
    &&& s.stage is RollingBack ==> !s.all_ok
    &&& (s.stage is Done && !s.all_ok) ==> s.rb == 0
    &&& (s.all_ok && (s.stage is HookApplying || s.stage is HookVerifying || s.stage is HookRestoring
        || s.stage is Done)) ==> s.idx == p.edits.len()
    &&& (s.stage is HookApplying || s.stage is HookVerifying || s.stage is HookRestoring) ==> s.all_ok
    &&& (s.stage is Probing || s.stage is Capturing || s.stage is Writing || s.stage is Verifying
        || s.stage is RevertingFailed) ==> s.all_ok
}

/// What an apply run keeps true of the registry `m`, which held `m0` when it started.
pub open spec fn rollback_inv(
    p: PlanView,
    s: RunView,
    m: Map<(Hive, Seq<char>, Seq<char>), RegValueView>,
    m0: Map<(Hive, Seq<char>, Seq<char>), RegValueView>,
) -> bool {
    &&& plan_restorable(p, m0)
    &&& run_wf(p, s)
    &&& inv_order(s)
    &&& inv_done(p, s, m, m0)
    &&& inv_current(p, s, m, m0)
    &&& inv_probe(p, s, m0)
    &&& inv_keys(p, s, m, m0)
    &&& inv_stage(p, s)
}

/// A run starts consistent with the registry it starts in.
pub proof fn law_apply_start(p: PlanView, m0: Map<(Hive, Seq<char>, Seq<char>), RegValueView>)
    requires
        plan_restorable(p, m0),
    ensures
        rollback_inv(p, begin_edit_spec(p, initial_run()).0, m0, m0),
        begin_edit_spec(p, initial_run()).1 == pending_spec(begin_edit_spec(p, initial_run()).0),
{
}

/// The action a step returns is the one its new state waits on.
pub proof fn lemma_step_action_pending(p: PlanView, s: RunView, ev: EventView)
    requires
        run_wf(p, s),
    ensures
        apply_step(p, s, ev).1 == pending_spec(apply_step(p, s, ev).0),
{
}

/// The registry between steps: completed edits before `upto` hold their
/// targets, the later ones hold their originals, and nothing else changed.
pub open spec fn settled(
    p: PlanView,
    s: RunView,
    m: Map<(Hive, Seq<char>, Seq<char>), RegValueView>,
    m0: Map<(Hive, Seq<char>, Seq<char>), RegValueView>,
    upto: nat,
) -> bool {
    let n = s.done_idx.len();
    &&& plan_restorable(p, m0)
    &&& s.idx <= p.edits.len()
    &&& s.done_idx.len() == s.done_saved.len()
    &&& upto <= n
    &&& s.rb <= n
    &&& inv_order(s)
    &&& forall|j: int| 0 <= j < n ==> #[trigger] settled_entry(p, s, m, m0, upto, j)
    &&& inv_probe(p, s, m0)
    &&& forall|k: (Hive, Seq<char>, Seq<char>)|
        (forall|j: int| 0 <= j < upto ==> k != edit_key(p.edits[s.done_idx[j] as int]))
            ==> #[trigger] m.get(k) == m0.get(k)
}

/// Completed edit `j` is settled: put back when at or after `upto`.
pub open spec fn settled_entry(
    p: PlanView,
    s: RunView,
    m: Map<(Hive, Seq<char>, Seq<char>), RegValueView>,
    m0: Map<(Hive, Seq<char>, Seq<char>), RegValueView>,
    upto: nat,
    j: int,
) -> bool {
    done_entry_ok(p, s, m, m0, j, j >= upto)
}

proof fn lemma_transfer(
    p: PlanView,
    s: RunView,
    s2: RunView,
    m: Map<(Hive, Seq<char>, Seq<char>), RegValueView>,
    m0: Map<(Hive, Seq<char>, Seq<char>), RegValueView>,
    upto: nat,
)
    requires
        settled(p, s, m, m0, upto),
        s2.done_idx == s.done_idx,
        s2.done_saved == s.done_saved,
        s2.idx == s.idx,
        !current_written(s2),
        forall|j: int| 0 <= j < s.done_idx.len() ==> reverted(s2, j) == (j >= upto),
    ensures
        inv_done(p, s2, m, m0),
        inv_keys(p, s2, m, m0),
        inv_probe(p, s2, m0),
        inv_order(s2),
{
    assert forall|j: int| 0 <= j < s2.done_idx.len() implies #[trigger] done_entry_ok(
        p,
        s2,
        m,
        m0,
        j,
        reverted(s2, j),
    ) by {
        assert(settled_entry(p, s, m, m0, upto, j));
    }
    assert forall|k: (Hive, Seq<char>, Seq<char>)|
        (forall|j: int|
            0 <= j < s2.done_idx.len() && !reverted(s2, j) ==> k != edit_key(p.edits[s2.done_idx[j] as int]))
            && !(current_written(s2) && k == edit_key(p.edits[s2.idx as int])) implies #[trigger] m.get(k)
        == m0.get(k) by {
        assert forall|j: int| 0 <= j < upto implies k != edit_key(p.edits[s.done_idx[j] as int]) by {
            assert(!reverted(s2, j));
        }
    }
}

proof fn lemma_settled_same(
    p: PlanView,
    s: RunView,
    s1: RunView,
    m: Map<(Hive, Seq<char>, Seq<char>), RegValueView>,
    m0: Map<(Hive, Seq<char>, Seq<char>), RegValueView>,
    upto: nat,
)
    requires
        settled(p, s, m, m0, upto),
        s1.done_idx == s.done_idx,
        s1.done_saved == s.done_saved,
        s1.idx == s.idx,
        s1.rb <= s.done_idx.len(),
    ensures
        settled(p, s1, m, m0, upto),
{
    assert forall|j: int| 0 <= j < s1.done_idx.len() implies #[trigger] settled_entry(p, s1, m, m0, upto, j) by {
        assert(settled_entry(p, s, m, m0, upto, j));
    }
}

proof fn lemma_final_restore(
    p: PlanView,
    s: RunView,
    m: Map<(Hive, Seq<char>, Seq<char>), RegValueView>,
    m0: Map<(Hive, Seq<char>, Seq<char>), RegValueView>,
)
    requires
        settled(p, s, m, m0, 0),
        !s.all_ok,
        s.rb == 0,
    ensures
        rollback_inv(p, final_restore_spec(p, s).0, m, m0),
{
    let s2 = final_restore_spec(p, s).0;
    lemma_transfer(p, s, s2, m, m0, 0);
}

proof fn lemma_rollback(
    p: PlanView,
    s: RunView,
    m: Map<(Hive, Seq<char>, Seq<char>), RegValueView>,
    m0: Map<(Hive, Seq<char>, Seq<char>), RegValueView>,
)
    requires
        settled(p, s, m, m0, s.rb),
        !s.all_ok,
    ensures
        rollback_inv(p, rollback_spec(p, s).0, m, m0),
{
    if s.rb > 0 {
        let s2 = rollback_spec(p, s).0;
        lemma_transfer(p, s, s2, m, m0, s.rb);
    } else {
        let s1 = RunView { outcomes: mark_rolled_back(s.outcomes), ..s };
        lemma_settled_same(p, s, s1, m, m0, 0);
        lemma_final_restore(p, s1, m, m0);
    }
}

proof fn lemma_finish(
    p: PlanView,
    s: RunView,
    m: Map<(Hive, Seq<char>, Seq<char>), RegValueView>,
    m0: Map<(Hive, Seq<char>, Seq<char>), RegValueView>,
)
    requires
        settled(p, s, m, m0, s.done_idx.len()),
        s.all_ok ==> s.idx == p.edits.len(),
    ensures
        rollback_inv(p, finish_spec(p, s).0, m, m0),
{
    if s.all_ok {
        let s2 = finish_spec(p, s).0;
        lemma_transfer(p, s, s2, m, m0, s.done_idx.len());
    } else {
        let s1 = RunView { rb: s.done_saved.len(), ..s };
        lemma_settled_same(p, s, s1, m, m0, s.done_idx.len());
        lemma_rollback(p, s1, m, m0);
    }
}

proof fn lemma_after_edits(
    p: PlanView,
    s: RunView,
    m: Map<(Hive, Seq<char>, Seq<char>), RegValueView>,
    m0: Map<(Hive, Seq<char>, Seq<char>), RegValueView>,
)
    requires
        settled(p, s, m, m0, s.done_idx.len()),
        s.all_ok ==> s.idx == p.edits.len(),
    ensures
        rollback_inv(p, after_edits_spec(p, s).0, m, m0),
{
    if s.all_ok && p.apply_hook {
        let s2 = after_edits_spec(p, s).0;
        lemma_transfer(p, s, s2, m, m0, s.done_idx.len());
    } else {
        lemma_finish(p, s, m, m0);
    }
}

proof fn lemma_begin_edit(
    p: PlanView,
    s: RunView,
    m: Map<(Hive, Seq<char>, Seq<char>), RegValueView>,
    m0: Map<(Hive, Seq<char>, Seq<char>), RegValueView>,
)
    requires
        settled(p, s, m, m0, s.done_idx.len()),
        s.all_ok,
    ensures
        rollback_inv(p, begin_edit_spec(p, s).0, m, m0),
{
    if s.idx < p.edits.len() {
        let s2 = begin_edit_spec(p, s).0;
        lemma_transfer(p, s, s2, m, m0, s.done_idx.len());
    } else {
        lemma_after_edits(p, s, m, m0);
    }
}

/// The run between steps satisfies `settled` for the completed edits that are
/// not put back.
proof fn lemma_inv_settled(
    p: PlanView,
    s: RunView,
    m: Map<(Hive, Seq<char>, Seq<char>), RegValueView>,
    m0: Map<(Hive, Seq<char>, Seq<char>), RegValueView>,
)
    requires
        rollback_inv(p, s, m, m0),
        !current_written(s),
        !(s.stage is RollingBack || s.stage is FinalRestore || (s.stage is Done && !s.all_ok)),
    ensures
        settled(p, s, m, m0, s.done_idx.len()),
{
    assert forall|k: (Hive, Seq<char>, Seq<char>)|
        (forall|j: int| 0 <= j < s.done_idx.len() ==> k != edit_key(p.edits[s.done_idx[j] as int]))
            implies #[trigger] m.get(k) == m0.get(k) by {
        assert(forall|j: int|
            0 <= j < s.done_idx.len() && !reverted(s, j) ==> k != edit_key(p.edits[s.done_idx[j] as int]));
    }
    assert forall|j: int| 0 <= j < s.done_idx.len() implies #[trigger] settled_entry(
        p,
        s,
        m,
        m0,
        s.done_idx.len(),
        j,
    ) by {
        assert(done_entry_ok(p, s, m, m0, j, reverted(s, j)));
        assert(!reverted(s, j));
    }
}

proof fn lemma_write_effect(
    e: EditView,
    m: Map<(Hive, Seq<char>, Seq<char>), RegValueView>,
    k: (Hive, Seq<char>, Seq<char>),
)
    ensures
        crate::registry::apply_action(m, write_spec(e)).get(k) == if k == edit_key(e) {
            target_value(e)
        } else {
            m.get(k)
        },
{
}

proof fn lemma_restore_effect(
    e: EditView,
    m: Map<(Hive, Seq<char>, Seq<char>), RegValueView>,
    m0: Map<(Hive, Seq<char>, Seq<char>), RegValueView>,
    k: (Hive, Seq<char>, Seq<char>),
)
    requires
        m0.contains_key(edit_key(e)) ==> crate::registry::named_type(m0[edit_key(e)].vtype),
    ensures
        ({
            let sv = capture_spec(e.hive, e.path, e.name, m0.get(edit_key(e)));
            &&& crate::registry::hive_named(crate::text::upper_seq(sv.hive)) == Some(e.hive)
            &&& crate::registry::apply_action(m, crate::registry::restore_action(sv, e.hive)).get(k) == if k
                == edit_key(e) {
                m0.get(k)
            } else {
                m.get(k)
            }
        }),
{
    crate::registry::law_capture_restore_round_trip(m0, m, e.hive, e.path, e.name);
}

/// The current edit's value still holds its original.
proof fn lemma_current_original(
    p: PlanView,
    s: RunView,
    m: Map<(Hive, Seq<char>, Seq<char>), RegValueView>,
    m0: Map<(Hive, Seq<char>, Seq<char>), RegValueView>,
)
    requires
        settled(p, s, m, m0, s.done_idx.len()),
        s.idx < p.edits.len(),
    ensures
        m.get(edit_key(p.edits[s.idx as int])) == m0.get(edit_key(p.edits[s.idx as int])),
{
    let k = edit_key(p.edits[s.idx as int]);
    assert forall|j: int| 0 <= j < s.done_idx.len() implies k != edit_key(p.edits[s.done_idx[j] as int]) by {
        assert(s.done_idx[j] < s.idx);
    }
}

/// Settles the current edit as completed (its target written and verified).
proof fn lemma_complete_current(
    p: PlanView,
    s: RunView,
    m: Map<(Hive, Seq<char>, Seq<char>), RegValueView>,
    m0: Map<(Hive, Seq<char>, Seq<char>), RegValueView>,
)
    requires
        rollback_inv(p, s, m, m0),
        s.stage is Verifying,
        verify_spec(p.edits[s.idx as int].kind, target_value(p.edits[s.idx as int])),
    ensures
        ({
            let s1 = RunView {
                outcomes: s.outcomes.push(ok_step(edit_location(p.edits[s.idx as int]))),
                done_idx: s.done_idx.push(s.idx),
                done_saved: s.done_saved.push(s.pending.unwrap()),
                pending: None,
                idx: s.idx + 1,
                ..s
            };
            settled(p, s1, m, m0, s1.done_idx.len())
        }),
{
    let s1 = RunView {
        outcomes: s.outcomes.push(ok_step(edit_location(p.edits[s.idx as int]))),
        done_idx: s.done_idx.push(s.idx),
        done_saved: s.done_saved.push(s.pending.unwrap()),
        pending: None,
        idx: s.idx + 1,
        ..s
    };
    let n = s.done_idx.len();
    assert forall|j: int| 0 <= j < s1.done_idx.len() implies #[trigger] settled_entry(
        p,
        s1,
        m,
        m0,
        s1.done_idx.len(),
        j,
    ) by {
        if j < n {
            assert(done_entry_ok(p, s, m, m0, j, reverted(s, j)));
            assert(!reverted(s, j));
        }
    }
    assert forall|i: int|
        0 <= i < s1.idx && (forall|j: int| 0 <= j < s1.done_idx.len() ==> s1.done_idx[j] != i) implies verify_spec(
        (#[trigger] p.edits[i]).kind,
        m0.get(edit_key(p.edits[i])),
    ) by {
        assert(s1.done_idx[n as int] == s.idx);
        assert forall|j: int| 0 <= j < n implies s.done_idx[j] != i by {
            assert(s1.done_idx[j] == s.done_idx[j]);
        }
    }
    assert forall|k: (Hive, Seq<char>, Seq<char>)|
        (forall|j: int| 0 <= j < s1.done_idx.len() ==> k != edit_key(p.edits[s1.done_idx[j] as int]))
            implies #[trigger] m.get(k) == m0.get(k) by {
        assert(k != edit_key(p.edits[s1.done_idx[n as int] as int]));
        assert forall|j: int| 0 <= j < n && !reverted(s, j) implies k != edit_key(
            p.edits[s.done_idx[j] as int],
        ) by {
            assert(s1.done_idx[j] == s.done_idx[j]);
        }
    }
}

/// Puts back completed edit `rb - 1` during a rollback.
proof fn lemma_rollback_one(
    p: PlanView,
    s: RunView,
    m: Map<(Hive, Seq<char>, Seq<char>), RegValueView>,
    m2: Map<(Hive, Seq<char>, Seq<char>), RegValueView>,
    m0: Map<(Hive, Seq<char>, Seq<char>), RegValueView>,
)
    requires
        rollback_inv(p, s, m, m0),
        s.stage is RollingBack,
        crate::registry::hive_named(crate::text::upper_seq(s.done_saved[s.rb - 1].hive)) matches Some(h)
            && m2 == crate::registry::apply_action(m, crate::registry::restore_action(s.done_saved[s.rb - 1], h)),
    ensures
        settled(p, RunView { rb: (s.rb - 1) as nat, ..s }, m2, m0, (s.rb - 1) as nat),
{
    let r = (s.rb - 1) as int;
    let e = p.edits[s.done_idx[r] as int];
    assert(done_entry_ok(p, s, m, m0, r, reverted(s, r)));
    lemma_restore_effect(e, m, m0, edit_key(e));
    let s1 = RunView { rb: (s.rb - 1) as nat, ..s };
    assert forall|k: (Hive, Seq<char>, Seq<char>)| #[trigger] m2.get(k) == if k == edit_key(e) {
        m0.get(k)
    } else {
        m.get(k)
    } by {
        lemma_restore_effect(e, m, m0, k);
    }
    assert forall|j: int| 0 <= j < s1.done_idx.len() implies #[trigger] settled_entry(
        p,
        s1,
        m2,
        m0,
        s1.rb,
        j,
    ) by {
        assert(done_entry_ok(p, s, m, m0, j, reverted(s, j)));
        if j != r {
            assert(s.done_idx[j] != s.done_idx[r]);
            assert(edit_key(p.edits[s.done_idx[j] as int]) != edit_key(e));
        }
    }
    assert forall|k: (Hive, Seq<char>, Seq<char>)|
        (forall|j: int| 0 <= j < s1.rb ==> k != edit_key(p.edits[s1.done_idx[j] as int])) implies #[trigger] m2.get(
        k,
    ) == m0.get(k) by {
        if k != edit_key(e) {
            assert forall|j: int| 0 <= j < s.done_idx.len() && !reverted(s, j) implies k != edit_key(
                p.edits[s.done_idx[j] as int],
            ) by {}
        }
    }
}

/// A probe either passes over an edit whose target holds or moves on to capturing it.
proof fn step_probing(
    p: PlanView,
    s: RunView,
    ev: EventView,
    m: Map<(Hive, Seq<char>, Seq<char>), RegValueView>,
    m2: Map<(Hive, Seq<char>, Seq<char>), RegValueView>,
    m0: Map<(Hive, Seq<char>, Seq<char>), RegValueView>,
)
    requires
        rollback_inv(p, s, m, m0),
        registry_responds(p, pending_spec(s), ev, m, m2),
        s.stage is Probing,
    ensures
        rollback_inv(p, apply_step(p, s, ev).0, m2, m0),
{
    let i = s.idx as int;
    let n = s.done_idx.len();
    lemma_inv_settled(p, s, m, m0);
    lemma_current_original(p, s, m, m0);
    if verify_spec(p.edits[i].kind, m.get(edit_key(p.edits[i]))) {
        let s1 = RunView { outcomes: s.outcomes.push(ok_step(edit_location(p.edits[i]))), idx: s.idx + 1, ..s };
        assert forall|j: int| 0 <= j < n implies #[trigger] settled_entry(p, s1, m, m0, n, j) by {
            assert(settled_entry(p, s, m, m0, n, j));
        }
        assert forall|x: int|
            0 <= x < s1.idx && (forall|j: int| 0 <= j < n ==> s1.done_idx[j] != x) implies verify_spec(
            (#[trigger] p.edits[x]).kind,
            m0.get(edit_key(p.edits[x])),
        ) by {}
        lemma_begin_edit(p, s1, m, m0);
    } else {
        let s2 = RunView { stage: Stage::Capturing, ..s };
        lemma_transfer(p, s, s2, m, m0, n);
    }
}

/// A capture records the current edit's original or fails the edit.
proof fn step_capturing(
    p: PlanView,
    s: RunView,
    ev: EventView,
    m: Map<(Hive, Seq<char>, Seq<char>), RegValueView>,
    m2: Map<(Hive, Seq<char>, Seq<char>), RegValueView>,
    m0: Map<(Hive, Seq<char>, Seq<char>), RegValueView>,
)
    requires
        rollback_inv(p, s, m, m0),
        registry_responds(p, pending_spec(s), ev, m, m2),
        s.stage is Capturing,
    ensures
        rollback_inv(p, apply_step(p, s, ev).0, m2, m0),
{
    let n = s.done_idx.len();
    lemma_inv_settled(p, s, m, m0);
    lemma_current_original(p, s, m, m0);
    let s2 = apply_step(p, s, ev).0;
    lemma_transfer(p, s, s2, m, m0, n);
}

/// A write puts the current edit's target in place, or fails and changes nothing.
proof fn step_writing(
    p: PlanView,
    s: RunView,
    ev: EventView,
    m: Map<(Hive, Seq<char>, Seq<char>), RegValueView>,
    m2: Map<(Hive, Seq<char>, Seq<char>), RegValueView>,
    m0: Map<(Hive, Seq<char>, Seq<char>), RegValueView>,
)
    requires
        rollback_inv(p, s, m, m0),
        registry_responds(p, pending_spec(s), ev, m, m2),
        s.stage is Writing,
    ensures
        rollback_inv(p, apply_step(p, s, ev).0, m2, m0),
{
    let i = s.idx as int;
    let n = s.done_idx.len();
    lemma_inv_settled(p, s, m, m0);
    lemma_current_original(p, s, m, m0);
    match ev {
        EventView::Wrote(Ok(_)) => {
            let s2 = apply_step(p, s, ev).0;
            let e = p.edits[i];
            assert forall|k: (Hive, Seq<char>, Seq<char>)| #[trigger] m2.get(k) == if k == edit_key(e) {
                target_value(e)
            } else {
                m.get(k)
            } by {
                lemma_write_effect(e, m, k);
            }
            assert forall|j: int| 0 <= j < n implies #[trigger] done_entry_ok(
                p,
                s2,
                m2,
                m0,
                j,
                reverted(s2, j),
            ) by {
                assert(settled_entry(p, s, m, m0, n, j));
                assert(s.done_idx[j] < s.idx);
                assert(edit_key(p.edits[s.done_idx[j] as int]) != edit_key(e));
            }
            assert forall|k: (Hive, Seq<char>, Seq<char>)|
                (forall|j: int|
                    0 <= j < n && !reverted(s2, j) ==> k != edit_key(p.edits[s2.done_idx[j] as int]))
                    && !(current_written(s2) && k == edit_key(p.edits[s2.idx as int])) implies #[trigger] m2.get(
                k,
            ) == m0.get(k) by {
                assert forall|j: int| 0 <= j < n implies k != edit_key(p.edits[s.done_idx[j] as int]) by {
                    assert(!reverted(s2, j));
                }
            }
            assert(inv_done(p, s2, m2, m0));
            assert(inv_keys(p, s2, m2, m0));
        },
        _ => {
            let s1 = RunView {
                outcomes: s.outcomes.push(failed_step(edit_location(p.edits[i]), ev->Wrote_0->Err_0)),
                all_ok: false,
                ..s
            };
            lemma_settled_same(p, s, s1, m, m0, n);
            lemma_after_edits(p, s1, m, m0);
        },
    }
}

/// A read-back either completes the current edit or moves on to putting it back.
proof fn step_verifying(
    p: PlanView,
    s: RunView,
    ev: EventView,
    m: Map<(Hive, Seq<char>, Seq<char>), RegValueView>,
    m2: Map<(Hive, Seq<char>, Seq<char>), RegValueView>,
    m0: Map<(Hive, Seq<char>, Seq<char>), RegValueView>,
)
    requires
        rollback_inv(p, s, m, m0),
        registry_responds(p, pending_spec(s), ev, m, m2),
        s.stage is Verifying,
    ensures
        rollback_inv(p, apply_step(p, s, ev).0, m2, m0),
{
    let i = s.idx as int;
    let n = s.done_idx.len();
    if verify_spec(p.edits[i].kind, m.get(edit_key(p.edits[i]))) {
        lemma_complete_current(p, s, m, m0);
        let s1 = RunView {
            outcomes: s.outcomes.push(ok_step(edit_location(p.edits[i]))),
            done_idx: s.done_idx.push(s.idx),
            done_saved: s.done_saved.push(s.pending.unwrap()),
            pending: None,
            idx: s.idx + 1,
            ..s
        };
        lemma_begin_edit(p, s1, m, m0);
        assert(m2 == m);
        assert(apply_step(p, s, ev).0 == begin_edit_spec(p, s1).0);
    } else {
        let s2 = apply_step(p, s, ev).0;
        assert(m2 == m);
        assert(s2 == RunView { stage: Stage::RevertingFailed, ..s });
        assert forall|j: int| 0 <= j < n implies #[trigger] done_entry_ok(
            p,
            s2,
            m,
            m0,
            j,
            reverted(s2, j),
        ) by {
            assert(done_entry_ok(p, s, m, m0, j, reverted(s, j)));
        }
        assert(inv_done(p, s2, m, m0));
        assert forall|k: (Hive, Seq<char>, Seq<char>)|
            (forall|j: int|
                0 <= j < n && !reverted(s2, j) ==> k != edit_key(p.edits[s2.done_idx[j] as int]))
                && !(current_written(s2) && k == edit_key(p.edits[s2.idx as int])) implies #[trigger] m.get(k)
            == m0.get(k) by {
            assert forall|j: int| 0 <= j < n && !reverted(s, j) implies k != edit_key(
                p.edits[s.done_idx[j] as int],
            ) by {
                assert(!reverted(s2, j));
            }
        }
        assert(inv_keys(p, s2, m, m0));
    }
}

/// Putting back an edit that did not verify restores its original and fails the edit.
proof fn step_reverting(
    p: PlanView,
    s: RunView,
    ev: EventView,
    m: Map<(Hive, Seq<char>, Seq<char>), RegValueView>,
    m2: Map<(Hive, Seq<char>, Seq<char>), RegValueView>,
    m0: Map<(Hive, Seq<char>, Seq<char>), RegValueView>,
)
    requires
        rollback_inv(p, s, m, m0),
        registry_responds(p, pending_spec(s), ev, m, m2),
        s.stage is RevertingFailed,
    ensures
        rollback_inv(p, apply_step(p, s, ev).0, m2, m0),
{
    let i = s.idx as int;
    let n = s.done_idx.len();
    let e = p.edits[i];
    lemma_restore_effect(e, m, m0, edit_key(e));
    assert forall|k: (Hive, Seq<char>, Seq<char>)| #[trigger] m2.get(k) == if k == edit_key(e) {
        m0.get(k)
    } else {
        m.get(k)
    } by {
        lemma_restore_effect(e, m, m0, k);
    }
    let msg = not_verified_msg();
    let s1 = RunView {
        outcomes: s.outcomes.push(failed_step(edit_location(e), msg)),
        all_ok: false,
        ..s
    };
    assert forall|j: int| 0 <= j < n implies #[trigger] settled_entry(p, s1, m2, m0, n, j) by {
        assert(done_entry_ok(p, s, m, m0, j, reverted(s, j)));
        assert(!reverted(s, j));
        assert(s.done_idx[j] < s.idx);
        assert(edit_key(p.edits[s.done_idx[j] as int]) != edit_key(e));
    }
    assert forall|k: (Hive, Seq<char>, Seq<char>)|
        (forall|j: int| 0 <= j < n ==> k != edit_key(p.edits[s1.done_idx[j] as int])) implies #[trigger] m2.get(
        k,
    ) == m0.get(k) by {
        if k != edit_key(e) {
            assert forall|j: int| 0 <= j < n && !reverted(s, j) implies k != edit_key(
                p.edits[s.done_idx[j] as int],
            ) by {}
        }
    }
    lemma_after_edits(p, s1, m2, m0);
}

/// Command steps leave the edited values alone.
proof fn step_hooks(
    p: PlanView,
    s: RunView,
    ev: EventView,
    m: Map<(Hive, Seq<char>, Seq<char>), RegValueView>,
    m2: Map<(Hive, Seq<char>, Seq<char>), RegValueView>,
    m0: Map<(Hive, Seq<char>, Seq<char>), RegValueView>,
)
    requires
        rollback_inv(p, s, m, m0),
        registry_responds(p, pending_spec(s), ev, m, m2),
        s.stage is HookApplying || s.stage is HookVerifying || s.stage is HookRestoring,
    ensures
        rollback_inv(p, apply_step(p, s, ev).0, m2, m0),
{
    let n = s.done_idx.len();
    lemma_inv_settled(p, s, m, m0);
    let s1 = RunView { outcomes: s.outcomes.push(ok_step("system command"@)), ..s };
    lemma_settled_same(p, s, s1, m, m0, n);
    let not_verified = RunView {
        outcomes: s.outcomes.push(failed_step("system command verification"@, not_verified_msg())),
        all_ok: false,
        ..s
    };
    lemma_settled_same(p, s, not_verified, m, m0, n);
    lemma_finish(p, not_verified, m, m0);
    match ev {
        EventView::HookRan(Err(msg)) => {
            let s3 = RunView { outcomes: s.outcomes.push(failed_step("system command"@, msg)), all_ok: false, ..s };
            lemma_settled_same(p, s, s3, m, m0, n);
            lemma_finish(p, s3, m, m0);
        },
        EventView::HookChecked(Err(msg)) => {
            let s3 = RunView {
                outcomes: s.outcomes.push(failed_step("system command verification"@, msg)),
                all_ok: false,
                ..s
            };
            lemma_settled_same(p, s, s3, m, m0, n);
            lemma_finish(p, s3, m, m0);
        },
        _ => {},
    }
    if s.stage is HookApplying && ev matches EventView::HookRan(Ok(_)) {
        lemma_finish(p, s1, m, m0);
        if p.verify_hook {
            let s2 = apply_step(p, s, ev).0;
            lemma_transfer(p, s, s2, m, m0, n);
        }
    }
    if s.stage is HookVerifying {
        lemma_finish(p, s, m, m0);
        let s2 = apply_step(p, s, ev).0;
        if s2.stage is HookRestoring {
            lemma_transfer(p, s, s2, m, m0, n);
        }
    }
}

/// The rollback puts back completed edits newest first; its end changes nothing.
proof fn step_final(
    p: PlanView,
    s: RunView,
    ev: EventView,
    m: Map<(Hive, Seq<char>, Seq<char>), RegValueView>,
    m2: Map<(Hive, Seq<char>, Seq<char>), RegValueView>,
    m0: Map<(Hive, Seq<char>, Seq<char>), RegValueView>,
)
    requires
        rollback_inv(p, s, m, m0),
        registry_responds(p, pending_spec(s), ev, m, m2),
        s.stage is RollingBack || s.stage is FinalRestore || s.stage is Done,
    ensures
        rollback_inv(p, apply_step(p, s, ev).0, m2, m0),
{
    let n = s.done_idx.len();
    if s.stage is RollingBack {
        lemma_rollback_one(p, s, m, m2, m0);
        lemma_rollback(p, RunView { rb: (s.rb - 1) as nat, ..s }, m2, m0);
    } else if s.stage is FinalRestore {
        let s2 = apply_step(p, s, ev).0;
        assert forall|j: int| 0 <= j < n implies #[trigger] done_entry_ok(p, s2, m2, m0, j, reverted(s2, j)) by {
            assert(done_entry_ok(p, s, m, m0, j, reverted(s, j)));
        }
        assert(inv_done(p, s2, m2, m0));
    }
}

/// A step in a registry that answers as a registry keeps the run consistent
/// with it: the completed edits hold their targets until they are put back,
/// put-back edits hold their original values, and nothing else changes.
pub proof fn law_apply_step_consistent(
    p: PlanView,
    s: RunView,
    ev: EventView,
    m: Map<(Hive, Seq<char>, Seq<char>), RegValueView>,
    m2: Map<(Hive, Seq<char>, Seq<char>), RegValueView>,
    m0: Map<(Hive, Seq<char>, Seq<char>), RegValueView>,
)
    requires
        rollback_inv(p, s, m, m0),
        registry_responds(p, pending_spec(s), ev, m, m2),
    ensures
        rollback_inv(p, apply_step(p, s, ev).0, m2, m0),
{
    match s.stage {
        Stage::Probing => step_probing(p, s, ev, m, m2, m0),
        Stage::Capturing => step_capturing(p, s, ev, m, m2, m0),
        Stage::Writing => step_writing(p, s, ev, m, m2, m0),
        Stage::Verifying => step_verifying(p, s, ev, m, m2, m0),
        Stage::RevertingFailed => step_reverting(p, s, ev, m, m2, m0),
        Stage::HookApplying | Stage::HookVerifying | Stage::HookRestoring => step_hooks(p, s, ev, m, m2, m0),
        _ => step_final(p, s, ev, m, m2, m0),
    }
}

/// A run whose edits touch distinct values and that failed leaves the
/// registry exactly as it found it (`law_failed_run_restores` drops the
/// distinct-values condition).
pub proof fn law_failed_apply_restores(
    p: PlanView,
    s: RunView,
    m: Map<(Hive, Seq<char>, Seq<char>), RegValueView>,
    m0: Map<(Hive, Seq<char>, Seq<char>), RegValueView>,
)
    requires
        rollback_inv(p, s, m, m0),
        s.stage is Done,
        !s.all_ok,
    ensures
        m == m0,
{
    assert forall|k: (Hive, Seq<char>, Seq<char>)| #[trigger] m.get(k) == m0.get(k) by {
        assert forall|j: int| 0 <= j < s.done_idx.len() && !reverted(s, j) implies k != edit_key(
            p.edits[s.done_idx[j] as int],
        ) by {}
    }
    assert(m =~= m0) by {
        assert forall|k: (Hive, Seq<char>, Seq<char>)| m.contains_key(k) == m0.contains_key(k) by {
            assert(m.get(k) == m0.get(k));
        }
        assert forall|k: (Hive, Seq<char>, Seq<char>)| m.contains_key(k) implies m[k] == m0[k] by {
            assert(m.get(k) == m0.get(k));
        }
    }
}

/// A run that succeeded leaves every edit's target in place.
pub proof fn law_successful_apply_verified(
    p: PlanView,
    s: RunView,
    m: Map<(Hive, Seq<char>, Seq<char>), RegValueView>,
    m0: Map<(Hive, Seq<char>, Seq<char>), RegValueView>,
)
    requires
        rollback_inv(p, s, m, m0),
        s.stage is Done,
        s.all_ok,
    ensures
        forall|i: int| 0 <= i < p.edits.len() ==> verify_spec((#[trigger] p.edits[i]).kind, m.get(edit_key(p.edits[i]))),
{
    assert forall|i: int| 0 <= i < p.edits.len() implies verify_spec((#[trigger] p.edits[i]).kind, m.get(edit_key(p.edits[i]))) by {
        if exists|j: int| 0 <= j < s.done_idx.len() && s.done_idx[j] == i {
            let j = choose|j: int| 0 <= j < s.done_idx.len() && s.done_idx[j] == i;
            assert(!reverted(s, j));
            assert(done_entry_ok(p, s, m, m0, j, reverted(s, j)));
        } else {
            let k = edit_key(p.edits[i]);
            assert forall|j: int| 0 <= j < s.done_idx.len() && !reverted(s, j) implies k != edit_key(
                p.edits[s.done_idx[j] as int],
            ) by {
                assert(s.done_idx[j] != i);
            }
            assert(m.get(k) == m0.get(k));
            assert(forall|j: int| 0 <= j < s.done_idx.len() ==> s.done_idx[j] != i);
            assert(i < s.idx);
        }
    }
}


// ---------------------------------------------------------------- rollback when edits share values

/// The registry `m0` after the writes of the edits at positions `d`, in order.
pub open spec fn overlay(
    p: PlanView,
    m0: Map<(Hive, Seq<char>, Seq<char>), RegValueView>,
    d: Seq<nat>,
) -> Map<(Hive, Seq<char>, Seq<char>), RegValueView>
    decreases d.len(),
{
    if d.len() == 0 {
        m0
    } else {
        crate::registry::apply_action(overlay(p, m0, d.drop_last()), write_spec(p.edits[d.last() as int]))
    }
}

/// Every original value at an edited location has a type with a name of its
/// own (so a capture of it restores it exactly). Edits may share values.
pub open spec fn plan_named(p: PlanView, m0: Map<(Hive, Seq<char>, Seq<char>), RegValueView>) -> bool {
    forall|i: int|
        0 <= i < p.edits.len() && m0.contains_key(edit_key(#[trigger] p.edits[i]))
            ==> crate::registry::named_type(m0[edit_key(p.edits[i])].vtype)
}

/// The capture completed edit `j` took: its value after the earlier completed edits.
pub open spec fn stacked_capture(
    p: PlanView,
    m0: Map<(Hive, Seq<char>, Seq<char>), RegValueView>,
    d: Seq<nat>,
    j: int,
) -> SavedView {
    let e = p.edits[d[j] as int];
    capture_spec(e.hive, e.path, e.name, overlay(p, m0, d.subrange(0, j)).get(edit_key(e)))
}

/// The run is putting back completed edits, or has finished doing so.
pub open spec fn rolling(s: RunView) -> bool {
    s.stage is RollingBack || s.stage is FinalRestore || (s.stage is Done && !s.all_ok)
}

/// What an apply run keeps true of the registry `m`, which held `m0` when it
/// started, whether or not its edits share values: each completed edit
/// captured the value it found, the registry holds the writes of the
/// completed edits not yet put back (and of the current edit while it is
/// written), and nothing else changed.
pub open spec fn stack_inv(
    p: PlanView,
    s: RunView,
    m: Map<(Hive, Seq<char>, Seq<char>), RegValueView>,
    m0: Map<(Hive, Seq<char>, Seq<char>), RegValueView>,
) -> bool {
    &&& plan_named(p, m0)
    &&& run_wf(p, s)
    &&& inv_stage(p, s)
    &&& forall|j: int| 0 <= j < s.done_idx.len() ==> #[trigger] s.done_idx[j] < p.edits.len()
    &&& forall|j: int| 0 <= j < s.done_idx.len() ==> #[trigger] s.done_saved[j] == stacked_capture(p, m0, s.done_idx, j)
    &&& (s.stage is Writing || s.stage is Verifying || s.stage is RevertingFailed) ==> s.pending == Some(
        capture_spec(
            p.edits[s.idx as int].hive,
            p.edits[s.idx as int].path,
            p.edits[s.idx as int].name,
            overlay(p, m0, s.done_idx).get(edit_key(p.edits[s.idx as int])),
        ),
    )
    &&& if rolling(s) {
        m == overlay(p, m0, s.done_idx.subrange(0, s.rb as int))
    } else if current_written(s) {
        m == crate::registry::apply_action(overlay(p, m0, s.done_idx), write_spec(p.edits[s.idx as int]))
    } else {
        m == overlay(p, m0, s.done_idx)
    }
}

proof fn lemma_overlay_named(
    p: PlanView,
    m0: Map<(Hive, Seq<char>, Seq<char>), RegValueView>,
    d: Seq<nat>,
    i: int,
)
    requires
        plan_named(p, m0),
        0 <= i < p.edits.len(),
        forall|j: int| 0 <= j < d.len() ==> #[trigger] d[j] < p.edits.len(),
    ensures
        overlay(p, m0, d).contains_key(edit_key(p.edits[i])) ==> crate::registry::named_type(
            overlay(p, m0, d)[edit_key(p.edits[i])].vtype,
        ),
    decreases d.len(),
{
    if d.len() > 0 {
        let d1 = d.drop_last();
        assert forall|j: int| 0 <= j < d1.len() implies #[trigger] d1[j] < p.edits.len() by {
            assert(d1[j] == d[j]);
        }
        lemma_overlay_named(p, m0, d1, i);
        assert(d.last() == d[d.len() - 1]);
    }
}

proof fn lemma_write_undone(m: Map<(Hive, Seq<char>, Seq<char>), RegValueView>, e: EditView)
    requires
        m.contains_key(edit_key(e)) ==> crate::registry::named_type(m[edit_key(e)].vtype),
    ensures
        ({
            let saved = capture_spec(e.hive, e.path, e.name, m.get(edit_key(e)));
            &&& crate::registry::hive_named(crate::text::upper_seq(saved.hive)) == Some(e.hive)
            &&& crate::registry::apply_action(
                crate::registry::apply_action(m, write_spec(e)),
                crate::registry::restore_action(saved, e.hive),
            ) == m
        }),
{
    let after = crate::registry::apply_action(m, write_spec(e));
    crate::registry::law_capture_restore_round_trip(m, after, e.hive, e.path, e.name);
    let k = edit_key(e);
    if m.contains_key(k) {
        assert(after.insert(k, m[k]) =~= m);
    } else {
        assert(after.remove(k) =~= m);
    }
}

proof fn lemma_overlay_push(p: PlanView, m0: Map<(Hive, Seq<char>, Seq<char>), RegValueView>, d: Seq<nat>, x: nat)
    ensures
        overlay(p, m0, d.push(x)) == crate::registry::apply_action(overlay(p, m0, d), write_spec(p.edits[x as int])),
{
    assert(d.push(x).drop_last() =~= d);
}

/// A run starts consistent with the registry it starts in.
pub proof fn law_stack_start(p: PlanView, m0: Map<(Hive, Seq<char>, Seq<char>), RegValueView>)
    requires
        plan_named(p, m0),
    ensures
        stack_inv(p, begin_edit_spec(p, initial_run()).0, m0, m0),
{
    assert(Seq::<nat>::empty().subrange(0, 0) =~= Seq::<nat>::empty());
}

/// A step in a registry that answers as a registry keeps the run consistent
/// with it, also when several edits touch the same value.
pub proof fn law_stack_step(
    p: PlanView,
    s: RunView,
    ev: EventView,
    m: Map<(Hive, Seq<char>, Seq<char>), RegValueView>,
    m2: Map<(Hive, Seq<char>, Seq<char>), RegValueView>,
    m0: Map<(Hive, Seq<char>, Seq<char>), RegValueView>,
)
    requires
        stack_inv(p, s, m, m0),
        registry_responds(p, pending_spec(s), ev, m, m2),
    ensures
        stack_inv(p, apply_step(p, s, ev).0, m2, m0),
{
    lemma_step_wf(p, s, ev);
    let s2 = apply_step(p, s, ev).0;
    let n = s.done_idx.len();
    let d = s.done_idx;
    assert(d.subrange(0, n as int) =~= d);
    match s.stage {
        Stage::Verifying => {
            let e = p.edits[s.idx as int];
            if verify_spec(e.kind, m.get(edit_key(e))) {
                let d2 = d.push(s.idx);
                lemma_overlay_push(p, m0, d, s.idx);
                assert(d2.subrange(0, n as int) =~= d);
                assert(d2.subrange(0, n as int + 1) =~= d2);
                assert forall|j: int| 0 <= j < d2.len() implies stacked_capture(p, m0, d2, j) == stacked_capture(p, m0, d, j) || j == n by {
                    if j < n {
                        assert(d2.subrange(0, j) =~= d.subrange(0, j));
                    }
                }
                assert(stacked_capture(p, m0, d2, n as int) == s.pending.unwrap());
            } else {
            }
        },
        Stage::RevertingFailed => {
            let e = p.edits[s.idx as int];
            lemma_overlay_named(p, m0, d, s.idx as int);
            lemma_write_undone(overlay(p, m0, d), e);
        },
        Stage::RollingBack => {
            let r = (s.rb - 1) as int;
            let e = p.edits[d[r] as int];
            let dr = d.subrange(0, r);
            assert(d.subrange(0, r + 1) =~= dr.push(d[r]));
            lemma_overlay_push(p, m0, dr, d[r]);
            assert forall|j: int| 0 <= j < dr.len() implies #[trigger] dr[j] < p.edits.len() by {
                assert(dr[j] == d[j]);
            }
            lemma_overlay_named(p, m0, dr, d[r] as int);
            lemma_write_undone(overlay(p, m0, dr), e);
            assert(s.done_saved[r] == stacked_capture(p, m0, d, r));
        },
        _ => {},
    }
}

/// A run that failed leaves the registry exactly as it found it, also when
/// several of its edits touch the same value: the completed edits are put
/// back newest first, each to the value it found.
pub proof fn law_failed_apply_restores_stacked(
    p: PlanView,
    s: RunView,
    m: Map<(Hive, Seq<char>, Seq<char>), RegValueView>,
    m0: Map<(Hive, Seq<char>, Seq<char>), RegValueView>,
)
    requires
        stack_inv(p, s, m, m0),
        s.stage is Done,
        !s.all_ok,
    ensures
        m == m0,
{
    assert(s.done_idx.subrange(0, 0) =~= Seq::<nat>::empty());
}


/// The states of a run that receives the events `evs`, from its start.
pub open spec fn run_states(p: PlanView, evs: Seq<EventView>) -> Seq<RunView>
    decreases evs.len(),
{
    if evs.len() == 0 {
        seq![begin_edit_spec(p, initial_run()).0]
    } else {
        let r = run_states(p, evs.drop_last());
        r.push(apply_step(p, r.last(), evs.last()).0)
    }
}

/// The registries `ms` are what a registry answering each pending action of
/// the run holds before and after each event.
pub open spec fn registry_run(
    p: PlanView,
    evs: Seq<EventView>,
    ms: Seq<Map<(Hive, Seq<char>, Seq<char>), RegValueView>>,
) -> bool {
    &&& ms.len() == evs.len() + 1
    &&& forall|k: int|
        0 <= k < evs.len() ==> registry_responds(
            p,
            pending_spec(#[trigger] run_states(p, evs)[k]),
            evs[k],
            ms[k],
            ms[k + 1],
        )
}

proof fn lemma_run_states(p: PlanView, evs: Seq<EventView>)
    ensures
        run_states(p, evs).len() == evs.len() + 1,
        run_states(p, evs)[0] == begin_edit_spec(p, initial_run()).0,
        forall|k: int|
            0 <= k < evs.len() ==> #[trigger] run_states(p, evs)[k + 1] == apply_step(p, run_states(p, evs)[k], evs[k]).0,
    decreases evs.len(),
{
    if evs.len() > 0 {
        let e1 = evs.drop_last();
        lemma_run_states(p, e1);
        assert forall|k: int| 0 <= k < evs.len() implies #[trigger] run_states(p, evs)[k + 1] == apply_step(
            p,
            run_states(p, evs)[k],
            evs[k],
        ).0 by {
            if k < e1.len() {
                assert(run_states(p, evs)[k + 1] == run_states(p, e1)[k + 1]);
                assert(run_states(p, evs)[k] == run_states(p, e1)[k]);
                assert(evs[k] == e1[k]);
            }
        }
    }
}

proof fn lemma_stack_prefix(
    p: PlanView,
    evs: Seq<EventView>,
    ms: Seq<Map<(Hive, Seq<char>, Seq<char>), RegValueView>>,
    k: int,
)
    requires
        plan_named(p, ms[0]),
        registry_run(p, evs, ms),
        0 <= k <= evs.len(),
    ensures
        stack_inv(p, run_states(p, evs)[k], ms[k], ms[0]),
    decreases k,
{
    lemma_run_states(p, evs);
    if k == 0 {
        law_stack_start(p, ms[0]);
    } else {
        lemma_stack_prefix(p, evs, ms, k - 1);
        assert(registry_responds(p, pending_spec(run_states(p, evs)[k - 1]), evs[k - 1], ms[k - 1], ms[k]));
        law_stack_step(p, run_states(p, evs)[k - 1], evs[k - 1], ms[k - 1], ms[k], ms[0]);
        assert(run_states(p, evs)[(k - 1) + 1] == apply_step(p, run_states(p, evs)[k - 1], evs[k - 1]).0);
    }
}

/// A whole run that fails leaves the registry exactly as it found it: from
/// its start, through every event a registry answers, to a failed end, even
/// when several of its edits touch the same value.
pub proof fn law_failed_run_restores(
    p: PlanView,
    evs: Seq<EventView>,
    ms: Seq<Map<(Hive, Seq<char>, Seq<char>), RegValueView>>,
)
    requires
        plan_named(p, ms[0]),
        registry_run(p, evs, ms),
        run_states(p, evs).last().stage is Done,
        !run_states(p, evs).last().all_ok,
    ensures
        ms.last() == ms[0],
{
    lemma_run_states(p, evs);
    lemma_stack_prefix(p, evs, ms, evs.len() as int);
    law_failed_apply_restores_stacked(p, run_states(p, evs)[evs.len() as int], ms[evs.len() as int], ms[0]);
}


proof fn lemma_failed_done_from(p: PlanView, s: RunView, ev: EventView)
    requires
        p.restore_hook,
        apply_step(p, s, ev).0.stage is Done,
        !apply_step(p, s, ev).0.all_ok,
    ensures
        s.stage is FinalRestore || (s.stage is Done && !s.all_ok),
{
}

proof fn lemma_failed_done_prefix(p: PlanView, evs: Seq<EventView>, k: int)
    requires
        p.restore_hook,
        0 <= k <= evs.len(),
        run_states(p, evs)[k].stage is Done,
        !run_states(p, evs)[k].all_ok,
    ensures
        exists|j: int| 0 <= j < k && (#[trigger] run_states(p, evs)[j]).stage is FinalRestore,
    decreases k,
{
    lemma_run_states(p, evs);
    if k == 0 {
        assert(run_states(p, evs)[0] == begin_edit_spec(p, initial_run()).0);
        assert(false);
    } else {
        assert(run_states(p, evs)[(k - 1) + 1] == apply_step(p, run_states(p, evs)[k - 1], evs[k - 1]).0);
        lemma_failed_done_from(p, run_states(p, evs)[k - 1], evs[k - 1]);
        if run_states(p, evs)[k - 1].stage is FinalRestore {
        } else {
            lemma_failed_done_prefix(p, evs, k - 1);
        }
    }
}

/// A failed run of a tweak that has a command undo step runs that step: on
/// its way to a failed end the run waits on the undo step (after putting
/// back its completed edits).
pub proof fn law_failed_run_undoes(p: PlanView, evs: Seq<EventView>)
    requires
        p.restore_hook,
        run_states(p, evs).last().stage is Done,
        !run_states(p, evs).last().all_ok,
    ensures
        exists|k: int|
            0 <= k < evs.len() && (#[trigger] run_states(p, evs)[k]).stage is FinalRestore && pending_spec(
                run_states(p, evs)[k],
            ) == ActionView::RunRestoreHook,
{
    lemma_run_states(p, evs);
    lemma_failed_done_prefix(p, evs, evs.len() as int);
}


/// A failed apply, from start to end in a registry that answers every
/// action (its reverts succeed), returns every value to what it was before
/// the run, and runs the tweak's command undo step when it has one.
pub proof fn law_failed_apply(
    p: PlanView,
    evs: Seq<EventView>,
    ms: Seq<Map<(Hive, Seq<char>, Seq<char>), RegValueView>>,
)
    requires
        plan_named(p, ms[0]),
        registry_run(p, evs, ms),
        run_states(p, evs).last().stage is Done,
        !run_states(p, evs).last().all_ok,
    ensures
        ms.last() == ms[0],
        p.restore_hook ==> exists|k: int|
            0 <= k < evs.len() && (#[trigger] run_states(p, evs)[k]).stage is FinalRestore && pending_spec(
                run_states(p, evs)[k],
            ) == ActionView::RunRestoreHook,
{
    law_failed_run_restores(p, evs, ms);
    if p.restore_hook {
        law_failed_run_undoes(p, evs);
    }
}

} // verus!
