//! Shared data types: risk, category, live state, previews, captured values and results.

use vstd::prelude::*;

verus! {

/// How risky a tweak is.
#[derive(Debug, Clone, Copy, PartialEq, Eq, Structural)]
pub enum Risk {
    Low,
    Medium,
    High,
}

pub open spec fn risk_rank(r: Risk) -> u8 {
    match r {
        Risk::Low => 0,
        Risk::Medium => 1,
        Risk::High => 2,
    }
}

impl Risk {
    /// Position in the order Low < Medium < High.
    pub fn rank(&self) -> (r: u8)
        ensures
            r == risk_rank(*self),
    {
        match self {
            Risk::Low => 0,
            Risk::Medium => 1,
            Risk::High => 2,
        }
    }
}

/// Catalog section of a tweak.
#[derive(Debug, Clone, Copy, PartialEq, Eq, Structural)]
pub enum TweakCategory {
    Performance,
    Gaming,
    Gpu,
    Network,
    Cleanup,
    Windows,
}

pub open spec fn category_label(c: TweakCategory) -> Seq<char> {
    match c {
        TweakCategory::Performance => "Performance"@,
        TweakCategory::Gaming => "Gaming"@,
        TweakCategory::Gpu => "GPU"@,
        TweakCategory::Network => "Network"@,
        TweakCategory::Cleanup => "Cleanup"@,
        TweakCategory::Windows => "Windows"@,
    }
}

impl TweakCategory {
    /// Human label of the category.
    pub fn label(&self) -> (r: &'static str)
        ensures
            r@ == category_label(*self),
    {
        match self {
            TweakCategory::Performance => "Performance",
            TweakCategory::Gaming => "Gaming",
            TweakCategory::Gpu => "GPU",
            TweakCategory::Network => "Network",
            TweakCategory::Cleanup => "Cleanup",
            TweakCategory::Windows => "Windows",
        }
    }

    /// Every category, in page order.
    pub fn all() -> (v: Vec<TweakCategory>)
        ensures
            v@ == seq![
                TweakCategory::Performance,
                TweakCategory::Gaming,
                TweakCategory::Gpu,
                TweakCategory::Network,
                TweakCategory::Cleanup,
                TweakCategory::Windows,
            ],
    {
        vec![
            TweakCategory::Performance,
            TweakCategory::Gaming,
            TweakCategory::Gpu,
            TweakCategory::Network,
            TweakCategory::Cleanup,
            TweakCategory::Windows,
        ]
    }
}

/// Live, machine-detected tweak state. Never guessed from history.
#[derive(Debug, Clone, Copy, PartialEq, Eq, Structural)]
pub enum TweakState {
    /// Not applied; the tweak can be applied.
    Available,
    /// The tweak's target state is currently in effect.
    Applied,
    /// Part of the tweak's target state is in effect (multi-part tweak).
    Partial,
    /// The tweak does not apply to this system (hardware/OS mismatch).
    Unsupported,
    /// State could not be determined.
    Unknown,
}

/// Transient operation state used by the UI while an action runs.
#[derive(Debug, Clone, Copy, PartialEq, Eq, Structural)]
pub enum OperationKind {
    Applying,
    Restoring,
}

/// Descriptive data of a tweak.
pub struct TweakMeta {
    pub id: String,
    pub name: String,
    pub description: String,
    pub category: TweakCategory,
    pub risk: Risk,
    pub requires_admin: bool,
    pub restart_required: bool,
    /// Human explanation of expected effect (what changes, never performance promises).
    pub effect: String,
    /// Low-risk-and-safe tweaks are eligible for Quick Optimize.
    pub quick_optimize: bool,
}

/// `b` holds the same data as `a`.
pub open spec fn meta_same(a: TweakMeta, b: TweakMeta) -> bool {
    &&& a.id@ == b.id@
    &&& a.name@ == b.name@
    &&& a.description@ == b.description@
    &&& a.category == b.category
    &&& a.risk == b.risk
    &&& a.requires_admin == b.requires_admin
    &&& a.restart_required == b.restart_required
    &&& a.effect@ == b.effect@
    &&& a.quick_optimize == b.quick_optimize
}

impl TweakMeta {
    /// A copy holding the same data.
    pub fn duplicate(&self) -> (r: TweakMeta)
        ensures
            meta_same(*self, r),
    {
        TweakMeta {
            id: self.id.clone(),
            name: self.name.clone(),
            description: self.description.clone(),
            category: self.category,
            risk: self.risk,
            requires_admin: self.requires_admin,
            restart_required: self.restart_required,
            effect: self.effect.clone(),
            quick_optimize: self.quick_optimize,
        }
    }
}

/// One concrete change a tweak makes, used for previews and details.
pub struct ChangePreview {
    /// System location, e.g. a registry path or a command target.
    pub location: String,
    pub value_name: Option<String>,
    /// What is there now ("not set" when absent).
    pub current: String,
    /// What will be written.
    pub new: String,
}

/// Recorded original value of a registry value (for restore).
pub struct SavedValue {
    pub hive: String,
    pub path: String,
    pub name: String,
    /// Registry type name: REG_SZ, REG_DWORD, REG_BINARY, REG_QWORD... or "ABSENT".
    pub reg_type: String,
    /// Raw bytes payload (DWORD little-endian 4 bytes, QWORD 8, SZ/EXPAND_SZ utf16le).
    pub data: Vec<u8>,
}

/// Plain-value view of a saved value.
#[verifier::ext_equal]
pub struct SavedView {
    pub hive: Seq<char>,
    pub path: Seq<char>,
    pub name: Seq<char>,
    pub reg_type: Seq<char>,
    pub data: Seq<u8>,
}

impl View for SavedValue {
    type V = SavedView;

    open spec fn view(&self) -> SavedView {
        SavedView {
            hive: self.hive@,
            path: self.path@,
            name: self.name@,
            reg_type: self.reg_type@,
            data: self.data@,
        }
    }
}

impl SavedValue {
    /// A copy holding the same data.
    pub fn duplicate(&self) -> (r: SavedValue)
        ensures
            r@ == self@,
    {
        SavedValue {
            hive: self.hive.clone(),
            path: self.path.clone(),
            name: self.name.clone(),
            reg_type: self.reg_type.clone(),
            data: self.data.clone(),
        }
    }
}

/// A single step inside a tweak's execution plan.
pub struct StepOutcome {
    pub location: String,
    pub ok: bool,
    pub error: Option<String>,
}

/// Plain-value view of a step outcome.
#[verifier::ext_equal]
pub struct OutcomeView {
    pub location: Seq<char>,
    pub ok: bool,
    pub error: Option<Seq<char>>,
}

impl View for StepOutcome {
    type V = OutcomeView;

    open spec fn view(&self) -> OutcomeView {
        OutcomeView {
            location: self.location@,
            ok: self.ok,
            error: match self.error {
                Some(e) => Some(e@),
                None => None,
            },
        }
    }
}

/// The views of a sequence of outcomes.
pub open spec fn outcome_views(s: Seq<StepOutcome>) -> Seq<OutcomeView> {
    s.map_values(|o: StepOutcome| o@)
}

/// The views of a sequence of saved values.
pub open spec fn saved_views(s: Seq<SavedValue>) -> Seq<SavedView> {
    s.map_values(|v: SavedValue| v@)
}

/// A successful step at `location`.
pub open spec fn ok_step(location: Seq<char>) -> OutcomeView {
    OutcomeView { location, ok: true, error: None }
}

/// A failed step at `location` with the error `message`.
pub open spec fn failed_step(location: Seq<char>, message: Seq<char>) -> OutcomeView {
    OutcomeView { location, ok: false, error: Some(message) }
}

impl StepOutcome {
    /// A successful step.
    pub fn success(location: String) -> (o: StepOutcome)
        ensures
            o@ == ok_step(location@),
    {
        StepOutcome { location, ok: true, error: None }
    }

    /// A failed step.
    pub fn failure(location: String, message: String) -> (o: StepOutcome)
        ensures
            o@ == failed_step(location@, message@),
    {
        StepOutcome { location, ok: false, error: Some(message) }
    }

    /// A copy holding the same data.
    pub fn duplicate(&self) -> (o: StepOutcome)
        ensures
            o@ == self@,
    {
        StepOutcome { location: self.location.clone(), ok: self.ok, error: crate::text::copy_opt(&self.error) }
    }
}

/// Result of applying or restoring one tweak.
pub struct TweakResult {
    pub tweak_id: String,
    pub success: bool,
    pub skipped: bool,
    /// Failure reason (human) when success == false.
    pub error: Option<String>,
    /// Raw technical detail for the "View details" expander.
    pub details: Option<String>,
    pub restart_required: bool,
    pub steps: Vec<StepOutcome>,
}

/// Results of a group operation.
pub struct GroupResult {
    pub label: String,
    pub results: Vec<TweakResult>,
    pub restore_point_created: bool,
}

/// Number of results that succeeded and were not skipped.
pub open spec fn count_succeeded(s: Seq<TweakResult>) -> nat
    decreases s.len(),
{
    if s.len() == 0 {
        0
    } else {
        count_succeeded(s.drop_last()) + if s.last().success && !s.last().skipped {
            1nat
        } else {
            0nat
        }
    }
}

/// Number of results that failed and were not skipped.
pub open spec fn count_failed(s: Seq<TweakResult>) -> nat
    decreases s.len(),
{
    if s.len() == 0 {
        0
    } else {
        count_failed(s.drop_last()) + if !s.last().success && !s.last().skipped {
            1nat
        } else {
            0nat
        }
    }
}

/// Number of skipped results.
pub open spec fn count_skipped(s: Seq<TweakResult>) -> nat
    decreases s.len(),
{
    if s.len() == 0 {
        0
    } else {
        count_skipped(s.drop_last()) + if s.last().skipped {
            1nat
        } else {
            0nat
        }
    }
}

/// The summary counts are the numbers of results that succeeded, failed and
/// were skipped: succeeded counts those that succeeded and were not skipped,
/// failed those that did not succeed and were not skipped, skipped those
/// skipped.
pub proof fn law_counts(s: Seq<TweakResult>)
    ensures
        count_succeeded(s) == s.filter(|r: TweakResult| r.success && !r.skipped).len(),
        count_failed(s) == s.filter(|r: TweakResult| !r.success && !r.skipped).len(),
        count_skipped(s) == s.filter(|r: TweakResult| r.skipped).len(),
    decreases s.len(),
{
    reveal(Seq::filter);
    if s.len() > 0 {
        law_counts(s.drop_last());
    }
}

proof fn lemma_counts_bounded(s: Seq<TweakResult>)
    ensures
        count_succeeded(s) + count_failed(s) + count_skipped(s) == s.len(),
    decreases s.len(),
{
    if s.len() > 0 {
        lemma_counts_bounded(s.drop_last());
    }
}

/// Every result is counted exactly once: as succeeded, failed or skipped.
pub proof fn law_group_counts_partition(g: GroupResult)
    ensures
        count_succeeded(g.results@) + count_failed(g.results@) + count_skipped(g.results@)
            == g.results@.len(),
{
    lemma_counts_bounded(g.results@);
}

impl GroupResult {
    pub fn success_count(&self) -> (n: usize)
        ensures
            n == count_succeeded(self.results@),
    {
        let mut n: usize = 0;
        let mut i: usize = 0;
        while i < self.results.len()
            invariant
                i <= self.results@.len(),
                n == count_succeeded(self.results@.subrange(0, i as int)),
                n <= i,
            decreases self.results.len() - i,
        {
            assert(self.results@.subrange(0, i + 1).drop_last() =~= self.results@.subrange(
                0,
                i as int,
            ));
            if self.results[i].success && !self.results[i].skipped {
                n = n + 1;
            }
            i = i + 1;
        }
        assert(self.results@.subrange(0, i as int) =~= self.results@);
        n
    }

    pub fn failed_count(&self) -> (n: usize)
        ensures
            n == count_failed(self.results@),
    {
        let mut n: usize = 0;
        let mut i: usize = 0;
        while i < self.results.len()
            invariant
                i <= self.results@.len(),
                n == count_failed(self.results@.subrange(0, i as int)),
                n <= i,
            decreases self.results.len() - i,
        {
            assert(self.results@.subrange(0, i + 1).drop_last() =~= self.results@.subrange(
                0,
                i as int,
            ));
            if !self.results[i].success && !self.results[i].skipped {
                n = n + 1;
            }
            i = i + 1;
        }
        assert(self.results@.subrange(0, i as int) =~= self.results@);
        n
    }

    pub fn skipped_count(&self) -> (n: usize)
        ensures
            n == count_skipped(self.results@),
    {
        let mut n: usize = 0;
        let mut i: usize = 0;
        while i < self.results.len()
            invariant
                i <= self.results@.len(),
                n == count_skipped(self.results@.subrange(0, i as int)),
                n <= i,
            decreases self.results.len() - i,
        {
            assert(self.results@.subrange(0, i + 1).drop_last() =~= self.results@.subrange(
                0,
                i as int,
            ));
            if self.results[i].skipped {
                n = n + 1;
            }
            i = i + 1;
        }
        assert(self.results@.subrange(0, i as int) =~= self.results@);
        n
    }
}

} // verus!
