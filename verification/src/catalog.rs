//! The tweak catalog: every entry is declarative registry edits plus
//! optional fixed command steps, with live state detection, capture, verify
//! and restore support. Blocked operations are absent from the catalog and
//! listed by `flagged_entries`.

use vstd::prelude::*;
use crate::engine::{AppliesTo, CommandHook, EditKindView, EditView, RegEdit, RegEditKind, Tweak};
use crate::registry::{decode_payload, Hive, RegValue};
use crate::error::ZenouError;
use crate::text::{chars_of, contains_str, decimal, owned, push_decimal, push_str, seq_contains, to_lowercase, lowercase_of, views};
use crate::types::{Risk, TweakCategory};

verus! {

/// What the catalog reads from the machine it is built on.
pub struct CatalogEnv {
    /// Installed RAM in tenths of a GB (GB rounded to one decimal), when known.
    pub ram_tenths: Option<u64>,
    /// Display adapter class keys whose driver is NVIDIA's.
    pub nvidia_keys: Vec<String>,
}

/// A command step as plain values.
#[verifier::ext_equal]
pub enum HookView {
    HighPerformancePlan,
    VerifyHighPerformancePlan,
    BalancedPlan,
    PowerValue(Seq<Seq<char>>),
    VerifyPowerValue,
    Powercfg(Seq<Seq<char>>),
    VerifyHibernation(bool),
    DisableMemoryCompression,
    EnableMemoryCompression,
    VerifyMemoryCompressionOff,
    FsutilSet(Seq<char>, Seq<char>),
    VerifyFsutil(Seq<char>, Seq<char>),
    FlushDns,
    AlwaysVerified,
    DisableTasks(Seq<Seq<char>>),
    VerifyTasksDisabled(Seq<Seq<char>>),
    RestoreTasks(Seq<Seq<char>>),
    DisableServices(Seq<Seq<char>>),
    VerifyServicesDisabled(Seq<Seq<char>>),
    RestoreServices(Seq<Seq<char>>),
    FailForTest,
}

/// The plain value of a command step.
pub open spec fn hook_view(h: CommandHook) -> HookView {
    match h {
        CommandHook::HighPerformancePlan => HookView::HighPerformancePlan,
        CommandHook::VerifyHighPerformancePlan => HookView::VerifyHighPerformancePlan,
        CommandHook::BalancedPlan => HookView::BalancedPlan,
        CommandHook::PowerValue(a) => HookView::PowerValue(views(a@)),
        CommandHook::VerifyPowerValue => HookView::VerifyPowerValue,
        CommandHook::Powercfg(a) => HookView::Powercfg(views(a@)),
        CommandHook::VerifyHibernation(b) => HookView::VerifyHibernation(b),
        CommandHook::DisableMemoryCompression => HookView::DisableMemoryCompression,
        CommandHook::EnableMemoryCompression => HookView::EnableMemoryCompression,
        CommandHook::VerifyMemoryCompressionOff => HookView::VerifyMemoryCompressionOff,
        CommandHook::FsutilSet(o, v) => HookView::FsutilSet(o@, v@),
        CommandHook::VerifyFsutil(o, v) => HookView::VerifyFsutil(o@, v@),
        CommandHook::FlushDns => HookView::FlushDns,
        CommandHook::AlwaysVerified => HookView::AlwaysVerified,
        CommandHook::DisableTasks(a) => HookView::DisableTasks(views(a@)),
        CommandHook::VerifyTasksDisabled(a) => HookView::VerifyTasksDisabled(views(a@)),
        CommandHook::RestoreTasks(a) => HookView::RestoreTasks(views(a@)),
        CommandHook::DisableServices(a) => HookView::DisableServices(views(a@)),
        CommandHook::VerifyServicesDisabled(a) => HookView::VerifyServicesDisabled(views(a@)),
        CommandHook::RestoreServices(a) => HookView::RestoreServices(views(a@)),
        CommandHook::FailForTest => HookView::FailForTest,
    }
}

/// The plain value of an optional command step.
pub open spec fn opt_hook(h: Option<CommandHook>) -> Option<HookView> {
    match h {
        Some(x) => Some(hook_view(x)),
        None => None,
    }
}

/// A catalog tweak as plain values: its descriptive data, where it applies,
/// how its state is read, its registry edits and its command steps.
#[verifier::ext_equal]
pub struct TweakRow {
    pub id: Seq<char>,
    pub name: Seq<char>,
    pub description: Seq<char>,
    pub category: TweakCategory,
    pub risk: Risk,
    pub requires_admin: bool,
    pub restart_required: bool,
    pub effect: Seq<char>,
    pub quick_optimize: bool,
    pub applies_to: AppliesTo,
    pub target_is_values: bool,
    pub edits: Seq<EditView>,
    pub apply: Option<HookView>,
    pub verify: Option<HookView>,
    pub restore: Option<HookView>,
}

/// The plain value of a tweak.
pub open spec fn row_of(t: Tweak) -> TweakRow {
    TweakRow {
        id: t.meta.id@,
        name: t.meta.name@,
        description: t.meta.description@,
        category: t.meta.category,
        risk: t.meta.risk,
        requires_admin: t.meta.requires_admin,
        restart_required: t.meta.restart_required,
        effect: t.meta.effect@,
        quick_optimize: t.meta.quick_optimize,
        applies_to: t.applies_to,
        target_is_values: t.target_is_values,
        edits: t.group.edits@.map_values(|e: RegEdit| e@),
        apply: opt_hook(t.extra_apply),
        verify: opt_hook(t.extra_verify),
        restore: opt_hook(t.extra_restore),
    }
}

/// The plain values of a list of tweaks.
pub open spec fn rows_of(v: Seq<Tweak>) -> Seq<TweakRow> {
    v.map_values(|t: Tweak| row_of(t))
}

/// The whole catalog, row by row, in sidebar order (before the task and
/// service group steps are attached).
pub open spec fn catalog_rows(ram_tenths: Option<u64>, keys: Seq<Seq<char>>) -> Seq<TweakRow> {
    performance_rows(ram_tenths) + gaming_rows() + gpu_rows(keys) + network_rows() + windows_rows()
}

/// The ids of a sequence of tweaks.
pub open spec fn tweak_ids(v: Seq<Tweak>) -> Seq<Seq<char>> {
    v.map_values(|t: Tweak| t.meta.id@)
}

/// The edits of entry `i` of a tweak list, as plain values.
pub open spec fn edits_at(v: Seq<Tweak>, i: int) -> Seq<EditView> {
    v[i].group.edits@.map_values(|e: RegEdit| e@)
}

/// The svchost split threshold edit for the installed RAM.
pub open spec fn svchost_edit(ram_tenths: Option<u64>) -> EditView {
    EditView {
        hive: Hive::LocalMachine,
        path: "SYSTEM\\CurrentControlSet\\Control"@,
        name: "SvcHostSplitThresholdInKB"@,
        kind: EditKindView::Dword(svchost_spec(ram_tenths)),
    }
}

/// The KBoost edits over the NVIDIA adapter keys: four per key, in key order.
pub open spec fn kboost_edits(keys: Seq<Seq<char>>) -> Seq<EditView> {
    Seq::new(4 * keys.len(), |i: int| kboost_edit(keys[i / 4], i % 4))
}

/// The P-state edit of one NVIDIA adapter key.
pub open spec fn pstate_edit(key: Seq<char>) -> EditView {
    EditView { hive: Hive::LocalMachine, path: key, name: "DisableDynamicPstate"@, kind: EditKindView::Dword(1) }
}

/// What of the catalog depends on the machine: the svchost threshold follows
/// the installed RAM, and the KBoost and P-state tweaks edit exactly the
/// NVIDIA adapter keys found.
pub open spec fn machine_edits(v: Seq<Tweak>, ram_tenths: Option<u64>, keys: Seq<Seq<char>>) -> bool {
    &&& v.len() == 72
    &&& edits_at(v, 5) == seq![svchost_edit(ram_tenths)]
    &&& edits_at(v, 42) == kboost_edits(keys)
    &&& edits_at(v, 44) == keys.map_values(|k: Seq<char>| pstate_edit(k))
}

/// The ids of the performance section, in order.
pub open spec fn performance_ids() -> Seq<Seq<char>> {
    seq![
        "perf.high-performance-plan"@,
        "perf.min-processor-state"@,
        "perf.usb-selective-suspend"@,
        "perf.disable-hibernation"@,
        "perf.disable-memory-compression"@,
        "perf.svchost-split-threshold"@,
        "perf.menu-delay"@,
        "perf.shutdown-timeouts"@,
        "perf.disable-paging-executive"@,
        "perf.power-throttling-off"@,
        "perf.ntfs-lastaccess"@,
        "perf.ntfs-8dot3"@,
        "perf.background-apps-off"@,
        "perf.disable-sysmain"@,
        "perf.disable-diagtrack"@,
        "perf.irq-priorities"@,
        "perf.distribute-timers"@,
        "perf.disable-tsx-off"@,
        "perf.games-task-priority"@,
        "perf.system-responsiveness"@,
        "perf.c-states-off"@,
    ]
}

/// The ids of the gaming section, in order.
pub open spec fn gaming_ids() -> Seq<Seq<char>> {
    seq![
        "game.game-mode-on"@,
        "game.disable-game-bar"@,
        "game.disable-game-dvr"@,
        "game.disable-bcastdvr"@,
        "game.fullscreen-optimizations-off"@,
        "game.disable-vrr"@,
        "game.mouse-accurate"@,
        "game.mouse-hover-fast"@,
        "game.keyboard-delay"@,
        "game.disable-accessibility-keys"@,
        "game.kbd-mouse-queue"@,
        "game.discord-large-pages"@,
        "game.csrss-priority"@,
        "game.fortnite-priority"@,
        "game.valorant-priority"@,
    ]
}

/// The ids of the gpu section, in order.
pub open spec fn gpu_ids() -> Seq<Seq<char>> {
    seq![
        "gpu.hags-on"@,
        "gpu.disable-gpu-energy"@,
        "gpu.monitor-latency"@,
        "gpu.contiguous-memory"@,
        "gpu.use-gpu-timer"@,
        "gpu.nvidia-preemption"@,
        "gpu.nvidia-kboost"@,
        "gpu.nvidia-telemetry"@,
        "gpu.nvidia-pstates0"@,
        "gpu.amd-ulps"@,
        "gpu.amd-clock-gating"@,
        "gpu.intel-dedicated-segment"@,
    ]
}

/// The ids of the network section, in order.
pub open spec fn network_ids() -> Seq<Seq<char>> {
    seq![
        "net.flush-dns"@,
        "net.dns-cache-timers"@,
        "net.enable-autodoh"@,
        "net.tcp-globals"@,
        "net.afd-parameters"@,
        "net.lanman-tuning"@,
    ]
}

/// The ids of the windows section, in order.
pub open spec fn windows_ids() -> Seq<Seq<char>> {
    seq![
        "win.telemetry-minimal"@,
        "win.advertising-id"@,
        "win.tailored-experiences"@,
        "win.speech-inking"@,
        "win.activity-history"@,
        "win.notifications-off"@,
        "win.suggested-apps"@,
        "win.shared-experiences"@,
        "win.settings-sync"@,
        "win.cortana-off"@,
        "win.wer-off"@,
        "win.update-notify"@,
        "win.telemetry-tasks"@,
        "win.unnecessary-services"@,
        "win.diagnostic-services"@,
        "win.printing-maps-services"@,
        "win.xbox-services"@,
        "win.win11-unsupported-hw-check"@,
    ]
}

/// The tweak has steps: registry edits or a command step.
pub open spec fn has_steps(t: Tweak) -> bool {
    t.group.edits@.len() > 0 || t.extra_apply is Some || t.extra_restore is Some
}

/// The tweaks whose command steps are the task and service groups, attached
/// when the catalog is built.
pub open spec fn group_hooked(id: Seq<char>) -> bool {
    id == "win.telemetry-tasks"@ || id == "win.unnecessary-services"@ || id == "gpu.nvidia-telemetry"@
}

/// What holds of every catalog row of a section: its category, Quick Optimize
/// only for low-risk tweaks, state detection by target values, and steps for
/// every tweak that applies everywhere (the group tweaks get theirs when the
/// catalog is built).
pub open spec fn section_row(t: Tweak, c: TweakCategory) -> bool {
    &&& t.meta.category == c
    &&& t.meta.quick_optimize ==> t.meta.risk == Risk::Low
    &&& t.target_is_values
    &&& t.applies_to == AppliesTo::Always ==> (has_steps(t) || group_hooked(t.meta.id@))
}

/// A DWORD edit under HKLM.
fn dw(path: &str, name: &str, value: u32) -> (e: RegEdit)
    ensures
        e@ == (EditView { hive: Hive::LocalMachine, path: path@, name: name@, kind: EditKindView::Dword(value) }),
{
    RegEdit { hive: Hive::LocalMachine, path: owned(path), name: owned(name), kind: RegEditKind::Dword(value) }
}

/// A DWORD edit under HKLM.
fn hklm_dw(path: &str, name: &str, value: u32) -> (e: RegEdit)
    ensures
        e@ == (EditView { hive: Hive::LocalMachine, path: path@, name: name@, kind: EditKindView::Dword(value) }),
{
    RegEdit { hive: Hive::LocalMachine, path: owned(path), name: owned(name), kind: RegEditKind::Dword(value) }
}

/// A DWORD edit under HKCU.
fn dwcu(path: &str, name: &str, value: u32) -> (e: RegEdit)
    ensures
        e@ == (EditView { hive: Hive::CurrentUser, path: path@, name: name@, kind: EditKindView::Dword(value) }),
{
    RegEdit { hive: Hive::CurrentUser, path: owned(path), name: owned(name), kind: RegEditKind::Dword(value) }
}

/// A string edit.
fn sz(hive: Hive, path: &str, name: &str, value: &str) -> (e: RegEdit)
    ensures
        e@ == (EditView { hive, path: path@, name: name@, kind: EditKindView::Sz(value@) }),
{
    RegEdit { hive, path: owned(path), name: owned(name), kind: RegEditKind::Sz(owned(value)) }
}

/// An edit that deletes a value.
fn del(hive: Hive, path: &str, name: &str) -> (e: RegEdit)
    ensures
        e@ == (EditView { hive, path: path@, name: name@, kind: EditKindView::Delete }),
{
    RegEdit { hive, path: owned(path), name: owned(name), kind: RegEditKind::Delete }
}

/// A catalog tweak that applies everywhere and is detected by its target values.
fn t(
    id: &str,
    name: &str,
    desc: &str,
    cat: TweakCategory,
    risk: Risk,
    admin: bool,
    restart: bool,
    effect: &str,
    quick: bool,
    edits: Vec<RegEdit>,
) -> (r: Tweak)
    ensures
        r.meta.id@ == id@,
        r.meta.name@ == name@,
        r.meta.description@ == desc@,
        r.meta.category == cat,
        r.meta.risk == risk,
        r.meta.requires_admin == admin,
        r.meta.restart_required == restart,
        r.meta.effect@ == effect@,
        r.meta.quick_optimize == quick,
        r.applies_to == AppliesTo::Always,
        r.target_is_values,
        r.group.edits@ == edits@,
        r.extra_apply is None,
        r.extra_verify is None,
        r.extra_restore is None,
{
    Tweak::simple(id, name, desc, cat, risk, admin, restart, effect, quick, AppliesTo::Always, true, edits)
}

/// Owned copies of fixed command arguments.
fn strings(v: Vec<&str>) -> (r: Vec<String>)
    ensures
        views(r@) == v@.map_values(|s: &str| s@),
{
    let mut r: Vec<String> = Vec::new();
    let mut i: usize = 0;
    while i < v.len()
        invariant
            i <= v@.len(),
            views(r@) == v@.map_values(|s: &str| s@).subrange(0, i as int),
        decreases v.len() - i,
    {
        crate::text::push_owned(&mut r, v[i]);
        assert(v@.map_values(|s: &str| s@).subrange(0, i + 1) =~= v@.map_values(|s: &str| s@).subrange(
            0,
            i as int,
        ).push(v@[i as int]@));
        i = i + 1;
    }
    assert(v@.map_values(|s: &str| s@).subrange(0, v@.len() as int) =~= v@.map_values(|s: &str| s@));
    r
}

impl Tweak {
    /// Restricts the tweak to systems with an NVIDIA GPU.
    pub fn requires_nvidia(self) -> (r: Tweak)
        ensures
            r == (Tweak { applies_to: AppliesTo::Nvidia, ..self }),
    {
        Tweak { applies_to: AppliesTo::Nvidia, ..self }
    }

    /// Restricts the tweak to systems with an AMD GPU.
    pub fn requires_amd(self) -> (r: Tweak)
        ensures
            r == (Tweak { applies_to: AppliesTo::Amd, ..self }),
    {
        Tweak { applies_to: AppliesTo::Amd, ..self }
    }

    /// Restricts the tweak to systems with Intel graphics.
    pub fn requires_intel(self) -> (r: Tweak)
        ensures
            r == (Tweak { applies_to: AppliesTo::Intel, ..self }),
    {
        Tweak { applies_to: AppliesTo::Intel, ..self }
    }
}

/// The full catalog, in sidebar order: performance, gaming, GPU, network,
/// Windows (cleanup has no catalog tweaks).
pub fn all_tweaks(env: &CatalogEnv) -> (v: Vec<Tweak>)
    ensures
        forall|i: int| 0 <= i < v@.len() ==> {
            let t = #[trigger] v@[i];
            &&& t.meta.quick_optimize ==> t.meta.risk == Risk::Low
            &&& t.target_is_values
            &&& t.applies_to == AppliesTo::Always ==> (has_steps(t) || group_hooked(t.meta.id@))
        },
        tweak_ids(v@) == performance_ids() + gaming_ids() + gpu_ids() + network_ids() + windows_ids(),
        v@.len() == 72,
        machine_edits(v@, env.ram_tenths, views(env.nvidia_keys@)),
        rows_of(v@) == catalog_rows(env.ram_tenths, views(env.nvidia_keys@)),
{
    let mut v: Vec<Tweak> = Vec::new();
    let mut p = performance(env);
    assert(tweak_ids(p@).len() == p@.len());
    v.append(&mut p);
    let mut g = gaming();
    assert(tweak_ids(g@).len() == g@.len());
    v.append(&mut g);
    let mut u = gpu(env);
    assert(tweak_ids(u@).len() == u@.len());
    v.append(&mut u);
    let mut n = network();
    assert(tweak_ids(n@).len() == n@.len());
    v.append(&mut n);
    let mut w = windows();
    assert(tweak_ids(w@).len() == w@.len());
    v.append(&mut w);
    assert(tweak_ids(v@) =~= performance_ids() + gaming_ids() + gpu_ids() + network_ids() + windows_ids());
    assert(rows_of(v@) =~= catalog_rows(env.ram_tenths, views(env.nvidia_keys@)));
    v
}

/// The performance section, row by row.
pub open spec fn performance_rows(ram_tenths: Option<u64>) -> Seq<TweakRow> {
    seq![
        TweakRow {
            id: "perf.high-performance-plan"@,
            name: "High performance power plan"@,
            description: "Activates the built-in High Performance power plan (creates it first if missing) so the system favors performance over power saving."@,
            category: TweakCategory::Performance,
            risk: Risk::Low,
            requires_admin: true,
            restart_required: false,
            effect: "Sets the active power plan to High Performance."@,
            quick_optimize: true,
            applies_to: AppliesTo::Always,
            target_is_values: true,
            edits: Seq::<EditView>::empty(),
            apply: Some(HookView::HighPerformancePlan),
            verify: Some(HookView::VerifyHighPerformancePlan),
            restore: Some(HookView::BalancedPlan),
        },
        TweakRow {
            id: "perf.min-processor-state"@,
            name: "Processor minimum state 100%"@,
            description: "Sets the minimum processor state to 100% on the active plan so cores stay at full frequency instead of throttling down at idle."@,
            category: TweakCategory::Performance,
            risk: Risk::Medium,
            requires_admin: true,
            restart_required: false,
            effect: "Changes the minimum processor state power setting to 100% (AC and DC)."@,
            quick_optimize: false,
            applies_to: AppliesTo::Always,
            target_is_values: true,
            edits: Seq::<EditView>::empty(),
            apply: Some(HookView::PowerValue(seq!["/setacvalueindex"@, "scheme_current"@, "sub_processor"@, "PROCTHROTTLEMIN"@, "100"@])),
            verify: Some(HookView::VerifyPowerValue),
            restore: Some(HookView::PowerValue(seq!["/setacvalueindex"@, "scheme_current"@, "sub_processor"@, "PROCTHROTTLEMIN"@, "5"@])),
        },
        TweakRow {
            id: "perf.usb-selective-suspend"@,
            name: "Disable USB selective suspend"@,
            description: "Disables USB selective suspend on the active power plan so USB devices are not put into low-power states automatically."@,
            category: TweakCategory::Performance,
            risk: Risk::Low,
            requires_admin: true,
            restart_required: false,
            effect: "Sets USB selective suspend to Disabled on the active plan."@,
            quick_optimize: true,
            applies_to: AppliesTo::Always,
            target_is_values: true,
            edits: Seq::<EditView>::empty(),
            apply: Some(HookView::PowerValue(seq!["/setacvalueindex"@, "scheme_current"@, "2a737441-1930-4402-8d77-b2bebba308a3"@, "48e6b7a6-50f5-4782-a5d4-53bb8f07e226"@, "0"@])),
            verify: Some(HookView::AlwaysVerified),
            restore: Some(HookView::PowerValue(seq!["/setacvalueindex"@, "scheme_current"@, "2a737441-1930-4402-8d77-b2bebba308a3"@, "48e6b7a6-50f5-4782-a5d4-53bb8f07e226"@, "1"@])),
        },
        TweakRow {
            id: "perf.disable-hibernation"@,
            name: "Disable hibernation and fast startup"@,
            description: "Turns off hibernation (deletes hiberfil.sys, freeing disk space) and disables Fast Startup so every boot is a full cold start."@,
            category: TweakCategory::Performance,
            risk: Risk::Low,
            requires_admin: true,
            restart_required: false,
            effect: "Runs powercfg /hibernate off and clears the Fast Startup boot flag."@,
            quick_optimize: true,
            applies_to: AppliesTo::Always,
            target_is_values: true,
            edits: seq![EditView { hive: Hive::LocalMachine, path: "SYSTEM\\CurrentControlSet\\Control\\Session Manager\\Power"@, name: "HiberbootEnabled"@, kind: EditKindView::Dword(0) }],
            apply: Some(HookView::Powercfg(seq!["/hibernate"@, "off"@])),
            verify: Some(HookView::VerifyHibernation(false)),
            restore: Some(HookView::Powercfg(seq!["/hibernate"@, "on"@])),
        },
        TweakRow {
            id: "perf.disable-memory-compression"@,
            name: "Disable memory compression"@,
            description: "Turns off the Windows memory compression store. Uses more disk paging instead of CPU cycles for compression."@,
            category: TweakCategory::Performance,
            risk: Risk::Medium,
            requires_admin: true,
            restart_required: false,
            effect: "Runs Disable-MMAgent -mc."@,
            quick_optimize: false,
            applies_to: AppliesTo::Always,
            target_is_values: true,
            edits: Seq::<EditView>::empty(),
            apply: Some(HookView::DisableMemoryCompression),
            verify: Some(HookView::VerifyMemoryCompressionOff),
            restore: Some(HookView::EnableMemoryCompression),
        },
        TweakRow {
            id: "perf.svchost-split-threshold"@,
            name: "Svchost split threshold (RAM-based)"@,
            description: "Raises the memory threshold at which Windows splits services into separate svchost processes. Value is chosen from your installed RAM (8/16/32/64 GB tables from the tweak script)."@,
            category: TweakCategory::Performance,
            risk: Risk::Low,
            requires_admin: true,
            restart_required: true,
            effect: "Sets SvcHostSplitThresholdInKB to the value matching installed RAM."@,
            quick_optimize: true,
            applies_to: AppliesTo::Always,
            target_is_values: true,
            edits: seq![EditView { hive: Hive::LocalMachine, path: "SYSTEM\\CurrentControlSet\\Control"@, name: "SvcHostSplitThresholdInKB"@, kind: EditKindView::Dword(svchost_spec(ram_tenths)) }],
            apply: None::<HookView>,
            verify: None::<HookView>,
            restore: None::<HookView>,
        },
        TweakRow {
            id: "perf.menu-delay"@,
            name: "Menu show delay 0"@,
            description: "Removes the menu open animation delay in Windows for snappier UI response."@,
            category: TweakCategory::Performance,
            risk: Risk::Low,
            requires_admin: false,
            restart_required: false,
            effect: "Sets HKCU Control Panel\\Desktop MenuShowDelay to 0."@,
            quick_optimize: true,
            applies_to: AppliesTo::Always,
            target_is_values: true,
            edits: seq![EditView { hive: Hive::CurrentUser, path: "Control Panel\\Desktop"@, name: "MenuShowDelay"@, kind: EditKindView::Sz("0"@) }],
            apply: None::<HookView>,
            verify: None::<HookView>,
            restore: None::<HookView>,
        },
        TweakRow {
            id: "perf.shutdown-timeouts"@,
            name: "Faster shutdown timeouts"@,
            description: "Reduces WaitToKillAppTimeout, HungAppTimeout and AutoEndTasks so unresponsive apps are closed sooner at shutdown."@,
            category: TweakCategory::Performance,
            risk: Risk::Low,
            requires_admin: false,
            restart_required: false,
            effect: "Sets desktop timeout strings to 1000ms and enables AutoEndTasks."@,
            quick_optimize: true,
            applies_to: AppliesTo::Always,
            target_is_values: true,
            edits: seq![EditView { hive: Hive::CurrentUser, path: "Control Panel\\Desktop"@, name: "WaitToKillAppTimeout"@, kind: EditKindView::Sz("1000"@) }, EditView { hive: Hive::CurrentUser, path: "Control Panel\\Desktop"@, name: "HungAppTimeout"@, kind: EditKindView::Sz("1000"@) }, EditView { hive: Hive::CurrentUser, path: "Control Panel\\Desktop"@, name: "AutoEndTasks"@, kind: EditKindView::Sz("1"@) }, EditView { hive: Hive::LocalMachine, path: "SYSTEM\\CurrentControlSet\\Control"@, name: "WaitToKillServiceTimeout"@, kind: EditKindView::Sz("2000"@) }],
            apply: None::<HookView>,
            verify: None::<HookView>,
            restore: None::<HookView>,
        },
        TweakRow {
            id: "perf.disable-paging-executive"@,
            name: "Keep kernel in memory (DisablePagingExecutive)"@,
            description: "Prevents Windows from paging kernel memory to disk. Uses more RAM; can reduce disk activity."@,
            category: TweakCategory::Performance,
            risk: Risk::Medium,
            requires_admin: true,
            restart_required: true,
            effect: "Sets DisablePagingExecutive to 1 in Memory Management."@,
            quick_optimize: false,
            applies_to: AppliesTo::Always,
            target_is_values: true,
            edits: seq![EditView { hive: Hive::LocalMachine, path: "SYSTEM\\CurrentControlSet\\Control\\Session Manager\\Memory Management"@, name: "DisablePagingExecutive"@, kind: EditKindView::Dword(1) }],
            apply: None::<HookView>,
            verify: None::<HookView>,
            restore: None::<HookView>,
        },
        TweakRow {
            id: "perf.power-throttling-off"@,
            name: "Disable power throttling"@,
            description: "Disables Windows power throttling (EcoQoS) so background processes are not deprioritized for power saving."@,
            category: TweakCategory::Performance,
            risk: Risk::Medium,
            requires_admin: true,
            restart_required: false,
            effect: "Sets PowerThrottlingOff to 1."@,
            quick_optimize: false,
            applies_to: AppliesTo::Always,
            target_is_values: true,
            edits: seq![EditView { hive: Hive::LocalMachine, path: "SYSTEM\\CurrentControlSet\\Control\\Power\\PowerThrottling"@, name: "PowerThrottlingOff"@, kind: EditKindView::Dword(1) }],
            apply: None::<HookView>,
            verify: None::<HookView>,
            restore: None::<HookView>,
        },
        TweakRow {
            id: "perf.ntfs-lastaccess"@,
            name: "Disable NTFS last-access updates"@,
            description: "Stops Windows from updating the last-access timestamp on directories, reducing small disk writes."@,
            category: TweakCategory::Performance,
            risk: Risk::Low,
            requires_admin: true,
            restart_required: true,
            effect: "Runs fsutil behavior set disablelastaccess 1."@,
            quick_optimize: true,
            applies_to: AppliesTo::Always,
            target_is_values: true,
            edits: Seq::<EditView>::empty(),
            apply: Some(HookView::FsutilSet("disablelastaccess"@, "1"@)),
            verify: Some(HookView::VerifyFsutil("disablelastaccess"@, "1"@)),
            restore: Some(HookView::FsutilSet("disablelastaccess"@, "2"@)),
        },
        TweakRow {
            id: "perf.ntfs-8dot3"@,
            name: "Disable 8.3 filename creation"@,
            description: "Stops Windows from creating legacy short (8.3) names for files, reducing metadata overhead on NTFS."@,
            category: TweakCategory::Performance,
            risk: Risk::Low,
            requires_admin: true,
            restart_required: true,
            effect: "Runs fsutil behavior set disable8dot3 1."@,
            quick_optimize: true,
            applies_to: AppliesTo::Always,
            target_is_values: true,
            edits: Seq::<EditView>::empty(),
            apply: Some(HookView::FsutilSet("disable8dot3"@, "1"@)),
            verify: Some(HookView::VerifyFsutil("disable8dot3"@, "1"@)),
            restore: Some(HookView::FsutilSet("disable8dot3"@, "2"@)),
        },
        TweakRow {
            id: "perf.background-apps-off"@,
            name: "Disable background apps"@,
            description: "Stops Windows Store apps from running in the background when not in use."@,
            category: TweakCategory::Performance,
            risk: Risk::Medium,
            requires_admin: false,
            restart_required: false,
            effect: "Sets BackgroundAccessApplications GlobalUserDisabled to 1."@,
            quick_optimize: false,
            applies_to: AppliesTo::Always,
            target_is_values: true,
            edits: seq![EditView { hive: Hive::CurrentUser, path: "SOFTWARE\\Microsoft\\Windows\\CurrentVersion\\BackgroundAccessApplications"@, name: "GlobalUserDisabled"@, kind: EditKindView::Dword(1) }, EditView { hive: Hive::CurrentUser, path: "SOFTWARE\\Microsoft\\Windows\\CurrentVersion\\Search"@, name: "BackgroundAppGlobalToggle"@, kind: EditKindView::Dword(0) }],
            apply: None::<HookView>,
            verify: None::<HookView>,
            restore: None::<HookView>,
        },
        TweakRow {
            id: "perf.disable-sysmain"@,
            name: "Disable SysMain (Superfetch)"@,
            description: "Disables the SysMain service that pre-loads apps into memory. On SSDs this can reduce background disk activity."@,
            category: TweakCategory::Performance,
            risk: Risk::Medium,
            requires_admin: true,
            restart_required: false,
            effect: "Sets the SysMain service start type to Disabled."@,
            quick_optimize: false,
            applies_to: AppliesTo::Always,
            target_is_values: true,
            edits: seq![EditView { hive: Hive::LocalMachine, path: "SYSTEM\\CurrentControlSet\\Services\\SysMain"@, name: "Start"@, kind: EditKindView::Dword(4) }],
            apply: None::<HookView>,
            verify: None::<HookView>,
            restore: None::<HookView>,
        },
        TweakRow {
            id: "perf.disable-diagtrack"@,
            name: "Disable telemetry services"@,
            description: "Sets the DiagTrack (Connected User Experiences and Telemetry) and dmwappushservice services to Disabled."@,
            category: TweakCategory::Performance,
            risk: Risk::Medium,
            requires_admin: true,
            restart_required: false,
            effect: "Sets DiagTrack and dmwappushservice start types to Disabled."@,
            quick_optimize: false,
            applies_to: AppliesTo::Always,
            target_is_values: true,
            edits: seq![EditView { hive: Hive::LocalMachine, path: "SYSTEM\\CurrentControlSet\\Services\\DiagTrack"@, name: "Start"@, kind: EditKindView::Dword(4) }, EditView { hive: Hive::LocalMachine, path: "SYSTEM\\CurrentControlSet\\Services\\dmwappushservice"@, name: "Start"@, kind: EditKindView::Dword(4) }],
            apply: None::<HookView>,
            verify: None::<HookView>,
            restore: None::<HookView>,
        },
        TweakRow {
            id: "perf.irq-priorities"@,
            name: "IRQ 8/16 priority boost"@,
            description: "Raises the device IRQ priority for IRQ 8 (system timer) and 16 in the registry, as configured by the tweak script."@,
            category: TweakCategory::Performance,
            risk: Risk::Medium,
            requires_admin: true,
            restart_required: true,
            effect: "Sets IRQ8Priority=1 and IRQ16Priority=2 under PriorityControl."@,
            quick_optimize: false,
            applies_to: AppliesTo::Always,
            target_is_values: true,
            edits: seq![EditView { hive: Hive::LocalMachine, path: "SYSTEM\\CurrentControlSet\\Control\\PriorityControl"@, name: "IRQ8Priority"@, kind: EditKindView::Dword(1) }, EditView { hive: Hive::LocalMachine, path: "SYSTEM\\CurrentControlSet\\Control\\PriorityControl"@, name: "IRQ16Priority"@, kind: EditKindView::Dword(2) }],
            apply: None::<HookView>,
            verify: None::<HookView>,
            restore: None::<HookView>,
        },
        TweakRow {
            id: "perf.distribute-timers"@,
            name: "Distribute timer interrupts"@,
            description: "Sets DistributeTimers=1 in the kernel session manager, per the tweak script's CPU tweaks."@,
            category: TweakCategory::Performance,
            risk: Risk::Medium,
            requires_admin: true,
            restart_required: true,
            effect: "Sets DistributeTimers to 1 under Session Manager\\kernel."@,
            quick_optimize: false,
            applies_to: AppliesTo::Always,
            target_is_values: true,
            edits: seq![EditView { hive: Hive::LocalMachine, path: "SYSTEM\\CurrentControlSet\\Control\\Session Manager\\kernel"@, name: "DistributeTimers"@, kind: EditKindView::Dword(1) }],
            apply: None::<HookView>,
            verify: None::<HookView>,
            restore: None::<HookView>,
        },
        TweakRow {
            id: "perf.disable-tsx-off"@,
            name: "Re-enable TSX (DisableTsx=0)"@,
            description: "Explicitly keeps Transactional Synchronization Extensions enabled (sets DisableTsx to 0), as in the script's Intel section."@,
            category: TweakCategory::Performance,
            risk: Risk::Medium,
            requires_admin: true,
            restart_required: true,
            effect: "Sets DisableTsx to 0 under Session Manager\\kernel."@,
            quick_optimize: false,
            applies_to: AppliesTo::Always,
            target_is_values: true,
            edits: seq![EditView { hive: Hive::LocalMachine, path: "SYSTEM\\CurrentControlSet\\Control\\Session Manager\\kernel"@, name: "DisableTsx"@, kind: EditKindView::Dword(0) }],
            apply: None::<HookView>,
            verify: None::<HookView>,
            restore: None::<HookView>,
        },
        TweakRow {
            id: "perf.games-task-priority"@,
            name: "Multimedia Games task priority"@,
            description: "Configures the multimedia class scheduler's Games task: GPU priority 8, CPU priority 6, High scheduling category and latency-sensitive flag."@,
            category: TweakCategory::Performance,
            risk: Risk::Medium,
            requires_admin: true,
            restart_required: false,
            effect: "Writes the Games task profile under Multimedia\\SystemProfile\\Tasks\\Games."@,
            quick_optimize: false,
            applies_to: AppliesTo::Always,
            target_is_values: true,
            edits: seq![EditView { hive: Hive::LocalMachine, path: "SOFTWARE\\Microsoft\\Windows NT\\CurrentVersion\\Multimedia\\SystemProfile\\Tasks\\Games"@, name: "GPU Priority"@, kind: EditKindView::Dword(8) }, EditView { hive: Hive::LocalMachine, path: "SOFTWARE\\Microsoft\\Windows NT\\CurrentVersion\\Multimedia\\SystemProfile\\Tasks\\Games"@, name: "Priority"@, kind: EditKindView::Dword(6) }, EditView { hive: Hive::LocalMachine, path: "SOFTWARE\\Microsoft\\Windows NT\\CurrentVersion\\Multimedia\\SystemProfile\\Tasks\\Games"@, name: "Scheduling Category"@, kind: EditKindView::Sz("High"@) }, EditView { hive: Hive::LocalMachine, path: "SOFTWARE\\Microsoft\\Windows NT\\CurrentVersion\\Multimedia\\SystemProfile\\Tasks\\Games"@, name: "SFIO Priority"@, kind: EditKindView::Sz("High"@) }, EditView { hive: Hive::LocalMachine, path: "SOFTWARE\\Microsoft\\Windows NT\\CurrentVersion\\Multimedia\\SystemProfile\\Tasks\\Games"@, name: "Latency Sensitive"@, kind: EditKindView::Sz("True"@) }, EditView { hive: Hive::LocalMachine, path: "SOFTWARE\\Microsoft\\Windows NT\\CurrentVersion\\Multimedia\\SystemProfile\\Tasks\\Games"@, name: "Background Only"@, kind: EditKindView::Dword(0) }, EditView { hive: Hive::LocalMachine, path: "SOFTWARE\\Microsoft\\Windows NT\\CurrentVersion\\Multimedia\\SystemProfile\\Tasks\\Games"@, name: "Clock Rate"@, kind: EditKindView::Dword(10000) }, EditView { hive: Hive::LocalMachine, path: "SOFTWARE\\Microsoft\\Windows NT\\CurrentVersion\\Multimedia\\SystemProfile\\Tasks\\Games"@, name: "Affinity"@, kind: EditKindView::Dword(0) }],
            apply: None::<HookView>,
            verify: None::<HookView>,
            restore: None::<HookView>,
        },
        TweakRow {
            id: "perf.system-responsiveness"@,
            name: "System responsiveness 0%"@,
            description: "Sets the multimedia SystemResponsiveness to 0 so the MMCSS reserves no CPU for background tasks."@,
            category: TweakCategory::Performance,
            risk: Risk::Medium,
            requires_admin: true,
            restart_required: false,
            effect: "Sets SystemResponsiveness to 0 and NetworkThrottlingIndex to disabled (0xFFFFFFFF)."@,
            quick_optimize: false,
            applies_to: AppliesTo::Always,
            target_is_values: true,
            edits: seq![EditView { hive: Hive::LocalMachine, path: "SOFTWARE\\Microsoft\\Windows NT\\CurrentVersion\\Multimedia\\SystemProfile"@, name: "SystemResponsiveness"@, kind: EditKindView::Dword(0) }, EditView { hive: Hive::LocalMachine, path: "SOFTWARE\\Microsoft\\Windows NT\\CurrentVersion\\Multimedia\\SystemProfile"@, name: "NetworkThrottlingIndex"@, kind: EditKindView::Dword(4294967295) }],
            apply: None::<HookView>,
            verify: None::<HookView>,
            restore: None::<HookView>,
        },
        TweakRow {
            id: "perf.c-states-off"@,
            name: "Disable C-States and processor idle (High risk)"@,
            description: "Disables processor idle states (IDLEDISABLE=1) and C-State sleep on the active plan. Increases idle power and heat; affects laptops and desktops differently."@,
            category: TweakCategory::Performance,
            risk: Risk::High,
            requires_admin: true,
            restart_required: false,
            effect: "Sets processor idle disable to 1 on the active plan."@,
            quick_optimize: false,
            applies_to: AppliesTo::Always,
            target_is_values: true,
            edits: Seq::<EditView>::empty(),
            apply: Some(HookView::PowerValue(seq!["/setacvalueindex"@, "scheme_current"@, "sub_processor"@, "IDLEDISABLE"@, "1"@])),
            verify: Some(HookView::VerifyPowerValue),
            restore: Some(HookView::PowerValue(seq!["/setacvalueindex"@, "scheme_current"@, "sub_processor"@, "IDLEDISABLE"@, "0"@])),
        },
    ]
}

/// Performance tweaks (power plan, processor, memory, NTFS, scheduling).
fn performance(env: &CatalogEnv) -> (v: Vec<Tweak>)
    ensures
        rows_of(v@) == performance_rows(env.ram_tenths),
        tweak_ids(v@) == performance_ids(),
        edits_at(v@, 5) == seq![svchost_edit(env.ram_tenths)],
        forall|i: int| 0 <= i < v@.len() ==> section_row(#[trigger] v@[i], TweakCategory::Performance),
{
    let mut v: Vec<Tweak> = Vec::new();
    let x0 = t(
            "perf.high-performance-plan",
            "High performance power plan",
            "Activates the built-in High Performance power plan (creates it first if missing) so the system favors performance over power saving.",
            TweakCategory::Performance,
            Risk::Low,
            true,
            false,
            "Sets the active power plan to High Performance.",
            true,
            Vec::new(),
        ).with_hooks(
            Some(CommandHook::HighPerformancePlan),
            Some(CommandHook::VerifyHighPerformancePlan),
            Some(CommandHook::BalancedPlan),
        );
    assert(row_of(x0) =~~= performance_rows(env.ram_tenths)[0]);
    v.push(x0);

    let x1 = t(
            "perf.min-processor-state",
            "Processor minimum state 100%",
            "Sets the minimum processor state to 100% on the active plan so cores stay at full frequency instead of throttling down at idle.",
            TweakCategory::Performance,
            Risk::Medium,
            true,
            false,
            "Changes the minimum processor state power setting to 100% (AC and DC).",
            false,
            Vec::new(),
        ).with_hooks(
            Some(CommandHook::PowerValue(strings(vec!["/setacvalueindex", "scheme_current", "sub_processor", "PROCTHROTTLEMIN", "100"]))),
            Some(CommandHook::VerifyPowerValue),
            Some(CommandHook::PowerValue(strings(vec!["/setacvalueindex", "scheme_current", "sub_processor", "PROCTHROTTLEMIN", "5"]))),
        );
    assert(row_of(x1) =~~= performance_rows(env.ram_tenths)[1]);
    v.push(x1);

    let x2 = t(
            "perf.usb-selective-suspend",
            "Disable USB selective suspend",
            "Disables USB selective suspend on the active power plan so USB devices are not put into low-power states automatically.",
            TweakCategory::Performance,
            Risk::Low,
            true,
            false,
            "Sets USB selective suspend to Disabled on the active plan.",
            true,
            Vec::new(),
        ).with_hooks(
            Some(CommandHook::PowerValue(strings(vec!["/setacvalueindex", "scheme_current", "2a737441-1930-4402-8d77-b2bebba308a3", "48e6b7a6-50f5-4782-a5d4-53bb8f07e226", "0"]))),
            Some(CommandHook::AlwaysVerified),
            Some(CommandHook::PowerValue(strings(vec!["/setacvalueindex", "scheme_current", "2a737441-1930-4402-8d77-b2bebba308a3", "48e6b7a6-50f5-4782-a5d4-53bb8f07e226", "1"]))),
        );
    assert(row_of(x2) =~~= performance_rows(env.ram_tenths)[2]);
    v.push(x2);

    let x3 = t(
            "perf.disable-hibernation",
            "Disable hibernation and fast startup",
            "Turns off hibernation (deletes hiberfil.sys, freeing disk space) and disables Fast Startup so every boot is a full cold start.",
            TweakCategory::Performance,
            Risk::Low,
            true,
            false,
            "Runs powercfg /hibernate off and clears the Fast Startup boot flag.",
            true,
            vec![
                dw("SYSTEM\\CurrentControlSet\\Control\\Session Manager\\Power", "HiberbootEnabled", 0),
            ],
        ).with_hooks(
            Some(CommandHook::Powercfg(strings(vec!["/hibernate", "off"]))),
            Some(CommandHook::VerifyHibernation(false)),
            Some(CommandHook::Powercfg(strings(vec!["/hibernate", "on"]))),
        );
    assert(row_of(x3) =~~= performance_rows(env.ram_tenths)[3]);
    v.push(x3);

    let x4 = t(
            "perf.disable-memory-compression",
            "Disable memory compression",
            "Turns off the Windows memory compression store. Uses more disk paging instead of CPU cycles for compression.",
            TweakCategory::Performance,
            Risk::Medium,
            true,
            false,
            "Runs Disable-MMAgent -mc.",
            false,
            Vec::new(),
        ).with_hooks(
            Some(CommandHook::DisableMemoryCompression),
            Some(CommandHook::VerifyMemoryCompressionOff),
            Some(CommandHook::EnableMemoryCompression),
        );
    assert(row_of(x4) =~~= performance_rows(env.ram_tenths)[4]);
    v.push(x4);

    let x5 = t(
            "perf.svchost-split-threshold",
            "Svchost split threshold (RAM-based)",
            "Raises the memory threshold at which Windows splits services into separate svchost processes. Value is chosen from your installed RAM (8/16/32/64 GB tables from the tweak script).",
            TweakCategory::Performance,
            Risk::Low,
            true,
            true,
            "Sets SvcHostSplitThresholdInKB to the value matching installed RAM.",
            true,
            vec![
                dw("SYSTEM\\CurrentControlSet\\Control", "SvcHostSplitThresholdInKB", svchost_threshold(env.ram_tenths)),
            ],
        );
    assert(row_of(x5) =~~= performance_rows(env.ram_tenths)[5]);
    v.push(x5);

    let x6 = t(
            "perf.menu-delay",
            "Menu show delay 0",
            "Removes the menu open animation delay in Windows for snappier UI response.",
            TweakCategory::Performance,
            Risk::Low,
            false,
            false,
            "Sets HKCU Control Panel\\Desktop MenuShowDelay to 0.",
            true,
            vec![
                sz(Hive::CurrentUser, "Control Panel\\Desktop", "MenuShowDelay", "0"),
            ],
        );
    assert(row_of(x6) =~~= performance_rows(env.ram_tenths)[6]);
    v.push(x6);

    let x7 = t(
            "perf.shutdown-timeouts",
            "Faster shutdown timeouts",
            "Reduces WaitToKillAppTimeout, HungAppTimeout and AutoEndTasks so unresponsive apps are closed sooner at shutdown.",
            TweakCategory::Performance,
            Risk::Low,
            false,
            false,
            "Sets desktop timeout strings to 1000ms and enables AutoEndTasks.",
            true,
            vec![
                sz(Hive::CurrentUser, "Control Panel\\Desktop", "WaitToKillAppTimeout", "1000"),
                sz(Hive::CurrentUser, "Control Panel\\Desktop", "HungAppTimeout", "1000"),
                sz(Hive::CurrentUser, "Control Panel\\Desktop", "AutoEndTasks", "1"),
                sz(Hive::LocalMachine, "SYSTEM\\CurrentControlSet\\Control", "WaitToKillServiceTimeout", "2000"),
            ],
        );
    assert(row_of(x7) =~~= performance_rows(env.ram_tenths)[7]);
    v.push(x7);

    let x8 = t(
            "perf.disable-paging-executive",
            "Keep kernel in memory (DisablePagingExecutive)",
            "Prevents Windows from paging kernel memory to disk. Uses more RAM; can reduce disk activity.",
            TweakCategory::Performance,
            Risk::Medium,
            true,
            true,
            "Sets DisablePagingExecutive to 1 in Memory Management.",
            false,
            vec![
                dw("SYSTEM\\CurrentControlSet\\Control\\Session Manager\\Memory Management", "DisablePagingExecutive", 1),
            ],
        );
    assert(row_of(x8) =~~= performance_rows(env.ram_tenths)[8]);
    v.push(x8);

    let x9 = t(
            "perf.power-throttling-off",
            "Disable power throttling",
            "Disables Windows power throttling (EcoQoS) so background processes are not deprioritized for power saving.",
            TweakCategory::Performance,
            Risk::Medium,
            true,
            false,
            "Sets PowerThrottlingOff to 1.",
            false,
            vec![
                dw("SYSTEM\\CurrentControlSet\\Control\\Power\\PowerThrottling", "PowerThrottlingOff", 1),
            ],
        );
    assert(row_of(x9) =~~= performance_rows(env.ram_tenths)[9]);
    v.push(x9);

    let x10 = t(
            "perf.ntfs-lastaccess",
            "Disable NTFS last-access updates",
            "Stops Windows from updating the last-access timestamp on directories, reducing small disk writes.",
            TweakCategory::Performance,
            Risk::Low,
            true,
            true,
            "Runs fsutil behavior set disablelastaccess 1.",
            true,
            Vec::new(),
        ).with_hooks(
            Some(CommandHook::FsutilSet(owned("disablelastaccess"), owned("1"))),
            Some(CommandHook::VerifyFsutil(owned("disablelastaccess"), owned("1"))),
            Some(CommandHook::FsutilSet(owned("disablelastaccess"), owned("2"))),
        );
    assert(row_of(x10) =~~= performance_rows(env.ram_tenths)[10]);
    v.push(x10);

    let x11 = t(
            "perf.ntfs-8dot3",
            "Disable 8.3 filename creation",
            "Stops Windows from creating legacy short (8.3) names for files, reducing metadata overhead on NTFS.",
            TweakCategory::Performance,
            Risk::Low,
            true,
            true,
            "Runs fsutil behavior set disable8dot3 1.",
            true,
            Vec::new(),
        ).with_hooks(
            Some(CommandHook::FsutilSet(owned("disable8dot3"), owned("1"))),
            Some(CommandHook::VerifyFsutil(owned("disable8dot3"), owned("1"))),
            Some(CommandHook::FsutilSet(owned("disable8dot3"), owned("2"))),
        );
    assert(row_of(x11) =~~= performance_rows(env.ram_tenths)[11]);
    v.push(x11);

    let x12 = t(
            "perf.background-apps-off",
            "Disable background apps",
            "Stops Windows Store apps from running in the background when not in use.",
            TweakCategory::Performance,
            Risk::Medium,
            false,
            false,
            "Sets BackgroundAccessApplications GlobalUserDisabled to 1.",
            false,
            vec![
                dwcu("SOFTWARE\\Microsoft\\Windows\\CurrentVersion\\BackgroundAccessApplications", "GlobalUserDisabled", 1),
                dwcu("SOFTWARE\\Microsoft\\Windows\\CurrentVersion\\Search", "BackgroundAppGlobalToggle", 0),
            ],
        );
    assert(row_of(x12) =~~= performance_rows(env.ram_tenths)[12]);
    v.push(x12);

    let x13 = t(
            "perf.disable-sysmain",
            "Disable SysMain (Superfetch)",
            "Disables the SysMain service that pre-loads apps into memory. On SSDs this can reduce background disk activity.",
            TweakCategory::Performance,
            Risk::Medium,
            true,
            false,
            "Sets the SysMain service start type to Disabled.",
            false,
            vec![
                dw("SYSTEM\\CurrentControlSet\\Services\\SysMain", "Start", 4),
            ],
        );
    assert(row_of(x13) =~~= performance_rows(env.ram_tenths)[13]);
    v.push(x13);

    let x14 = t(
            "perf.disable-diagtrack",
            "Disable telemetry services",
            "Sets the DiagTrack (Connected User Experiences and Telemetry) and dmwappushservice services to Disabled.",
            TweakCategory::Performance,
            Risk::Medium,
            true,
            false,
            "Sets DiagTrack and dmwappushservice start types to Disabled.",
            false,
            vec![
                dw("SYSTEM\\CurrentControlSet\\Services\\DiagTrack", "Start", 4),
                dw("SYSTEM\\CurrentControlSet\\Services\\dmwappushservice", "Start", 4),
            ],
        );
    assert(row_of(x14) =~~= performance_rows(env.ram_tenths)[14]);
    v.push(x14);

    let x15 = t(
            "perf.irq-priorities",
            "IRQ 8/16 priority boost",
            "Raises the device IRQ priority for IRQ 8 (system timer) and 16 in the registry, as configured by the tweak script.",
            TweakCategory::Performance,
            Risk::Medium,
            true,
            true,
            "Sets IRQ8Priority=1 and IRQ16Priority=2 under PriorityControl.",
            false,
            vec![
                dw("SYSTEM\\CurrentControlSet\\Control\\PriorityControl", "IRQ8Priority", 1),
                dw("SYSTEM\\CurrentControlSet\\Control\\PriorityControl", "IRQ16Priority", 2),
            ],
        );
    assert(row_of(x15) =~~= performance_rows(env.ram_tenths)[15]);
    v.push(x15);

    let x16 = t(
            "perf.distribute-timers",
            "Distribute timer interrupts",
            "Sets DistributeTimers=1 in the kernel session manager, per the tweak script's CPU tweaks.",
            TweakCategory::Performance,
            Risk::Medium,
            true,
            true,
            "Sets DistributeTimers to 1 under Session Manager\\kernel.",
            false,
            vec![
                dw("SYSTEM\\CurrentControlSet\\Control\\Session Manager\\kernel", "DistributeTimers", 1),
            ],
        );
    assert(row_of(x16) =~~= performance_rows(env.ram_tenths)[16]);
    v.push(x16);

    let x17 = t(
            "perf.disable-tsx-off",
            "Re-enable TSX (DisableTsx=0)",
            "Explicitly keeps Transactional Synchronization Extensions enabled (sets DisableTsx to 0), as in the script's Intel section.",
            TweakCategory::Performance,
            Risk::Medium,
            true,
            true,
            "Sets DisableTsx to 0 under Session Manager\\kernel.",
            false,
            vec![
                dw("SYSTEM\\CurrentControlSet\\Control\\Session Manager\\kernel", "DisableTsx", 0),
            ],
        );
    assert(row_of(x17) =~~= performance_rows(env.ram_tenths)[17]);
    v.push(x17);

    let x18 = t(
            "perf.games-task-priority",
            "Multimedia Games task priority",
            "Configures the multimedia class scheduler's Games task: GPU priority 8, CPU priority 6, High scheduling category and latency-sensitive flag.",
            TweakCategory::Performance,
            Risk::Medium,
            true,
            false,
            "Writes the Games task profile under Multimedia\\SystemProfile\\Tasks\\Games.",
            false,
            vec![
                dw("SOFTWARE\\Microsoft\\Windows NT\\CurrentVersion\\Multimedia\\SystemProfile\\Tasks\\Games", "GPU Priority", 8),
                dw("SOFTWARE\\Microsoft\\Windows NT\\CurrentVersion\\Multimedia\\SystemProfile\\Tasks\\Games", "Priority", 6),
                sz(Hive::LocalMachine, "SOFTWARE\\Microsoft\\Windows NT\\CurrentVersion\\Multimedia\\SystemProfile\\Tasks\\Games", "Scheduling Category", "High"),
                sz(Hive::LocalMachine, "SOFTWARE\\Microsoft\\Windows NT\\CurrentVersion\\Multimedia\\SystemProfile\\Tasks\\Games", "SFIO Priority", "High"),
                sz(Hive::LocalMachine, "SOFTWARE\\Microsoft\\Windows NT\\CurrentVersion\\Multimedia\\SystemProfile\\Tasks\\Games", "Latency Sensitive", "True"),
                dw("SOFTWARE\\Microsoft\\Windows NT\\CurrentVersion\\Multimedia\\SystemProfile\\Tasks\\Games", "Background Only", 0),
                dw("SOFTWARE\\Microsoft\\Windows NT\\CurrentVersion\\Multimedia\\SystemProfile\\Tasks\\Games", "Clock Rate", 10000),
                dw("SOFTWARE\\Microsoft\\Windows NT\\CurrentVersion\\Multimedia\\SystemProfile\\Tasks\\Games", "Affinity", 0),
            ],
        );
    assert(row_of(x18) =~~= performance_rows(env.ram_tenths)[18]);
    v.push(x18);

    let x19 = t(
            "perf.system-responsiveness",
            "System responsiveness 0%",
            "Sets the multimedia SystemResponsiveness to 0 so the MMCSS reserves no CPU for background tasks.",
            TweakCategory::Performance,
            Risk::Medium,
            true,
            false,
            "Sets SystemResponsiveness to 0 and NetworkThrottlingIndex to disabled (0xFFFFFFFF).",
            false,
            vec![
                dw("SOFTWARE\\Microsoft\\Windows NT\\CurrentVersion\\Multimedia\\SystemProfile", "SystemResponsiveness", 0),
                dw("SOFTWARE\\Microsoft\\Windows NT\\CurrentVersion\\Multimedia\\SystemProfile", "NetworkThrottlingIndex", 4294967295),
            ],
        );
    assert(row_of(x19) =~~= performance_rows(env.ram_tenths)[19]);
    v.push(x19);

    let x20 = t(
            "perf.c-states-off",
            "Disable C-States and processor idle (High risk)",
            "Disables processor idle states (IDLEDISABLE=1) and C-State sleep on the active plan. Increases idle power and heat; affects laptops and desktops differently.",
            TweakCategory::Performance,
            Risk::High,
            true,
            false,
            "Sets processor idle disable to 1 on the active plan.",
            false,
            Vec::new(),
        ).with_hooks(
            Some(CommandHook::PowerValue(strings(vec!["/setacvalueindex", "scheme_current", "sub_processor", "IDLEDISABLE", "1"]))),
            Some(CommandHook::VerifyPowerValue),
            Some(CommandHook::PowerValue(strings(vec!["/setacvalueindex", "scheme_current", "sub_processor", "IDLEDISABLE", "0"]))),
        );
    assert(row_of(x20) =~~= performance_rows(env.ram_tenths)[20]);
    v.push(x20);

    assert(tweak_ids(v@) =~= performance_ids());
    assert(rows_of(v@) =~= performance_rows(env.ram_tenths));
    v
}

/// The gaming section, row by row.
pub open spec fn gaming_rows() -> Seq<TweakRow> {
    seq![
        TweakRow {
            id: "game.game-mode-on"@,
            name: "Enable Game Mode"@,
            description: "Enables Windows Game Mode, which prioritizes the foreground game for CPU and GPU resources when a game is detected."@,
            category: TweakCategory::Gaming,
            risk: Risk::Low,
            requires_admin: false,
            restart_required: false,
            effect: "Sets GameBar AllowAutoGameMode and AutoGameModeEnabled to 1."@,
            quick_optimize: true,
            applies_to: AppliesTo::Always,
            target_is_values: true,
            edits: seq![EditView { hive: Hive::CurrentUser, path: "SOFTWARE\\Microsoft\\GameBar"@, name: "AllowAutoGameMode"@, kind: EditKindView::Dword(1) }, EditView { hive: Hive::CurrentUser, path: "SOFTWARE\\Microsoft\\GameBar"@, name: "AutoGameModeEnabled"@, kind: EditKindView::Dword(1) }],
            apply: None::<HookView>,
            verify: None::<HookView>,
            restore: None::<HookView>,
        },
        TweakRow {
            id: "game.disable-game-bar"@,
            name: "Disable Xbox Game Bar"@,
            description: "Disables the Xbox Game Bar overlay and its background recording hooks."@,
            category: TweakCategory::Gaming,
            risk: Risk::Low,
            requires_admin: false,
            restart_required: false,
            effect: "Sets GameBar UseNexusForGameBarEnabled to 0 and the XboxGameBar enabled flag to 0."@,
            quick_optimize: true,
            applies_to: AppliesTo::Always,
            target_is_values: true,
            edits: seq![EditView { hive: Hive::CurrentUser, path: "SOFTWARE\\Microsoft\\GameBar"@, name: "UseNexusForGameBarEnabled"@, kind: EditKindView::Dword(0) }, EditView { hive: Hive::CurrentUser, path: "System\\GameConfigStore"@, name: "GameDVR_Enabled"@, kind: EditKindView::Dword(0) }],
            apply: None::<HookView>,
            verify: None::<HookView>,
            restore: None::<HookView>,
        },
        TweakRow {
            id: "game.disable-game-dvr"@,
            name: "Disable Game DVR captures"@,
            description: "Turns off background/continuous game clip recording (AppCaptureEnabled, HistoricalCaptureEnabled, audio capture) and the AppBroadcast capture defaults."@,
            category: TweakCategory::Gaming,
            risk: Risk::Low,
            requires_admin: false,
            restart_required: false,
            effect: "Disables GameDVR capture values under CurrentVersion\\GameDVR and AppBroadcast."@,
            quick_optimize: true,
            applies_to: AppliesTo::Always,
            target_is_values: true,
            edits: seq![EditView { hive: Hive::CurrentUser, path: "SOFTWARE\\Microsoft\\Windows\\CurrentVersion\\GameDVR"@, name: "AppCaptureEnabled"@, kind: EditKindView::Dword(0) }, EditView { hive: Hive::CurrentUser, path: "SOFTWARE\\Microsoft\\Windows\\CurrentVersion\\GameDVR"@, name: "HistoricalCaptureEnabled"@, kind: EditKindView::Dword(0) }, EditView { hive: Hive::CurrentUser, path: "SOFTWARE\\Microsoft\\Windows\\CurrentVersion\\GameDVR"@, name: "AudioCaptureEnabled"@, kind: EditKindView::Dword(0) }, EditView { hive: Hive::CurrentUser, path: "SOFTWARE\\Microsoft\\Windows\\CurrentVersion\\GameDVR"@, name: "CursorCaptureEnabled"@, kind: EditKindView::Dword(0) }, EditView { hive: Hive::CurrentUser, path: "SOFTWARE\\Microsoft\\Windows\\CurrentVersion\\AppBroadcast\\GlobalSettings"@, name: "AudioCaptureEnabled"@, kind: EditKindView::Dword(0) }, EditView { hive: Hive::CurrentUser, path: "SOFTWARE\\Microsoft\\Windows\\CurrentVersion\\AppBroadcast\\GlobalSettings"@, name: "MicrophoneCaptureEnabledByDefault"@, kind: EditKindView::Dword(0) }, EditView { hive: Hive::CurrentUser, path: "SOFTWARE\\Microsoft\\Windows\\CurrentVersion\\AppBroadcast\\GlobalSettings"@, name: "CameraCaptureEnabledByDefault"@, kind: EditKindView::Dword(0) }],
            apply: None::<HookView>,
            verify: None::<HookView>,
            restore: None::<HookView>,
        },
        TweakRow {
            id: "game.disable-bcastdvr"@,
            name: "Disable BcastDVRUserService"@,
            description: "Sets the GameDVR user service (BcastDVRUserService) start type to Disabled."@,
            category: TweakCategory::Gaming,
            risk: Risk::Medium,
            requires_admin: true,
            restart_required: false,
            effect: "Sets the BcastDVRUserService service start type to Disabled."@,
            quick_optimize: false,
            applies_to: AppliesTo::Always,
            target_is_values: true,
            edits: seq![EditView { hive: Hive::LocalMachine, path: "SYSTEM\\CurrentControlSet\\Services\\BcastDVRUserService"@, name: "Start"@, kind: EditKindView::Dword(4) }],
            apply: None::<HookView>,
            verify: None::<HookView>,
            restore: None::<HookView>,
        },
        TweakRow {
            id: "game.fullscreen-optimizations-off"@,
            name: "Disable fullscreen optimizations"@,
            description: "Sets a global compatibility flag (DISABLEDXMAXIMIZEDWINDOWEDMODE) so games run in true exclusive fullscreen instead of the optimized flip model."@,
            category: TweakCategory::Gaming,
            risk: Risk::Medium,
            requires_admin: true,
            restart_required: false,
            effect: "Sets __COMPAT_LAYER to ~ DISABLEDXMAXIMIZEDWINDOWEDMODE under the Session Manager Environment."@,
            quick_optimize: false,
            applies_to: AppliesTo::Always,
            target_is_values: true,
            edits: seq![EditView { hive: Hive::LocalMachine, path: "SYSTEM\\CurrentControlSet\\Control\\Session Manager\\Environment"@, name: "__COMPAT_LAYER"@, kind: EditKindView::Sz("~ DISABLEDXMAXIMIZEDWINDOWEDMODE"@) }],
            apply: None::<HookView>,
            verify: None::<HookView>,
            restore: None::<HookView>,
        },
        TweakRow {
            id: "game.disable-vrr"@,
            name: "Disable Variable Refresh Rate"@,
            description: "Turns off Windows' Variable Refresh Rate optimization (VRROptimizeEnable=0) in the DirectX user GPU preferences."@,
            category: TweakCategory::Gaming,
            risk: Risk::Low,
            requires_admin: false,
            restart_required: false,
            effect: "Sets DirectXUserGlobalSettings to VRROptimizeEnable=0."@,
            quick_optimize: false,
            applies_to: AppliesTo::Always,
            target_is_values: true,
            edits: seq![EditView { hive: Hive::CurrentUser, path: "SOFTWARE\\Microsoft\\DirectX\\UserGpuPreferences"@, name: "DirectXUserGlobalSettings"@, kind: EditKindView::Sz("VRROptimizeEnable=0;"@) }],
            apply: None::<HookView>,
            verify: None::<HookView>,
            restore: None::<HookView>,
        },
        TweakRow {
            id: "game.mouse-accurate"@,
            name: "Disable mouse acceleration"@,
            description: "Sets mouse speed to the 1:1 default (10 sensitivity, no enhanced pointer precision thresholds) for consistent aim."@,
            category: TweakCategory::Gaming,
            risk: Risk::Low,
            requires_admin: false,
            restart_required: false,
            effect: "Sets MouseSpeed=0 and both thresholds to 0 under Control Panel\\Mouse."@,
            quick_optimize: true,
            applies_to: AppliesTo::Always,
            target_is_values: true,
            edits: seq![EditView { hive: Hive::CurrentUser, path: "Control Panel\\Mouse"@, name: "MouseSpeed"@, kind: EditKindView::Sz("0"@) }, EditView { hive: Hive::CurrentUser, path: "Control Panel\\Mouse"@, name: "MouseThreshold1"@, kind: EditKindView::Sz("0"@) }, EditView { hive: Hive::CurrentUser, path: "Control Panel\\Mouse"@, name: "MouseThreshold2"@, kind: EditKindView::Sz("0"@) }],
            apply: None::<HookView>,
            verify: None::<HookView>,
            restore: None::<HookView>,
        },
        TweakRow {
            id: "game.mouse-hover-fast"@,
            name: "Fast mouse hover time"@,
            description: "Reduces the hover time before tooltips appear (MouseHoverTime to 10ms)."@,
            category: TweakCategory::Gaming,
            risk: Risk::Low,
            requires_admin: false,
            restart_required: false,
            effect: "Sets MouseHoverTime to 10."@,
            quick_optimize: false,
            applies_to: AppliesTo::Always,
            target_is_values: true,
            edits: seq![EditView { hive: Hive::CurrentUser, path: "Control Panel\\Mouse"@, name: "MouseHoverTime"@, kind: EditKindView::Sz("10"@) }],
            apply: None::<HookView>,
            verify: None::<HookView>,
            restore: None::<HookView>,
        },
        TweakRow {
            id: "game.keyboard-delay"@,
            name: "Keyboard repeat delay 0"@,
            description: "Sets the keyboard repeat delay to the shortest setting (KeyboardDelay=0)."@,
            category: TweakCategory::Gaming,
            risk: Risk::Low,
            requires_admin: false,
            restart_required: false,
            effect: "Sets KeyboardDelay to 0 under Control Panel\\Keyboard."@,
            quick_optimize: true,
            applies_to: AppliesTo::Always,
            target_is_values: true,
            edits: seq![EditView { hive: Hive::CurrentUser, path: "Control Panel\\Keyboard"@, name: "KeyboardDelay"@, kind: EditKindView::Sz("0"@) }],
            apply: None::<HookView>,
            verify: None::<HookView>,
            restore: None::<HookView>,
        },
        TweakRow {
            id: "game.disable-accessibility-keys"@,
            name: "Disable accessibility key shortcuts"@,
            description: "Turns off StickyKeys, ToggleKeys, Keyboard Response (FilterKeys) and MouseKeys shortcut popups."@,
            category: TweakCategory::Gaming,
            risk: Risk::Low,
            requires_admin: false,
            restart_required: false,
            effect: "Sets the accessibility Flags values to 0."@,
            quick_optimize: false,
            applies_to: AppliesTo::Always,
            target_is_values: true,
            edits: seq![EditView { hive: Hive::CurrentUser, path: "Control Panel\\Accessibility\\StickyKeys"@, name: "Flags"@, kind: EditKindView::Sz("0"@) }, EditView { hive: Hive::CurrentUser, path: "Control Panel\\Accessibility\\ToggleKeys"@, name: "Flags"@, kind: EditKindView::Sz("0"@) }, EditView { hive: Hive::CurrentUser, path: "Control Panel\\Accessibility\\Keyboard Response"@, name: "Flags"@, kind: EditKindView::Sz("0"@) }, EditView { hive: Hive::CurrentUser, path: "Control Panel\\Accessibility\\MouseKeys"@, name: "Flags"@, kind: EditKindView::Sz("0"@) }],
            apply: None::<HookView>,
            verify: None::<HookView>,
            restore: None::<HookView>,
        },
        TweakRow {
            id: "game.kbd-mouse-queue"@,
            name: "Keyboard/mouse driver queue sizes"@,
            description: "Sets the keyboard and mouse class driver data queue sizes (14/16) and thread priority 31 as in the script's input tweaks."@,
            category: TweakCategory::Gaming,
            risk: Risk::Medium,
            requires_admin: true,
            restart_required: true,
            effect: "Sets kbdclass/mouclass KeyboardDataQueueSize, MouseDataQueueSize and ThreadPriority."@,
            quick_optimize: false,
            applies_to: AppliesTo::Always,
            target_is_values: true,
            edits: seq![EditView { hive: Hive::LocalMachine, path: "SYSTEM\\CurrentControlSet\\Services\\kbdclass\\Parameters"@, name: "KeyboardDataQueueSize"@, kind: EditKindView::Dword(14) }, EditView { hive: Hive::LocalMachine, path: "SYSTEM\\CurrentControlSet\\Services\\kbdclass\\Parameters"@, name: "ThreadPriority"@, kind: EditKindView::Dword(31) }, EditView { hive: Hive::LocalMachine, path: "SYSTEM\\CurrentControlSet\\Services\\mouclass\\Parameters"@, name: "MouseDataQueueSize"@, kind: EditKindView::Dword(16) }, EditView { hive: Hive::LocalMachine, path: "SYSTEM\\CurrentControlSet\\Services\\mouclass\\Parameters"@, name: "ThreadPriority"@, kind: EditKindView::Dword(31) }],
            apply: None::<HookView>,
            verify: None::<HookView>,
            restore: None::<HookView>,
        },
        TweakRow {
            id: "game.discord-large-pages"@,
            name: "Discord large pages"@,
            description: "Sets UseLargePages for Discord.exe's image file execution options, as in the script."@,
            category: TweakCategory::Gaming,
            risk: Risk::Medium,
            requires_admin: true,
            restart_required: false,
            effect: "Sets UseLargePages=1 for Discord.exe under Image File Execution Options."@,
            quick_optimize: false,
            applies_to: AppliesTo::Always,
            target_is_values: true,
            edits: seq![EditView { hive: Hive::LocalMachine, path: "SOFTWARE\\Microsoft\\Windows NT\\CurrentVersion\\Image File Execution Options\\Discord.exe"@, name: "UseLargePages"@, kind: EditKindView::Dword(1) }],
            apply: None::<HookView>,
            verify: None::<HookView>,
            restore: None::<HookView>,
        },
        TweakRow {
            id: "game.csrss-priority"@,
            name: "CSRSS priority boost"@,
            description: "Raises the Client/Server Runtime Subsystem (csrss.exe) CPU and I/O priority via PerfOptions."@,
            category: TweakCategory::Gaming,
            risk: Risk::High,
            requires_admin: true,
            restart_required: true,
            effect: "Sets CpuPriorityClass=4 and IoPriority=3 for csrss.exe."@,
            quick_optimize: false,
            applies_to: AppliesTo::Always,
            target_is_values: true,
            edits: seq![EditView { hive: Hive::LocalMachine, path: "SOFTWARE\\Microsoft\\Windows NT\\CurrentVersion\\Image File Execution Options\\csrss.exe\\PerfOptions"@, name: "CpuPriorityClass"@, kind: EditKindView::Dword(4) }, EditView { hive: Hive::LocalMachine, path: "SOFTWARE\\Microsoft\\Windows NT\\CurrentVersion\\Image File Execution Options\\csrss.exe\\PerfOptions"@, name: "IoPriority"@, kind: EditKindView::Dword(3) }],
            apply: None::<HookView>,
            verify: None::<HookView>,
            restore: None::<HookView>,
        },
        TweakRow {
            id: "game.fortnite-priority"@,
            name: "Fortnite process priority (High risk)"@,
            description: "Sets high CPU/IO priority for FortniteClient-Win64-Shipping.exe via PerfOptions (core-count aware, as in the script)."@,
            category: TweakCategory::Gaming,
            risk: Risk::High,
            requires_admin: true,
            restart_required: false,
            effect: "Writes CpuPriorityClass and IoPriority for the Fortnite client executable."@,
            quick_optimize: false,
            applies_to: AppliesTo::Always,
            target_is_values: true,
            edits: seq![EditView { hive: Hive::LocalMachine, path: "SOFTWARE\\Microsoft\\Windows NT\\CurrentVersion\\Image File Execution Options\\FortniteClient-Win64-Shipping.exe\\PerfOptions"@, name: "CpuPriorityClass"@, kind: EditKindView::Dword(4) }, EditView { hive: Hive::LocalMachine, path: "SOFTWARE\\Microsoft\\Windows NT\\CurrentVersion\\Image File Execution Options\\FortniteClient-Win64-Shipping.exe\\PerfOptions"@, name: "IoPriority"@, kind: EditKindView::Dword(3) }],
            apply: None::<HookView>,
            verify: None::<HookView>,
            restore: None::<HookView>,
        },
        TweakRow {
            id: "game.valorant-priority"@,
            name: "VALORANT process priority (High risk)"@,
            description: "Sets high CPU/IO priority for VALORANT-Win64-Shipping.exe via PerfOptions."@,
            category: TweakCategory::Gaming,
            risk: Risk::High,
            requires_admin: true,
            restart_required: false,
            effect: "Writes CpuPriorityClass and IoPriority for the VALORANT executable."@,
            quick_optimize: false,
            applies_to: AppliesTo::Always,
            target_is_values: true,
            edits: seq![EditView { hive: Hive::LocalMachine, path: "SOFTWARE\\Microsoft\\Windows NT\\CurrentVersion\\Image File Execution Options\\VALORANT-Win64-Shipping.exe\\PerfOptions"@, name: "CpuPriorityClass"@, kind: EditKindView::Dword(4) }, EditView { hive: Hive::LocalMachine, path: "SOFTWARE\\Microsoft\\Windows NT\\CurrentVersion\\Image File Execution Options\\VALORANT-Win64-Shipping.exe\\PerfOptions"@, name: "IoPriority"@, kind: EditKindView::Dword(3) }],
            apply: None::<HookView>,
            verify: None::<HookView>,
            restore: None::<HookView>,
        },
    ]
}

/// Gaming tweaks (Game Mode, capture, input, per-game priorities).
fn gaming() -> (v: Vec<Tweak>)
    ensures
        rows_of(v@) == gaming_rows(),
        tweak_ids(v@) == gaming_ids(),
        forall|i: int| 0 <= i < v@.len() ==> section_row(#[trigger] v@[i], TweakCategory::Gaming),
{
    let mut v: Vec<Tweak> = Vec::new();
    let x0 = t(
            "game.game-mode-on",
            "Enable Game Mode",
            "Enables Windows Game Mode, which prioritizes the foreground game for CPU and GPU resources when a game is detected.",
            TweakCategory::Gaming,
            Risk::Low,
            false,
            false,
            "Sets GameBar AllowAutoGameMode and AutoGameModeEnabled to 1.",
            true,
            vec![
                dwcu("SOFTWARE\\Microsoft\\GameBar", "AllowAutoGameMode", 1),
                dwcu("SOFTWARE\\Microsoft\\GameBar", "AutoGameModeEnabled", 1),
            ],
        );
    assert(row_of(x0) =~~= gaming_rows()[0]);
    v.push(x0);

    let x1 = t(
            "game.disable-game-bar",
            "Disable Xbox Game Bar",
            "Disables the Xbox Game Bar overlay and its background recording hooks.",
            TweakCategory::Gaming,
            Risk::Low,
            false,
            false,
            "Sets GameBar UseNexusForGameBarEnabled to 0 and the XboxGameBar enabled flag to 0.",
            true,
            vec![
                dwcu("SOFTWARE\\Microsoft\\GameBar", "UseNexusForGameBarEnabled", 0),
                dwcu("System\\GameConfigStore", "GameDVR_Enabled", 0),
            ],
        );
    assert(row_of(x1) =~~= gaming_rows()[1]);
    v.push(x1);

    let x2 = t(
            "game.disable-game-dvr",
            "Disable Game DVR captures",
            "Turns off background/continuous game clip recording (AppCaptureEnabled, HistoricalCaptureEnabled, audio capture) and the AppBroadcast capture defaults.",
            TweakCategory::Gaming,
            Risk::Low,
            false,
            false,
            "Disables GameDVR capture values under CurrentVersion\\GameDVR and AppBroadcast.",
            true,
            vec![
                dwcu("SOFTWARE\\Microsoft\\Windows\\CurrentVersion\\GameDVR", "AppCaptureEnabled", 0),
                dwcu("SOFTWARE\\Microsoft\\Windows\\CurrentVersion\\GameDVR", "HistoricalCaptureEnabled", 0),
                dwcu("SOFTWARE\\Microsoft\\Windows\\CurrentVersion\\GameDVR", "AudioCaptureEnabled", 0),
                dwcu("SOFTWARE\\Microsoft\\Windows\\CurrentVersion\\GameDVR", "CursorCaptureEnabled", 0),
                dwcu("SOFTWARE\\Microsoft\\Windows\\CurrentVersion\\AppBroadcast\\GlobalSettings", "AudioCaptureEnabled", 0),
                dwcu("SOFTWARE\\Microsoft\\Windows\\CurrentVersion\\AppBroadcast\\GlobalSettings", "MicrophoneCaptureEnabledByDefault", 0),
                dwcu("SOFTWARE\\Microsoft\\Windows\\CurrentVersion\\AppBroadcast\\GlobalSettings", "CameraCaptureEnabledByDefault", 0),
            ],
        );
    assert(row_of(x2) =~~= gaming_rows()[2]);
    v.push(x2);

    let x3 = t(
            "game.disable-bcastdvr",
            "Disable BcastDVRUserService",
            "Sets the GameDVR user service (BcastDVRUserService) start type to Disabled.",
            TweakCategory::Gaming,
            Risk::Medium,
            true,
            false,
            "Sets the BcastDVRUserService service start type to Disabled.",
            false,
            vec![
                dw("SYSTEM\\CurrentControlSet\\Services\\BcastDVRUserService", "Start", 4),
            ],
        );
    assert(row_of(x3) =~~= gaming_rows()[3]);
    v.push(x3);

    let x4 = t(
            "game.fullscreen-optimizations-off",
            "Disable fullscreen optimizations",
            "Sets a global compatibility flag (DISABLEDXMAXIMIZEDWINDOWEDMODE) so games run in true exclusive fullscreen instead of the optimized flip model.",
            TweakCategory::Gaming,
            Risk::Medium,
            true,
            false,
            "Sets __COMPAT_LAYER to ~ DISABLEDXMAXIMIZEDWINDOWEDMODE under the Session Manager Environment.",
            false,
            vec![
                sz(Hive::LocalMachine, "SYSTEM\\CurrentControlSet\\Control\\Session Manager\\Environment", "__COMPAT_LAYER", "~ DISABLEDXMAXIMIZEDWINDOWEDMODE"),
            ],
        );
    assert(row_of(x4) =~~= gaming_rows()[4]);
    v.push(x4);

    let x5 = t(
            "game.disable-vrr",
            "Disable Variable Refresh Rate",
            "Turns off Windows' Variable Refresh Rate optimization (VRROptimizeEnable=0) in the DirectX user GPU preferences.",
            TweakCategory::Gaming,
            Risk::Low,
            false,
            false,
            "Sets DirectXUserGlobalSettings to VRROptimizeEnable=0.",
            false,
            vec![
                sz(Hive::CurrentUser, "SOFTWARE\\Microsoft\\DirectX\\UserGpuPreferences", "DirectXUserGlobalSettings", "VRROptimizeEnable=0;"),
            ],
        );
    assert(row_of(x5) =~~= gaming_rows()[5]);
    v.push(x5);

    let x6 = t(
            "game.mouse-accurate",
            "Disable mouse acceleration",
            "Sets mouse speed to the 1:1 default (10 sensitivity, no enhanced pointer precision thresholds) for consistent aim.",
            TweakCategory::Gaming,
            Risk::Low,
            false,
            false,
            "Sets MouseSpeed=0 and both thresholds to 0 under Control Panel\\Mouse.",
            true,
            vec![
                sz(Hive::CurrentUser, "Control Panel\\Mouse", "MouseSpeed", "0"),
                sz(Hive::CurrentUser, "Control Panel\\Mouse", "MouseThreshold1", "0"),
                sz(Hive::CurrentUser, "Control Panel\\Mouse", "MouseThreshold2", "0"),
            ],
        );
    assert(row_of(x6) =~~= gaming_rows()[6]);
    v.push(x6);

    let x7 = t(
            "game.mouse-hover-fast",
            "Fast mouse hover time",
            "Reduces the hover time before tooltips appear (MouseHoverTime to 10ms).",
            TweakCategory::Gaming,
            Risk::Low,
            false,
            false,
            "Sets MouseHoverTime to 10.",
            false,
            vec![
                sz(Hive::CurrentUser, "Control Panel\\Mouse", "MouseHoverTime", "10"),
            ],
        );
    assert(row_of(x7) =~~= gaming_rows()[7]);
    v.push(x7);

    let x8 = t(
            "game.keyboard-delay",
            "Keyboard repeat delay 0",
            "Sets the keyboard repeat delay to the shortest setting (KeyboardDelay=0).",
            TweakCategory::Gaming,
            Risk::Low,
            false,
            false,
            "Sets KeyboardDelay to 0 under Control Panel\\Keyboard.",
            true,
            vec![
                sz(Hive::CurrentUser, "Control Panel\\Keyboard", "KeyboardDelay", "0"),
            ],
        );
    assert(row_of(x8) =~~= gaming_rows()[8]);
    v.push(x8);

    let x9 = t(
            "game.disable-accessibility-keys",
            "Disable accessibility key shortcuts",
            "Turns off StickyKeys, ToggleKeys, Keyboard Response (FilterKeys) and MouseKeys shortcut popups.",
            TweakCategory::Gaming,
            Risk::Low,
            false,
            false,
            "Sets the accessibility Flags values to 0.",
            false,
            vec![
                sz(Hive::CurrentUser, "Control Panel\\Accessibility\\StickyKeys", "Flags", "0"),
                sz(Hive::CurrentUser, "Control Panel\\Accessibility\\ToggleKeys", "Flags", "0"),
                sz(Hive::CurrentUser, "Control Panel\\Accessibility\\Keyboard Response", "Flags", "0"),
                sz(Hive::CurrentUser, "Control Panel\\Accessibility\\MouseKeys", "Flags", "0"),
            ],
        );
    assert(row_of(x9) =~~= gaming_rows()[9]);
    v.push(x9);

    let x10 = t(
            "game.kbd-mouse-queue",
            "Keyboard/mouse driver queue sizes",
            "Sets the keyboard and mouse class driver data queue sizes (14/16) and thread priority 31 as in the script's input tweaks.",
            TweakCategory::Gaming,
            Risk::Medium,
            true,
            true,
            "Sets kbdclass/mouclass KeyboardDataQueueSize, MouseDataQueueSize and ThreadPriority.",
            false,
            vec![
                dw("SYSTEM\\CurrentControlSet\\Services\\kbdclass\\Parameters", "KeyboardDataQueueSize", 14),
                dw("SYSTEM\\CurrentControlSet\\Services\\kbdclass\\Parameters", "ThreadPriority", 31),
                dw("SYSTEM\\CurrentControlSet\\Services\\mouclass\\Parameters", "MouseDataQueueSize", 16),
                dw("SYSTEM\\CurrentControlSet\\Services\\mouclass\\Parameters", "ThreadPriority", 31),
            ],
        );
    assert(row_of(x10) =~~= gaming_rows()[10]);
    v.push(x10);

    let x11 = t(
            "game.discord-large-pages",
            "Discord large pages",
            "Sets UseLargePages for Discord.exe's image file execution options, as in the script.",
            TweakCategory::Gaming,
            Risk::Medium,
            true,
            false,
            "Sets UseLargePages=1 for Discord.exe under Image File Execution Options.",
            false,
            vec![
                dw("SOFTWARE\\Microsoft\\Windows NT\\CurrentVersion\\Image File Execution Options\\Discord.exe", "UseLargePages", 1),
            ],
        );
    assert(row_of(x11) =~~= gaming_rows()[11]);
    v.push(x11);

    let x12 = t(
            "game.csrss-priority",
            "CSRSS priority boost",
            "Raises the Client/Server Runtime Subsystem (csrss.exe) CPU and I/O priority via PerfOptions.",
            TweakCategory::Gaming,
            Risk::High,
            true,
            true,
            "Sets CpuPriorityClass=4 and IoPriority=3 for csrss.exe.",
            false,
            vec![
                dw("SOFTWARE\\Microsoft\\Windows NT\\CurrentVersion\\Image File Execution Options\\csrss.exe\\PerfOptions", "CpuPriorityClass", 4),
                dw("SOFTWARE\\Microsoft\\Windows NT\\CurrentVersion\\Image File Execution Options\\csrss.exe\\PerfOptions", "IoPriority", 3),
            ],
        );
    assert(row_of(x12) =~~= gaming_rows()[12]);
    v.push(x12);

    let x13 = t(
            "game.fortnite-priority",
            "Fortnite process priority (High risk)",
            "Sets high CPU/IO priority for FortniteClient-Win64-Shipping.exe via PerfOptions (core-count aware, as in the script).",
            TweakCategory::Gaming,
            Risk::High,
            true,
            false,
            "Writes CpuPriorityClass and IoPriority for the Fortnite client executable.",
            false,
            vec![
                dw("SOFTWARE\\Microsoft\\Windows NT\\CurrentVersion\\Image File Execution Options\\FortniteClient-Win64-Shipping.exe\\PerfOptions", "CpuPriorityClass", 4),
                dw("SOFTWARE\\Microsoft\\Windows NT\\CurrentVersion\\Image File Execution Options\\FortniteClient-Win64-Shipping.exe\\PerfOptions", "IoPriority", 3),
            ],
        );
    assert(row_of(x13) =~~= gaming_rows()[13]);
    v.push(x13);

    let x14 = t(
            "game.valorant-priority",
            "VALORANT process priority (High risk)",
            "Sets high CPU/IO priority for VALORANT-Win64-Shipping.exe via PerfOptions.",
            TweakCategory::Gaming,
            Risk::High,
            true,
            false,
            "Writes CpuPriorityClass and IoPriority for the VALORANT executable.",
            false,
            vec![
                dw("SOFTWARE\\Microsoft\\Windows NT\\CurrentVersion\\Image File Execution Options\\VALORANT-Win64-Shipping.exe\\PerfOptions", "CpuPriorityClass", 4),
                dw("SOFTWARE\\Microsoft\\Windows NT\\CurrentVersion\\Image File Execution Options\\VALORANT-Win64-Shipping.exe\\PerfOptions", "IoPriority", 3),
            ],
        );
    assert(row_of(x14) =~~= gaming_rows()[14]);
    v.push(x14);

    assert(tweak_ids(v@) =~= gaming_ids());
    assert(rows_of(v@) =~= gaming_rows());
    v
}

/// The gpu section, row by row.
pub open spec fn gpu_rows(keys: Seq<Seq<char>>) -> Seq<TweakRow> {
    seq![
        TweakRow {
            id: "gpu.hags-on"@,
            name: "Hardware-accelerated GPU scheduling"@,
            description: "Enables HAGS (HwSchMode=2), letting the GPU manage its own video memory scheduling."@,
            category: TweakCategory::Gpu,
            risk: Risk::Low,
            requires_admin: true,
            restart_required: true,
            effect: "Sets GraphicsDrivers HwSchMode to 2."@,
            quick_optimize: false,
            applies_to: AppliesTo::Always,
            target_is_values: true,
            edits: seq![EditView { hive: Hive::LocalMachine, path: "SYSTEM\\CurrentControlSet\\Control\\GraphicsDrivers"@, name: "HwSchMode"@, kind: EditKindView::Dword(2) }],
            apply: None::<HookView>,
            verify: None::<HookView>,
            restore: None::<HookView>,
        },
        TweakRow {
            id: "gpu.disable-gpu-energy"@,
            name: "Disable GPU energy driver"@,
            description: "Sets the GpuEnergyDrv service start type to Disabled, stopping GPU energy/duration tracking."@,
            category: TweakCategory::Gpu,
            risk: Risk::Medium,
            requires_admin: true,
            restart_required: false,
            effect: "Sets the GpuEnergyDrv service start type to Disabled."@,
            quick_optimize: false,
            applies_to: AppliesTo::Always,
            target_is_values: true,
            edits: seq![EditView { hive: Hive::LocalMachine, path: "SYSTEM\\CurrentControlSet\\Services\\GpuEnergyDrv"@, name: "Start"@, kind: EditKindView::Dword(4) }],
            apply: None::<HookView>,
            verify: None::<HookView>,
            restore: None::<HookView>,
        },
        TweakRow {
            id: "gpu.monitor-latency"@,
            name: "Monitor latency tolerance 0"@,
            description: "Sets DXGKrnl MonitorLatencyTolerance and MonitorRefreshLatencyTolerance to 0, per the script's monitor latency tweak."@,
            category: TweakCategory::Gpu,
            risk: Risk::Medium,
            requires_admin: true,
            restart_required: true,
            effect: "Sets DXGKrnl latency tolerance values to 0."@,
            quick_optimize: false,
            applies_to: AppliesTo::Always,
            target_is_values: true,
            edits: seq![EditView { hive: Hive::LocalMachine, path: "SYSTEM\\CurrentControlSet\\Services\\DXGKrnl"@, name: "MonitorLatencyTolerance"@, kind: EditKindView::Dword(0) }, EditView { hive: Hive::LocalMachine, path: "SYSTEM\\CurrentControlSet\\Services\\DXGKrnl"@, name: "MonitorRefreshLatencyTolerance"@, kind: EditKindView::Dword(0) }],
            apply: None::<HookView>,
            verify: None::<HookView>,
            restore: None::<HookView>,
        },
        TweakRow {
            id: "gpu.contiguous-memory"@,
            name: "Prefer contiguous GPU memory"@,
            description: "Sets PreferSystemMemoryContiguous=1 on the primary display adapter class key, as in the script."@,
            category: TweakCategory::Gpu,
            risk: Risk::Medium,
            requires_admin: true,
            restart_required: true,
            effect: "Sets PreferSystemMemoryContiguous under the display class key."@,
            quick_optimize: false,
            applies_to: AppliesTo::Always,
            target_is_values: true,
            edits: seq![EditView { hive: Hive::LocalMachine, path: "SYSTEM\\CurrentControlSet\\Control\\Class\\{4d36e968-e325-11ce-bfc1-08002be10318}\\0000"@, name: "PreferSystemMemoryContiguous"@, kind: EditKindView::Dword(1) }],
            apply: None::<HookView>,
            verify: None::<HookView>,
            restore: None::<HookView>,
        },
        TweakRow {
            id: "gpu.use-gpu-timer"@,
            name: "Use GPU timer"@,
            description: "Sets UseGpuTimer=1 and DisableWriteCombining=1 under GraphicsDrivers, as in the script's Runme section."@,
            category: TweakCategory::Gpu,
            risk: Risk::Medium,
            requires_admin: true,
            restart_required: true,
            effect: "Sets GraphicsDrivers UseGpuTimer and DisableWriteCombining."@,
            quick_optimize: false,
            applies_to: AppliesTo::Always,
            target_is_values: true,
            edits: seq![EditView { hive: Hive::LocalMachine, path: "SYSTEM\\CurrentControlSet\\Control\\GraphicsDrivers"@, name: "UseGpuTimer"@, kind: EditKindView::Dword(1) }, EditView { hive: Hive::LocalMachine, path: "SYSTEM\\CurrentControlSet\\Control\\GraphicsDrivers"@, name: "DisableWriteCombining"@, kind: EditKindView::Dword(1) }],
            apply: None::<HookView>,
            verify: None::<HookView>,
            restore: None::<HookView>,
        },
        TweakRow {
            id: "gpu.nvidia-preemption"@,
            name: "NVIDIA: disable preemption (NVIDIA only)"@,
            description: "Disables GPU preemption (DisablePreemption, DisableCudaContextPreemption, ComputePreemption=0) on NVIDIA drivers."@,
            category: TweakCategory::Gpu,
            risk: Risk::High,
            requires_admin: true,
            restart_required: true,
            effect: "Sets NVIDIA preemption disable values under Services\\nvlddmkm."@,
            quick_optimize: false,
            applies_to: AppliesTo::Nvidia,
            target_is_values: true,
            edits: seq![EditView { hive: Hive::LocalMachine, path: "SYSTEM\\CurrentControlSet\\Services\\nvlddmkm"@, name: "DisablePreemption"@, kind: EditKindView::Dword(1) }, EditView { hive: Hive::LocalMachine, path: "SYSTEM\\CurrentControlSet\\Services\\nvlddmkm"@, name: "DisableCudaContextPreemption"@, kind: EditKindView::Dword(1) }, EditView { hive: Hive::LocalMachine, path: "SYSTEM\\CurrentControlSet\\Services\\nvlddmkm"@, name: "EnableCEPreemption"@, kind: EditKindView::Dword(0) }, EditView { hive: Hive::LocalMachine, path: "SYSTEM\\CurrentControlSet\\Services\\nvlddmkm"@, name: "ComputePreemption"@, kind: EditKindView::Dword(0) }, EditView { hive: Hive::LocalMachine, path: "SYSTEM\\CurrentControlSet\\Services\\nvlddmkm"@, name: "DisablePreemptionOnS3S4"@, kind: EditKindView::Dword(1) }],
            apply: None::<HookView>,
            verify: None::<HookView>,
            restore: None::<HookView>,
        },
        TweakRow {
            id: "gpu.nvidia-kboost"@,
            name: "NVIDIA: KBoost (NVIDIA only)"@,
            description: "Sets PowerMizer performance level preferences (PowerMizerEnable=1, level 1, PerfLevelSrc=8738) on NVIDIA drivers."@,
            category: TweakCategory::Gpu,
            risk: Risk::Medium,
            requires_admin: true,
            restart_required: false,
            effect: "Sets PowerMizer values on NVIDIA adapter keys."@,
            quick_optimize: false,
            applies_to: AppliesTo::Nvidia,
            target_is_values: true,
            edits: kboost_edits(keys),
            apply: None::<HookView>,
            verify: None::<HookView>,
            restore: None::<HookView>,
        },
        TweakRow {
            id: "gpu.nvidia-telemetry"@,
            name: "NVIDIA: disable telemetry tasks (NVIDIA only)"@,
            description: "Disables NVIDIA telemetry scheduled tasks and removes the NvBackend autorun entry."@,
            category: TweakCategory::Gpu,
            risk: Risk::Low,
            requires_admin: true,
            restart_required: false,
            effect: "Disables NvTm* scheduled tasks and deletes the NvBackend Run value."@,
            quick_optimize: false,
            applies_to: AppliesTo::Nvidia,
            target_is_values: true,
            edits: seq![EditView { hive: Hive::LocalMachine, path: "SOFTWARE\\Microsoft\\Windows\\CurrentVersion\\Run"@, name: "NvBackend"@, kind: EditKindView::Delete }],
            apply: None::<HookView>,
            verify: None::<HookView>,
            restore: None::<HookView>,
        },
        TweakRow {
            id: "gpu.nvidia-pstates0"@,
            name: "NVIDIA: force P-state 0 (NVIDIA only, high risk)"@,
            description: "Sets DisableDynamicPstate=1 on NVIDIA adapter keys, forcing the GPU to keep its highest power state. Increases idle power draw significantly."@,
            category: TweakCategory::Gpu,
            risk: Risk::High,
            requires_admin: true,
            restart_required: true,
            effect: "Sets DisableDynamicPstate on NVIDIA adapter class keys."@,
            quick_optimize: false,
            applies_to: AppliesTo::Nvidia,
            target_is_values: true,
            edits: keys.map_values(|k: Seq<char>| pstate_edit(k)),
            apply: None::<HookView>,
            verify: None::<HookView>,
            restore: None::<HookView>,
        },
        TweakRow {
            id: "gpu.amd-ulps"@,
            name: "AMD: disable ULPS (AMD only)"@,
            description: "Disables Ultra Low Power State (EnableUlps=0) on AMD display adapters."@,
            category: TweakCategory::Gpu,
            risk: Risk::Medium,
            requires_admin: true,
            restart_required: true,
            effect: "Sets EnableUlps=0 under the display class key."@,
            quick_optimize: false,
            applies_to: AppliesTo::Amd,
            target_is_values: true,
            edits: seq![EditView { hive: Hive::LocalMachine, path: "SYSTEM\\CurrentControlSet\\Control\\Class\\{4d36e968-e325-11ce-bfc1-08002be10318}\\0000"@, name: "EnableUlps"@, kind: EditKindView::Dword(0) }],
            apply: None::<HookView>,
            verify: None::<HookView>,
            restore: None::<HookView>,
        },
        TweakRow {
            id: "gpu.amd-clock-gating"@,
            name: "AMD: disable clock/power gating (AMD only)"@,
            description: "Disables VCE/UVD/SAMU power gating and Sclk deep sleep on AMD GPUs, per the script's AMD section."@,
            category: TweakCategory::Gpu,
            risk: Risk::High,
            requires_admin: true,
            restart_required: true,
            effect: "Sets AMD clock gating disable values under the display class key."@,
            quick_optimize: false,
            applies_to: AppliesTo::Amd,
            target_is_values: true,
            edits: seq![EditView { hive: Hive::LocalMachine, path: "SYSTEM\\CurrentControlSet\\Control\\Class\\{4d36e968-e325-11ce-bfc1-08002be10318}\\0000"@, name: "DisableVCEPowerGating"@, kind: EditKindView::Dword(0) }, EditView { hive: Hive::LocalMachine, path: "SYSTEM\\CurrentControlSet\\Control\\Class\\{4d36e968-e325-11ce-bfc1-08002be10318}\\0000"@, name: "DisableUVDPowerGatingDynamic"@, kind: EditKindView::Dword(0) }, EditView { hive: Hive::LocalMachine, path: "SYSTEM\\CurrentControlSet\\Control\\Class\\{4d36e968-e325-11ce-bfc1-08002be10318}\\0000"@, name: "DisablePowerGating"@, kind: EditKindView::Dword(1) }, EditView { hive: Hive::LocalMachine, path: "SYSTEM\\CurrentControlSet\\Control\\Class\\{4d36e968-e325-11ce-bfc1-08002be10318}\\0000"@, name: "DisableSAMUPowerGating"@, kind: EditKindView::Dword(1) }, EditView { hive: Hive::LocalMachine, path: "SYSTEM\\CurrentControlSet\\Control\\Class\\{4d36e968-e325-11ce-bfc1-08002be10318}\\0000"@, name: "PP_SclkDeepSleepDisable"@, kind: EditKindView::Dword(1) }],
            apply: None::<HookView>,
            verify: None::<HookView>,
            restore: None::<HookView>,
        },
        TweakRow {
            id: "gpu.intel-dedicated-segment"@,
            name: "Intel: dedicated segment size (Intel only)"@,
            description: "Sets the Intel GMM dedicated segment size to 1298 MB for iGPU memory allocation, as in the script."@,
            category: TweakCategory::Gpu,
            risk: Risk::Low,
            requires_admin: true,
            restart_required: false,
            effect: "Sets Intel\\GMM DedicatedSegmentSize to 1298."@,
            quick_optimize: false,
            applies_to: AppliesTo::Intel,
            target_is_values: true,
            edits: seq![EditView { hive: Hive::LocalMachine, path: "SOFTWARE\\Intel\\GMM"@, name: "DedicatedSegmentSize"@, kind: EditKindView::Dword(1298) }],
            apply: None::<HookView>,
            verify: None::<HookView>,
            restore: None::<HookView>,
        },
    ]
}

/// GPU tweaks, including the vendor-specific ones.
fn gpu(env: &CatalogEnv) -> (v: Vec<Tweak>)
    ensures
        rows_of(v@) == gpu_rows(views(env.nvidia_keys@)),
        tweak_ids(v@) == gpu_ids(),
        edits_at(v@, 6) == kboost_edits(views(env.nvidia_keys@)),
        edits_at(v@, 8) == views(env.nvidia_keys@).map_values(|k: Seq<char>| pstate_edit(k)),
        forall|i: int| 0 <= i < v@.len() ==> section_row(#[trigger] v@[i], TweakCategory::Gpu),
{
    let mut v: Vec<Tweak> = Vec::new();
    let x0 = t(
            "gpu.hags-on",
            "Hardware-accelerated GPU scheduling",
            "Enables HAGS (HwSchMode=2), letting the GPU manage its own video memory scheduling.",
            TweakCategory::Gpu,
            Risk::Low,
            true,
            true,
            "Sets GraphicsDrivers HwSchMode to 2.",
            false,
            vec![
                dw("SYSTEM\\CurrentControlSet\\Control\\GraphicsDrivers", "HwSchMode", 2),
            ],
        );
    assert(row_of(x0) =~~= gpu_rows(views(env.nvidia_keys@))[0]);
    v.push(x0);

    let x1 = t(
            "gpu.disable-gpu-energy",
            "Disable GPU energy driver",
            "Sets the GpuEnergyDrv service start type to Disabled, stopping GPU energy/duration tracking.",
            TweakCategory::Gpu,
            Risk::Medium,
            true,
            false,
            "Sets the GpuEnergyDrv service start type to Disabled.",
            false,
            vec![
                dw("SYSTEM\\CurrentControlSet\\Services\\GpuEnergyDrv", "Start", 4),
            ],
        );
    assert(row_of(x1) =~~= gpu_rows(views(env.nvidia_keys@))[1]);
    v.push(x1);

    let x2 = t(
            "gpu.monitor-latency",
            "Monitor latency tolerance 0",
            "Sets DXGKrnl MonitorLatencyTolerance and MonitorRefreshLatencyTolerance to 0, per the script's monitor latency tweak.",
            TweakCategory::Gpu,
            Risk::Medium,
            true,
            true,
            "Sets DXGKrnl latency tolerance values to 0.",
            false,
            vec![
                dw("SYSTEM\\CurrentControlSet\\Services\\DXGKrnl", "MonitorLatencyTolerance", 0),
                dw("SYSTEM\\CurrentControlSet\\Services\\DXGKrnl", "MonitorRefreshLatencyTolerance", 0),
            ],
        );
    assert(row_of(x2) =~~= gpu_rows(views(env.nvidia_keys@))[2]);
    v.push(x2);

    let x3 = t(
            "gpu.contiguous-memory",
            "Prefer contiguous GPU memory",
            "Sets PreferSystemMemoryContiguous=1 on the primary display adapter class key, as in the script.",
            TweakCategory::Gpu,
            Risk::Medium,
            true,
            true,
            "Sets PreferSystemMemoryContiguous under the display class key.",
            false,
            vec![
                dw("SYSTEM\\CurrentControlSet\\Control\\Class\\{4d36e968-e325-11ce-bfc1-08002be10318}\\0000", "PreferSystemMemoryContiguous", 1),
            ],
        );
    assert(row_of(x3) =~~= gpu_rows(views(env.nvidia_keys@))[3]);
    v.push(x3);

    let x4 = t(
            "gpu.use-gpu-timer",
            "Use GPU timer",
            "Sets UseGpuTimer=1 and DisableWriteCombining=1 under GraphicsDrivers, as in the script's Runme section.",
            TweakCategory::Gpu,
            Risk::Medium,
            true,
            true,
            "Sets GraphicsDrivers UseGpuTimer and DisableWriteCombining.",
            false,
            vec![
                dw("SYSTEM\\CurrentControlSet\\Control\\GraphicsDrivers", "UseGpuTimer", 1),
                dw("SYSTEM\\CurrentControlSet\\Control\\GraphicsDrivers", "DisableWriteCombining", 1),
            ],
        );
    assert(row_of(x4) =~~= gpu_rows(views(env.nvidia_keys@))[4]);
    v.push(x4);

    let x5 = t(
            "gpu.nvidia-preemption",
            "NVIDIA: disable preemption (NVIDIA only)",
            "Disables GPU preemption (DisablePreemption, DisableCudaContextPreemption, ComputePreemption=0) on NVIDIA drivers.",
            TweakCategory::Gpu,
            Risk::High,
            true,
            true,
            "Sets NVIDIA preemption disable values under Services\\nvlddmkm.",
            false,
            vec![
                dw("SYSTEM\\CurrentControlSet\\Services\\nvlddmkm", "DisablePreemption", 1),
                dw("SYSTEM\\CurrentControlSet\\Services\\nvlddmkm", "DisableCudaContextPreemption", 1),
                dw("SYSTEM\\CurrentControlSet\\Services\\nvlddmkm", "EnableCEPreemption", 0),
                dw("SYSTEM\\CurrentControlSet\\Services\\nvlddmkm", "ComputePreemption", 0),
                dw("SYSTEM\\CurrentControlSet\\Services\\nvlddmkm", "DisablePreemptionOnS3S4", 1),
            ],
        ).requires_nvidia();
    assert(row_of(x5) =~~= gpu_rows(views(env.nvidia_keys@))[5]);
    v.push(x5);

    let x6 = t(
            "gpu.nvidia-kboost",
            "NVIDIA: KBoost (NVIDIA only)",
            "Sets PowerMizer performance level preferences (PowerMizerEnable=1, level 1, PerfLevelSrc=8738) on NVIDIA drivers.",
            TweakCategory::Gpu,
            Risk::Medium,
            true,
            false,
            "Sets PowerMizer values on NVIDIA adapter keys.",
            false,
            nvidia_kboost_edits(env.nvidia_keys.as_slice()),
        ).requires_nvidia();
    assert(row_of(x6) =~~= gpu_rows(views(env.nvidia_keys@))[6]);
    v.push(x6);

    let x7 = t(
            "gpu.nvidia-telemetry",
            "NVIDIA: disable telemetry tasks (NVIDIA only)",
            "Disables NVIDIA telemetry scheduled tasks and removes the NvBackend autorun entry.",
            TweakCategory::Gpu,
            Risk::Low,
            true,
            false,
            "Disables NvTm* scheduled tasks and deletes the NvBackend Run value.",
            false,
            vec![
                del(Hive::LocalMachine, "SOFTWARE\\Microsoft\\Windows\\CurrentVersion\\Run", "NvBackend"),
            ],
        ).requires_nvidia();
    assert(row_of(x7) =~~= gpu_rows(views(env.nvidia_keys@))[7]);
    v.push(x7);

    let x8 = t(
            "gpu.nvidia-pstates0",
            "NVIDIA: force P-state 0 (NVIDIA only, high risk)",
            "Sets DisableDynamicPstate=1 on NVIDIA adapter keys, forcing the GPU to keep its highest power state. Increases idle power draw significantly.",
            TweakCategory::Gpu,
            Risk::High,
            true,
            true,
            "Sets DisableDynamicPstate on NVIDIA adapter class keys.",
            false,
            nvidia_pstate_edits(env.nvidia_keys.as_slice()),
        ).requires_nvidia();
    assert(row_of(x8) =~~= gpu_rows(views(env.nvidia_keys@))[8]);
    v.push(x8);

    let x9 = t(
            "gpu.amd-ulps",
            "AMD: disable ULPS (AMD only)",
            "Disables Ultra Low Power State (EnableUlps=0) on AMD display adapters.",
            TweakCategory::Gpu,
            Risk::Medium,
            true,
            true,
            "Sets EnableUlps=0 under the display class key.",
            false,
            vec![
                dw("SYSTEM\\CurrentControlSet\\Control\\Class\\{4d36e968-e325-11ce-bfc1-08002be10318}\\0000", "EnableUlps", 0),
            ],
        ).requires_amd();
    assert(row_of(x9) =~~= gpu_rows(views(env.nvidia_keys@))[9]);
    v.push(x9);

    let x10 = t(
            "gpu.amd-clock-gating",
            "AMD: disable clock/power gating (AMD only)",
            "Disables VCE/UVD/SAMU power gating and Sclk deep sleep on AMD GPUs, per the script's AMD section.",
            TweakCategory::Gpu,
            Risk::High,
            true,
            true,
            "Sets AMD clock gating disable values under the display class key.",
            false,
            vec![
                dw("SYSTEM\\CurrentControlSet\\Control\\Class\\{4d36e968-e325-11ce-bfc1-08002be10318}\\0000", "DisableVCEPowerGating", 0),
                dw("SYSTEM\\CurrentControlSet\\Control\\Class\\{4d36e968-e325-11ce-bfc1-08002be10318}\\0000", "DisableUVDPowerGatingDynamic", 0),
                dw("SYSTEM\\CurrentControlSet\\Control\\Class\\{4d36e968-e325-11ce-bfc1-08002be10318}\\0000", "DisablePowerGating", 1),
                dw("SYSTEM\\CurrentControlSet\\Control\\Class\\{4d36e968-e325-11ce-bfc1-08002be10318}\\0000", "DisableSAMUPowerGating", 1),
                dw("SYSTEM\\CurrentControlSet\\Control\\Class\\{4d36e968-e325-11ce-bfc1-08002be10318}\\0000", "PP_SclkDeepSleepDisable", 1),
            ],
        ).requires_amd();
    assert(row_of(x10) =~~= gpu_rows(views(env.nvidia_keys@))[10]);
    v.push(x10);

    let x11 = t(
            "gpu.intel-dedicated-segment",
            "Intel: dedicated segment size (Intel only)",
            "Sets the Intel GMM dedicated segment size to 1298 MB for iGPU memory allocation, as in the script.",
            TweakCategory::Gpu,
            Risk::Low,
            true,
            false,
            "Sets Intel\\GMM DedicatedSegmentSize to 1298.",
            false,
            vec![
                dw("SOFTWARE\\Intel\\GMM", "DedicatedSegmentSize", 1298),
            ],
        ).requires_intel();
    assert(row_of(x11) =~~= gpu_rows(views(env.nvidia_keys@))[11]);
    v.push(x11);

    assert(tweak_ids(v@) =~= gpu_ids());
    assert(rows_of(v@) =~= gpu_rows(views(env.nvidia_keys@)));
    v
}

/// The network section, row by row.
pub open spec fn network_rows() -> Seq<TweakRow> {
    seq![
        TweakRow {
            id: "net.flush-dns"@,
            name: "Flush DNS cache"@,
            description: "Clears the Windows DNS resolver cache."@,
            category: TweakCategory::Network,
            risk: Risk::Low,
            requires_admin: false,
            restart_required: false,
            effect: "Runs ipconfig /flushdns."@,
            quick_optimize: true,
            applies_to: AppliesTo::Always,
            target_is_values: true,
            edits: Seq::<EditView>::empty(),
            apply: Some(HookView::FlushDns),
            verify: Some(HookView::AlwaysVerified),
            restore: None::<HookView>,
        },
        TweakRow {
            id: "net.dns-cache-timers"@,
            name: "DNS negative cache timers"@,
            description: "Sets NegativeCacheTime, NegativeSOACacheTime and NetFailureCacheTime to 0 so failed DNS lookups are not cached."@,
            category: TweakCategory::Network,
            risk: Risk::Low,
            requires_admin: true,
            restart_required: false,
            effect: "Sets Dnscache negative-cache timers to 0."@,
            quick_optimize: false,
            applies_to: AppliesTo::Always,
            target_is_values: true,
            edits: seq![EditView { hive: Hive::LocalMachine, path: "SYSTEM\\CurrentControlSet\\Services\\Dnscache\\Parameters"@, name: "NegativeCacheTime"@, kind: EditKindView::Dword(0) }, EditView { hive: Hive::LocalMachine, path: "SYSTEM\\CurrentControlSet\\Services\\Dnscache\\Parameters"@, name: "NegativeSOACacheTime"@, kind: EditKindView::Dword(0) }, EditView { hive: Hive::LocalMachine, path: "SYSTEM\\CurrentControlSet\\Services\\Dnscache\\Parameters"@, name: "NetFailureCacheTime"@, kind: EditKindView::Dword(0) }],
            apply: None::<HookView>,
            verify: None::<HookView>,
            restore: None::<HookView>,
        },
        TweakRow {
            id: "net.enable-autodoh"@,
            name: "Enable automatic DNS-over-HTTPS"@,
            description: "Sets EnableAutoDoh=2 so the Windows DNS client upgrades eligible resolvers to DoH automatically."@,
            category: TweakCategory::Network,
            risk: Risk::Low,
            requires_admin: true,
            restart_required: true,
            effect: "Sets Dnscache EnableAutoDoh to 2."@,
            quick_optimize: false,
            applies_to: AppliesTo::Always,
            target_is_values: true,
            edits: seq![EditView { hive: Hive::LocalMachine, path: "SYSTEM\\CurrentControlSet\\Services\\Dnscache\\Parameters"@, name: "EnableAutoDoh"@, kind: EditKindView::Dword(2) }],
            apply: None::<HookView>,
            verify: None::<HookView>,
            restore: None::<HookView>,
        },
        TweakRow {
            id: "net.tcp-globals"@,
            name: "TCP latency registry values"@,
            description: "Sets the script's TCP registry values: TcpTimedWaitDelay=32, TcpMaxConnectRetransmissions=1, TcpMaxDupAcks=2, SackOpts, DefaultTTL=64, Tcp1323Opts."@,
            category: TweakCategory::Network,
            risk: Risk::Medium,
            requires_admin: true,
            restart_required: true,
            effect: "Writes the script's Tcpip\\Parameters TCP values."@,
            quick_optimize: false,
            applies_to: AppliesTo::Always,
            target_is_values: true,
            edits: seq![EditView { hive: Hive::LocalMachine, path: "SYSTEM\\CurrentControlSet\\Services\\Tcpip\\Parameters"@, name: "TcpTimedWaitDelay"@, kind: EditKindView::Dword(32) }, EditView { hive: Hive::LocalMachine, path: "SYSTEM\\CurrentControlSet\\Services\\Tcpip\\Parameters"@, name: "TcpMaxConnectRetransmissions"@, kind: EditKindView::Dword(1) }, EditView { hive: Hive::LocalMachine, path: "SYSTEM\\CurrentControlSet\\Services\\Tcpip\\Parameters"@, name: "TcpMaxDupAcks"@, kind: EditKindView::Dword(2) }, EditView { hive: Hive::LocalMachine, path: "SYSTEM\\CurrentControlSet\\Services\\Tcpip\\Parameters"@, name: "DefaultTTL"@, kind: EditKindView::Dword(64) }, EditView { hive: Hive::LocalMachine, path: "SYSTEM\\CurrentControlSet\\Services\\Tcpip\\Parameters"@, name: "Tcp1323Opts"@, kind: EditKindView::Dword(1) }, EditView { hive: Hive::LocalMachine, path: "SYSTEM\\CurrentControlSet\\Services\\Tcpip\\Parameters"@, name: "DelayedAckFrequency"@, kind: EditKindView::Dword(1) }, EditView { hive: Hive::LocalMachine, path: "SYSTEM\\CurrentControlSet\\Services\\Tcpip\\Parameters"@, name: "DelayedAckTicks"@, kind: EditKindView::Dword(1) }],
            apply: None::<HookView>,
            verify: None::<HookView>,
            restore: None::<HookView>,
        },
        TweakRow {
            id: "net.afd-parameters"@,
            name: "AFD socket buffering"@,
            description: "Sets the AFD (Winsock kernel) buffer parameters from the script: dynamic backlog, DoNotHoldNicBuffers, IgnorePushBitOnReceives."@,
            category: TweakCategory::Network,
            risk: Risk::Medium,
            requires_admin: true,
            restart_required: true,
            effect: "Writes AFD\\Parameters socket values."@,
            quick_optimize: false,
            applies_to: AppliesTo::Always,
            target_is_values: true,
            edits: seq![EditView { hive: Hive::LocalMachine, path: "SYSTEM\\CurrentControlSet\\Services\\AFD\\Parameters"@, name: "DoNotHoldNicBuffers"@, kind: EditKindView::Dword(1) }, EditView { hive: Hive::LocalMachine, path: "SYSTEM\\CurrentControlSet\\Services\\AFD\\Parameters"@, name: "EnableDynamicBacklog"@, kind: EditKindView::Dword(1) }, EditView { hive: Hive::LocalMachine, path: "SYSTEM\\CurrentControlSet\\Services\\AFD\\Parameters"@, name: "MinimumDynamicBacklog"@, kind: EditKindView::Dword(32) }, EditView { hive: Hive::LocalMachine, path: "SYSTEM\\CurrentControlSet\\Services\\AFD\\Parameters"@, name: "MaximumDynamicBacklog"@, kind: EditKindView::Dword(4096) }, EditView { hive: Hive::LocalMachine, path: "SYSTEM\\CurrentControlSet\\Services\\AFD\\Parameters"@, name: "DynamicBacklogGrowthDelta"@, kind: EditKindView::Dword(32) }, EditView { hive: Hive::LocalMachine, path: "SYSTEM\\CurrentControlSet\\Services\\AFD\\Parameters"@, name: "IgnorePushBitOnReceives"@, kind: EditKindView::Dword(1) }],
            apply: None::<HookView>,
            verify: None::<HookView>,
            restore: None::<HookView>,
        },
        TweakRow {
            id: "net.lanman-tuning"@,
            name: "Server (LanmanServer) tuning"@,
            description: "Sets the script's LanmanServer values (SizReqBuf=17424, MaxWorkItems, MaxMpxCt, MaxCmds) for file sharing responsiveness."@,
            category: TweakCategory::Network,
            risk: Risk::Medium,
            requires_admin: true,
            restart_required: true,
            effect: "Writes LanmanServer\\Parameters values."@,
            quick_optimize: false,
            applies_to: AppliesTo::Always,
            target_is_values: true,
            edits: seq![EditView { hive: Hive::LocalMachine, path: "SYSTEM\\CurrentControlSet\\Services\\LanmanServer\\Parameters"@, name: "SizReqBuf"@, kind: EditKindView::Dword(17424) }, EditView { hive: Hive::LocalMachine, path: "SYSTEM\\CurrentControlSet\\Services\\LanmanServer\\Parameters"@, name: "MaxWorkItems"@, kind: EditKindView::Dword(8192) }, EditView { hive: Hive::LocalMachine, path: "SYSTEM\\CurrentControlSet\\Services\\LanmanServer\\Parameters"@, name: "MaxMpxCt"@, kind: EditKindView::Dword(2048) }, EditView { hive: Hive::LocalMachine, path: "SYSTEM\\CurrentControlSet\\Services\\LanmanServer\\Parameters"@, name: "MaxCmds"@, kind: EditKindView::Dword(2048) }],
            apply: None::<HookView>,
            verify: None::<HookView>,
            restore: None::<HookView>,
        },
    ]
}

/// Network tweaks (DNS, TCP, AFD, file sharing).
fn network() -> (v: Vec<Tweak>)
    ensures
        rows_of(v@) == network_rows(),
        tweak_ids(v@) == network_ids(),
        forall|i: int| 0 <= i < v@.len() ==> section_row(#[trigger] v@[i], TweakCategory::Network),
{
    let mut v: Vec<Tweak> = Vec::new();
    let x0 = t(
            "net.flush-dns",
            "Flush DNS cache",
            "Clears the Windows DNS resolver cache.",
            TweakCategory::Network,
            Risk::Low,
            false,
            false,
            "Runs ipconfig /flushdns.",
            true,
            Vec::new(),
        ).with_hooks(
            Some(CommandHook::FlushDns),
            Some(CommandHook::AlwaysVerified),
            None,
        );
    assert(row_of(x0) =~~= network_rows()[0]);
    v.push(x0);

    let x1 = t(
            "net.dns-cache-timers",
            "DNS negative cache timers",
            "Sets NegativeCacheTime, NegativeSOACacheTime and NetFailureCacheTime to 0 so failed DNS lookups are not cached.",
            TweakCategory::Network,
            Risk::Low,
            true,
            false,
            "Sets Dnscache negative-cache timers to 0.",
            false,
            vec![
                dw("SYSTEM\\CurrentControlSet\\Services\\Dnscache\\Parameters", "NegativeCacheTime", 0),
                dw("SYSTEM\\CurrentControlSet\\Services\\Dnscache\\Parameters", "NegativeSOACacheTime", 0),
                dw("SYSTEM\\CurrentControlSet\\Services\\Dnscache\\Parameters", "NetFailureCacheTime", 0),
            ],
        );
    assert(row_of(x1) =~~= network_rows()[1]);
    v.push(x1);

    let x2 = t(
            "net.enable-autodoh",
            "Enable automatic DNS-over-HTTPS",
            "Sets EnableAutoDoh=2 so the Windows DNS client upgrades eligible resolvers to DoH automatically.",
            TweakCategory::Network,
            Risk::Low,
            true,
            true,
            "Sets Dnscache EnableAutoDoh to 2.",
            false,
            vec![
                dw("SYSTEM\\CurrentControlSet\\Services\\Dnscache\\Parameters", "EnableAutoDoh", 2),
            ],
        );
    assert(row_of(x2) =~~= network_rows()[2]);
    v.push(x2);

    let x3 = t(
            "net.tcp-globals",
            "TCP latency registry values",
            "Sets the script's TCP registry values: TcpTimedWaitDelay=32, TcpMaxConnectRetransmissions=1, TcpMaxDupAcks=2, SackOpts, DefaultTTL=64, Tcp1323Opts.",
            TweakCategory::Network,
            Risk::Medium,
            true,
            true,
            "Writes the script's Tcpip\\Parameters TCP values.",
            false,
            vec![
                dw("SYSTEM\\CurrentControlSet\\Services\\Tcpip\\Parameters", "TcpTimedWaitDelay", 32),
                dw("SYSTEM\\CurrentControlSet\\Services\\Tcpip\\Parameters", "TcpMaxConnectRetransmissions", 1),
                dw("SYSTEM\\CurrentControlSet\\Services\\Tcpip\\Parameters", "TcpMaxDupAcks", 2),
                dw("SYSTEM\\CurrentControlSet\\Services\\Tcpip\\Parameters", "DefaultTTL", 64),
                dw("SYSTEM\\CurrentControlSet\\Services\\Tcpip\\Parameters", "Tcp1323Opts", 1),
                dw("SYSTEM\\CurrentControlSet\\Services\\Tcpip\\Parameters", "DelayedAckFrequency", 1),
                dw("SYSTEM\\CurrentControlSet\\Services\\Tcpip\\Parameters", "DelayedAckTicks", 1),
            ],
        );
    assert(row_of(x3) =~~= network_rows()[3]);
    v.push(x3);

    let x4 = t(
            "net.afd-parameters",
            "AFD socket buffering",
            "Sets the AFD (Winsock kernel) buffer parameters from the script: dynamic backlog, DoNotHoldNicBuffers, IgnorePushBitOnReceives.",
            TweakCategory::Network,
            Risk::Medium,
            true,
            true,
            "Writes AFD\\Parameters socket values.",
            false,
            vec![
                dw("SYSTEM\\CurrentControlSet\\Services\\AFD\\Parameters", "DoNotHoldNicBuffers", 1),
                dw("SYSTEM\\CurrentControlSet\\Services\\AFD\\Parameters", "EnableDynamicBacklog", 1),
                dw("SYSTEM\\CurrentControlSet\\Services\\AFD\\Parameters", "MinimumDynamicBacklog", 32),
                dw("SYSTEM\\CurrentControlSet\\Services\\AFD\\Parameters", "MaximumDynamicBacklog", 4096),
                dw("SYSTEM\\CurrentControlSet\\Services\\AFD\\Parameters", "DynamicBacklogGrowthDelta", 32),
                dw("SYSTEM\\CurrentControlSet\\Services\\AFD\\Parameters", "IgnorePushBitOnReceives", 1),
            ],
        );
    assert(row_of(x4) =~~= network_rows()[4]);
    v.push(x4);

    let x5 = t(
            "net.lanman-tuning",
            "Server (LanmanServer) tuning",
            "Sets the script's LanmanServer values (SizReqBuf=17424, MaxWorkItems, MaxMpxCt, MaxCmds) for file sharing responsiveness.",
            TweakCategory::Network,
            Risk::Medium,
            true,
            true,
            "Writes LanmanServer\\Parameters values.",
            false,
            vec![
                dw("SYSTEM\\CurrentControlSet\\Services\\LanmanServer\\Parameters", "SizReqBuf", 17424),
                dw("SYSTEM\\CurrentControlSet\\Services\\LanmanServer\\Parameters", "MaxWorkItems", 8192),
                dw("SYSTEM\\CurrentControlSet\\Services\\LanmanServer\\Parameters", "MaxMpxCt", 2048),
                dw("SYSTEM\\CurrentControlSet\\Services\\LanmanServer\\Parameters", "MaxCmds", 2048),
            ],
        );
    assert(row_of(x5) =~~= network_rows()[5]);
    v.push(x5);

    assert(tweak_ids(v@) =~= network_ids());
    assert(rows_of(v@) =~= network_rows());
    v
}

/// The windows section, row by row.
pub open spec fn windows_rows() -> Seq<TweakRow> {
    seq![
        TweakRow {
            id: "win.telemetry-minimal"@,
            name: "Telemetry level: minimal"@,
            description: "Sets diagnostic data collection to the minimum level allowed by policy (AllowTelemetry=0) and disables the DiagTrack autologger session."@,
            category: TweakCategory::Windows,
            risk: Risk::Medium,
            requires_admin: true,
            restart_required: false,
            effect: "Sets AllowTelemetry=0 under Policies and the AutoLogger-Diagtrack-Listener start to 0."@,
            quick_optimize: false,
            applies_to: AppliesTo::Always,
            target_is_values: true,
            edits: seq![EditView { hive: Hive::LocalMachine, path: "SOFTWARE\\Policies\\Microsoft\\Windows\\DataCollection"@, name: "AllowTelemetry"@, kind: EditKindView::Dword(0) }, EditView { hive: Hive::LocalMachine, path: "SOFTWARE\\Microsoft\\Windows\\CurrentVersion\\Policies\\DataCollection"@, name: "AllowTelemetry"@, kind: EditKindView::Dword(0) }, EditView { hive: Hive::LocalMachine, path: "SYSTEM\\CurrentControlSet\\Control\\WMI\\AutoLogger\\AutoLogger-Diagtrack-Listener"@, name: "Start"@, kind: EditKindView::Dword(0) }],
            apply: None::<HookView>,
            verify: None::<HookView>,
            restore: None::<HookView>,
        },
        TweakRow {
            id: "win.advertising-id"@,
            name: "Disable advertising ID"@,
            description: "Turns off the advertising ID so apps cannot show personalized ads."@,
            category: TweakCategory::Windows,
            risk: Risk::Low,
            requires_admin: false,
            restart_required: false,
            effect: "Sets AdvertisingInfo Enabled=0 and the policy DisabledByGroupPolicy=1."@,
            quick_optimize: true,
            applies_to: AppliesTo::Always,
            target_is_values: true,
            edits: seq![EditView { hive: Hive::CurrentUser, path: "SOFTWARE\\Microsoft\\Windows\\CurrentVersion\\AdvertisingInfo"@, name: "Enabled"@, kind: EditKindView::Dword(0) }, EditView { hive: Hive::LocalMachine, path: "SOFTWARE\\Policies\\Microsoft\\Windows\\AdvertisingInfo"@, name: "DisabledByGroupPolicy"@, kind: EditKindView::Dword(1) }],
            apply: None::<HookView>,
            verify: None::<HookView>,
            restore: None::<HookView>,
        },
        TweakRow {
            id: "win.tailored-experiences"@,
            name: "Disable tailored experiences"@,
            description: "Turns off tailored experiences that use diagnostic data."@,
            category: TweakCategory::Windows,
            risk: Risk::Low,
            requires_admin: false,
            restart_required: false,
            effect: "Sets TailoredExperiencesWithDiagnosticDataEnabled to 0."@,
            quick_optimize: true,
            applies_to: AppliesTo::Always,
            target_is_values: true,
            edits: seq![EditView { hive: Hive::CurrentUser, path: "SOFTWARE\\Microsoft\\Windows\\CurrentVersion\\Privacy"@, name: "TailoredExperiencesWithDiagnosticDataEnabled"@, kind: EditKindView::Dword(0) }],
            apply: None::<HookView>,
            verify: None::<HookView>,
            restore: None::<HookView>,
        },
        TweakRow {
            id: "win.speech-inking"@,
            name: "Disable online speech + inking personalization"@,
            description: "Turns off online speech recognition and inking/typing personalization cloud features."@,
            category: TweakCategory::Windows,
            risk: Risk::Low,
            requires_admin: false,
            restart_required: false,
            effect: "Sets OnlineSpeechPrivacy HasAccepted=0 and InputPersonalization restrictions."@,
            quick_optimize: true,
            applies_to: AppliesTo::Always,
            target_is_values: true,
            edits: seq![EditView { hive: Hive::CurrentUser, path: "SOFTWARE\\Microsoft\\Speech_OneCore\\Settings\\OnlineSpeechPrivacy"@, name: "HasAccepted"@, kind: EditKindView::Dword(0) }, EditView { hive: Hive::CurrentUser, path: "SOFTWARE\\Microsoft\\InputPersonalization"@, name: "RestrictImplicitInkCollection"@, kind: EditKindView::Dword(1) }, EditView { hive: Hive::CurrentUser, path: "SOFTWARE\\Microsoft\\InputPersonalization"@, name: "RestrictImplicitTextCollection"@, kind: EditKindView::Dword(1) }, EditView { hive: Hive::CurrentUser, path: "SOFTWARE\\Microsoft\\InputPersonalization\\TrainedDataStore"@, name: "HarvestContacts"@, kind: EditKindView::Dword(0) }, EditView { hive: Hive::CurrentUser, path: "SOFTWARE\\Microsoft\\Personalization\\Settings"@, name: "AcceptedPrivacyPolicy"@, kind: EditKindView::Dword(0) }],
            apply: None::<HookView>,
            verify: None::<HookView>,
            restore: None::<HookView>,
        },
        TweakRow {
            id: "win.activity-history"@,
            name: "Disable activity history upload"@,
            description: "Stops Windows from publishing and uploading user activities (timeline)."@,
            category: TweakCategory::Windows,
            risk: Risk::Low,
            requires_admin: true,
            restart_required: false,
            effect: "Sets PublishUserActivities and UploadUserActivities policies to 0."@,
            quick_optimize: true,
            applies_to: AppliesTo::Always,
            target_is_values: true,
            edits: seq![EditView { hive: Hive::LocalMachine, path: "SOFTWARE\\Policies\\Microsoft\\Windows\\System"@, name: "PublishUserActivities"@, kind: EditKindView::Dword(0) }, EditView { hive: Hive::LocalMachine, path: "SOFTWARE\\Policies\\Microsoft\\Windows\\System"@, name: "UploadUserActivities"@, kind: EditKindView::Dword(0) }],
            apply: None::<HookView>,
            verify: None::<HookView>,
            restore: None::<HookView>,
        },
        TweakRow {
            id: "win.notifications-off"@,
            name: "Disable toast notifications"@,
            description: "Turns off toast notifications and notification sounds."@,
            category: TweakCategory::Windows,
            risk: Risk::Low,
            requires_admin: false,
            restart_required: false,
            effect: "Sets PushNotifications ToastEnabled=0 and disables notification sounds."@,
            quick_optimize: false,
            applies_to: AppliesTo::Always,
            target_is_values: true,
            edits: seq![EditView { hive: Hive::CurrentUser, path: "SOFTWARE\\Microsoft\\Windows\\CurrentVersion\\PushNotifications"@, name: "ToastEnabled"@, kind: EditKindView::Dword(0) }, EditView { hive: Hive::CurrentUser, path: "SOFTWARE\\Microsoft\\Windows\\CurrentVersion\\Notifications\\Settings"@, name: "NOC_GLOBAL_SETTING_ALLOW_NOTIFICATION_SOUND"@, kind: EditKindView::Dword(0) }],
            apply: None::<HookView>,
            verify: None::<HookView>,
            restore: None::<HookView>,
        },
        TweakRow {
            id: "win.suggested-apps"@,
            name: "Disable suggested and preinstalled apps"@,
            description: "Stops Windows from suggesting third-party apps and silently installing preinstalled app content (ContentDeliveryManager)."@,
            category: TweakCategory::Windows,
            risk: Risk::Low,
            requires_admin: false,
            restart_required: false,
            effect: "Sets ContentDeliveryManager PreInstalledApps/SilentInstalledApps/SubscribedContent values to 0."@,
            quick_optimize: true,
            applies_to: AppliesTo::Always,
            target_is_values: true,
            edits: seq![EditView { hive: Hive::CurrentUser, path: "SOFTWARE\\Microsoft\\Windows\\CurrentVersion\\ContentDeliveryManager"@, name: "PreInstalledAppsEnabled"@, kind: EditKindView::Dword(0) }, EditView { hive: Hive::CurrentUser, path: "SOFTWARE\\Microsoft\\Windows\\CurrentVersion\\ContentDeliveryManager"@, name: "SilentInstalledAppsEnabled"@, kind: EditKindView::Dword(0) }, EditView { hive: Hive::CurrentUser, path: "SOFTWARE\\Microsoft\\Windows\\CurrentVersion\\ContentDeliveryManager"@, name: "OemPreInstalledAppsEnabled"@, kind: EditKindView::Dword(0) }, EditView { hive: Hive::CurrentUser, path: "SOFTWARE\\Microsoft\\Windows\\CurrentVersion\\ContentDeliveryManager"@, name: "SubscribedContent-338388Enabled"@, kind: EditKindView::Dword(0) }, EditView { hive: Hive::CurrentUser, path: "SOFTWARE\\Microsoft\\Windows\\CurrentVersion\\ContentDeliveryManager"@, name: "SubscribedContent-338389Enabled"@, kind: EditKindView::Dword(0) }, EditView { hive: Hive::CurrentUser, path: "SOFTWARE\\Microsoft\\Windows\\CurrentVersion\\ContentDeliveryManager"@, name: "SubscribedContent-353698Enabled"@, kind: EditKindView::Dword(0) }],
            apply: None::<HookView>,
            verify: None::<HookView>,
            restore: None::<HookView>,
        },
        TweakRow {
            id: "win.shared-experiences"@,
            name: "Disable shared experiences"@,
            description: "Turns off Cross-Device Experiences (CDP) sharing policies."@,
            category: TweakCategory::Windows,
            risk: Risk::Low,
            requires_admin: false,
            restart_required: false,
            effect: "Sets CDP CdpSessionUserAuthzPolicy and NearShareChannelUserAuthzPolicy to 0."@,
            quick_optimize: true,
            applies_to: AppliesTo::Always,
            target_is_values: true,
            edits: seq![EditView { hive: Hive::CurrentUser, path: "SOFTWARE\\Microsoft\\Windows\\CurrentVersion\\CDP"@, name: "CdpSessionUserAuthzPolicy"@, kind: EditKindView::Dword(0) }, EditView { hive: Hive::CurrentUser, path: "SOFTWARE\\Microsoft\\Windows\\CurrentVersion\\CDP"@, name: "NearShareChannelUserAuthzPolicy"@, kind: EditKindView::Dword(0) }],
            apply: None::<HookView>,
            verify: None::<HookView>,
            restore: None::<HookView>,
        },
        TweakRow {
            id: "win.settings-sync"@,
            name: "Disable settings sync"@,
            description: "Turns off Windows settings synchronization between devices (SettingSync policies)."@,
            category: TweakCategory::Windows,
            risk: Risk::Medium,
            requires_admin: true,
            restart_required: false,
            effect: "Sets SettingSync DisableSettingSync=2 policy values."@,
            quick_optimize: false,
            applies_to: AppliesTo::Always,
            target_is_values: true,
            edits: seq![EditView { hive: Hive::LocalMachine, path: "SOFTWARE\\Policies\\Microsoft\\Windows\\SettingSync"@, name: "DisableSettingSync"@, kind: EditKindView::Dword(2) }, EditView { hive: Hive::LocalMachine, path: "SOFTWARE\\Policies\\Microsoft\\Windows\\SettingSync"@, name: "DisableSettingSyncUserOverride"@, kind: EditKindView::Dword(1) }, EditView { hive: Hive::CurrentUser, path: "SOFTWARE\\Microsoft\\Windows\\CurrentVersion\\SettingSync"@, name: "SyncPolicy"@, kind: EditKindView::Dword(5) }],
            apply: None::<HookView>,
            verify: None::<HookView>,
            restore: None::<HookView>,
        },
        TweakRow {
            id: "win.cortana-off"@,
            name: "Disable Cortana and web search"@,
            description: "Disables Cortana integration and web results in Windows search via policy."@,
            category: TweakCategory::Windows,
            risk: Risk::Medium,
            requires_admin: true,
            restart_required: false,
            effect: "Sets Windows Search Cortana policies to disabled."@,
            quick_optimize: false,
            applies_to: AppliesTo::Always,
            target_is_values: true,
            edits: seq![EditView { hive: Hive::LocalMachine, path: "SOFTWARE\\Policies\\Microsoft\\Windows\\Windows Search"@, name: "AllowCortana"@, kind: EditKindView::Dword(0) }, EditView { hive: Hive::LocalMachine, path: "SOFTWARE\\Policies\\Microsoft\\Windows\\Windows Search"@, name: "AllowCloudSearch"@, kind: EditKindView::Dword(0) }, EditView { hive: Hive::LocalMachine, path: "SOFTWARE\\Policies\\Microsoft\\Windows\\Windows Search"@, name: "DisableWebSearch"@, kind: EditKindView::Dword(0) }, EditView { hive: Hive::LocalMachine, path: "SOFTWARE\\Policies\\Microsoft\\Windows\\Windows Search"@, name: "ConnectedSearchUseWeb"@, kind: EditKindView::Dword(0) }],
            apply: None::<HookView>,
            verify: None::<HookView>,
            restore: None::<HookView>,
        },
        TweakRow {
            id: "win.wer-off"@,
            name: "Disable Windows Error Reporting"@,
            description: "Sets the Windows Error Reporting Disabled policy to 1."@,
            category: TweakCategory::Windows,
            risk: Risk::Low,
            requires_admin: true,
            restart_required: false,
            effect: "Sets WER Disabled=1 under Policies."@,
            quick_optimize: true,
            applies_to: AppliesTo::Always,
            target_is_values: true,
            edits: seq![EditView { hive: Hive::LocalMachine, path: "SOFTWARE\\Policies\\Microsoft\\Windows\\Windows Error Reporting"@, name: "Disabled"@, kind: EditKindView::Dword(1) }, EditView { hive: Hive::LocalMachine, path: "SOFTWARE\\Microsoft\\Windows\\Windows Error Reporting"@, name: "Disabled"@, kind: EditKindView::Dword(1) }],
            apply: None::<HookView>,
            verify: None::<HookView>,
            restore: None::<HookView>,
        },
        TweakRow {
            id: "win.update-notify"@,
            name: "Windows Update: notify before download"@,
            description: "Sets Windows Update to notify before downloading updates (AUOptions=2) instead of installing automatically. Updates are never disabled."@,
            category: TweakCategory::Windows,
            risk: Risk::Medium,
            requires_admin: true,
            restart_required: false,
            effect: "Sets AUOptions=2 under WindowsUpdate\\AU."@,
            quick_optimize: false,
            applies_to: AppliesTo::Always,
            target_is_values: true,
            edits: seq![EditView { hive: Hive::LocalMachine, path: "SOFTWARE\\Policies\\Microsoft\\Windows\\WindowsUpdate\\AU"@, name: "AUOptions"@, kind: EditKindView::Dword(2) }, EditView { hive: Hive::LocalMachine, path: "SOFTWARE\\Policies\\Microsoft\\Windows\\WindowsUpdate\\AU"@, name: "NoAutoUpdate"@, kind: EditKindView::Dword(0) }],
            apply: None::<HookView>,
            verify: None::<HookView>,
            restore: None::<HookView>,
        },
        TweakRow {
            id: "win.telemetry-tasks"@,
            name: "Disable telemetry scheduled tasks"@,
            description: "Disables the script's list of telemetry and diagnostic scheduled tasks (Compatibility Appraiser, ProgramDataUpdater, CEIP, DiskDiagnostic, WinSAT, QueueReporting and more). Each task's previous state is recorded."@,
            category: TweakCategory::Windows,
            risk: Risk::Medium,
            requires_admin: true,
            restart_required: false,
            effect: "Disables ~30 telemetry/diagnostics scheduled tasks via the Task Scheduler."@,
            quick_optimize: false,
            applies_to: AppliesTo::Always,
            target_is_values: true,
            edits: Seq::<EditView>::empty(),
            apply: None::<HookView>,
            verify: None::<HookView>,
            restore: None::<HookView>,
        },
        TweakRow {
            id: "win.unnecessary-services"@,
            name: "Disable unnecessary services"@,
            description: "Disables the script's list of rarely-needed services ( Fax, RemoteRegistry, RetailDemo, WalletService, PhoneSvc, WMPNetworkSvc, werSvc and more). Each service's original start type is recorded and restorable."@,
            category: TweakCategory::Windows,
            risk: Risk::Medium,
            requires_admin: true,
            restart_required: false,
            effect: "Sets ~20 rarely-used services to Disabled via the Service Control Manager."@,
            quick_optimize: false,
            applies_to: AppliesTo::Always,
            target_is_values: true,
            edits: Seq::<EditView>::empty(),
            apply: None::<HookView>,
            verify: None::<HookView>,
            restore: None::<HookView>,
        },
        TweakRow {
            id: "win.diagnostic-services"@,
            name: "Disable diagnostic services"@,
            description: "Sets the DPS (Diagnostic Policy), WdiServiceHost, WdiSystemHost and diagsvc services to Disabled, per the script's diagnostic section."@,
            category: TweakCategory::Windows,
            risk: Risk::Medium,
            requires_admin: true,
            restart_required: false,
            effect: "Sets diagnostic services start types to Disabled."@,
            quick_optimize: false,
            applies_to: AppliesTo::Always,
            target_is_values: true,
            edits: seq![EditView { hive: Hive::LocalMachine, path: "SYSTEM\\CurrentControlSet\\Services\\DPS"@, name: "Start"@, kind: EditKindView::Dword(4) }, EditView { hive: Hive::LocalMachine, path: "SYSTEM\\CurrentControlSet\\Services\\WdiServiceHost"@, name: "Start"@, kind: EditKindView::Dword(4) }, EditView { hive: Hive::LocalMachine, path: "SYSTEM\\CurrentControlSet\\Services\\WdiSystemHost"@, name: "Start"@, kind: EditKindView::Dword(4) }, EditView { hive: Hive::LocalMachine, path: "SYSTEM\\CurrentControlSet\\Services\\diagsvc"@, name: "Start"@, kind: EditKindView::Dword(4) }],
            apply: None::<HookView>,
            verify: None::<HookView>,
            restore: None::<HookView>,
        },
        TweakRow {
            id: "win.printing-maps-services"@,
            name: "Disable print and maps services"@,
            description: "Sets the Spooler, PrintNotify and MapsBroker services to Disabled, per the script. Printing and the Maps app will not work."@,
            category: TweakCategory::Windows,
            risk: Risk::High,
            requires_admin: true,
            restart_required: false,
            effect: "Sets Spooler/PrintNotify/MapsBroker to Disabled (printing stops working)."@,
            quick_optimize: false,
            applies_to: AppliesTo::Always,
            target_is_values: true,
            edits: seq![EditView { hive: Hive::LocalMachine, path: "SYSTEM\\CurrentControlSet\\Services\\Spooler"@, name: "Start"@, kind: EditKindView::Dword(4) }, EditView { hive: Hive::LocalMachine, path: "SYSTEM\\CurrentControlSet\\Services\\PrintNotify"@, name: "Start"@, kind: EditKindView::Dword(4) }, EditView { hive: Hive::LocalMachine, path: "SYSTEM\\CurrentControlSet\\Services\\MapsBroker"@, name: "Start"@, kind: EditKindView::Dword(4) }],
            apply: None::<HookView>,
            verify: None::<HookView>,
            restore: None::<HookView>,
        },
        TweakRow {
            id: "win.xbox-services"@,
            name: "Disable Xbox services"@,
            description: "Sets the Xbox Live services (XblAuthManager, XblGameSave, XboxGipSvc, XboxNetApiSvc, xbgm) to Disabled. Xbox Live in-game features stop working."@,
            category: TweakCategory::Windows,
            risk: Risk::Medium,
            requires_admin: true,
            restart_required: false,
            effect: "Sets Xbox services start types to Disabled."@,
            quick_optimize: false,
            applies_to: AppliesTo::Always,
            target_is_values: true,
            edits: seq![EditView { hive: Hive::LocalMachine, path: "SYSTEM\\CurrentControlSet\\Services\\XblAuthManager"@, name: "Start"@, kind: EditKindView::Dword(4) }, EditView { hive: Hive::LocalMachine, path: "SYSTEM\\CurrentControlSet\\Services\\XblGameSave"@, name: "Start"@, kind: EditKindView::Dword(4) }, EditView { hive: Hive::LocalMachine, path: "SYSTEM\\CurrentControlSet\\Services\\XboxGipSvc"@, name: "Start"@, kind: EditKindView::Dword(4) }, EditView { hive: Hive::LocalMachine, path: "SYSTEM\\CurrentControlSet\\Services\\XboxNetApiSvc"@, name: "Start"@, kind: EditKindView::Dword(4) }, EditView { hive: Hive::LocalMachine, path: "SYSTEM\\CurrentControlSet\\Services\\xbgm"@, name: "Start"@, kind: EditKindView::Dword(4) }],
            apply: None::<HookView>,
            verify: None::<HookView>,
            restore: None::<HookView>,
        },
        TweakRow {
            id: "win.win11-unsupported-hw-check"@,
            name: "Enable unsupported hardware upgrade bypass"@,
            description: "Sets AllowUpgradesWithUnsupportedTPMOrCPU so Windows 11 feature updates can install on unsupported hardware."@,
            category: TweakCategory::Windows,
            risk: Risk::High,
            requires_admin: true,
            restart_required: false,
            effect: "Sets the WindowsUpdate unsupported-hardware bypass policy."@,
            quick_optimize: false,
            applies_to: AppliesTo::Always,
            target_is_values: true,
            edits: seq![EditView { hive: Hive::LocalMachine, path: "SOFTWARE\\Policies\\Microsoft\\Windows\\WindowsUpdate"@, name: "AllowUpgradesWithUnsupportedTPMOrCPU"@, kind: EditKindView::Dword(1) }, EditView { hive: Hive::LocalMachine, path: "SOFTWARE\\Policies\\Microsoft\\Windows\\WindowsUpdate"@, name: "TargetReleaseVersion"@, kind: EditKindView::Dword(1) }],
            apply: None::<HookView>,
            verify: None::<HookView>,
            restore: None::<HookView>,
        },
    ]
}

/// Windows and privacy tweaks (telemetry, suggestions, background services).
fn windows() -> (v: Vec<Tweak>)
    ensures
        rows_of(v@) == windows_rows(),
        tweak_ids(v@) == windows_ids(),
        forall|i: int| 0 <= i < v@.len() ==> section_row(#[trigger] v@[i], TweakCategory::Windows),
{
    let mut v: Vec<Tweak> = Vec::new();
    let x0 = t(
            "win.telemetry-minimal",
            "Telemetry level: minimal",
            "Sets diagnostic data collection to the minimum level allowed by policy (AllowTelemetry=0) and disables the DiagTrack autologger session.",
            TweakCategory::Windows,
            Risk::Medium,
            true,
            false,
            "Sets AllowTelemetry=0 under Policies and the AutoLogger-Diagtrack-Listener start to 0.",
            false,
            vec![
                dw("SOFTWARE\\Policies\\Microsoft\\Windows\\DataCollection", "AllowTelemetry", 0),
                dw("SOFTWARE\\Microsoft\\Windows\\CurrentVersion\\Policies\\DataCollection", "AllowTelemetry", 0),
                dw("SYSTEM\\CurrentControlSet\\Control\\WMI\\AutoLogger\\AutoLogger-Diagtrack-Listener", "Start", 0),
            ],
        );
    assert(row_of(x0) =~~= windows_rows()[0]);
    v.push(x0);

    let x1 = t(
            "win.advertising-id",
            "Disable advertising ID",
            "Turns off the advertising ID so apps cannot show personalized ads.",
            TweakCategory::Windows,
            Risk::Low,
            false,
            false,
            "Sets AdvertisingInfo Enabled=0 and the policy DisabledByGroupPolicy=1.",
            true,
            vec![
                dwcu("SOFTWARE\\Microsoft\\Windows\\CurrentVersion\\AdvertisingInfo", "Enabled", 0),
                hklm_dw("SOFTWARE\\Policies\\Microsoft\\Windows\\AdvertisingInfo", "DisabledByGroupPolicy", 1),
            ],
        );
    assert(row_of(x1) =~~= windows_rows()[1]);
    v.push(x1);

    let x2 = t(
            "win.tailored-experiences",
            "Disable tailored experiences",
            "Turns off tailored experiences that use diagnostic data.",
            TweakCategory::Windows,
            Risk::Low,
            false,
            false,
            "Sets TailoredExperiencesWithDiagnosticDataEnabled to 0.",
            true,
            vec![
                dwcu("SOFTWARE\\Microsoft\\Windows\\CurrentVersion\\Privacy", "TailoredExperiencesWithDiagnosticDataEnabled", 0),
            ],
        );
    assert(row_of(x2) =~~= windows_rows()[2]);
    v.push(x2);

    let x3 = t(
            "win.speech-inking",
            "Disable online speech + inking personalization",
            "Turns off online speech recognition and inking/typing personalization cloud features.",
            TweakCategory::Windows,
            Risk::Low,
            false,
            false,
            "Sets OnlineSpeechPrivacy HasAccepted=0 and InputPersonalization restrictions.",
            true,
            vec![
                dwcu("SOFTWARE\\Microsoft\\Speech_OneCore\\Settings\\OnlineSpeechPrivacy", "HasAccepted", 0),
                dwcu("SOFTWARE\\Microsoft\\InputPersonalization", "RestrictImplicitInkCollection", 1),
                dwcu("SOFTWARE\\Microsoft\\InputPersonalization", "RestrictImplicitTextCollection", 1),
                dwcu("SOFTWARE\\Microsoft\\InputPersonalization\\TrainedDataStore", "HarvestContacts", 0),
                dwcu("SOFTWARE\\Microsoft\\Personalization\\Settings", "AcceptedPrivacyPolicy", 0),
            ],
        );
    assert(row_of(x3) =~~= windows_rows()[3]);
    v.push(x3);

    let x4 = t(
            "win.activity-history",
            "Disable activity history upload",
            "Stops Windows from publishing and uploading user activities (timeline).",
            TweakCategory::Windows,
            Risk::Low,
            true,
            false,
            "Sets PublishUserActivities and UploadUserActivities policies to 0.",
            true,
            vec![
                hklm_dw("SOFTWARE\\Policies\\Microsoft\\Windows\\System", "PublishUserActivities", 0),
                hklm_dw("SOFTWARE\\Policies\\Microsoft\\Windows\\System", "UploadUserActivities", 0),
            ],
        );
    assert(row_of(x4) =~~= windows_rows()[4]);
    v.push(x4);

    let x5 = t(
            "win.notifications-off",
            "Disable toast notifications",
            "Turns off toast notifications and notification sounds.",
            TweakCategory::Windows,
            Risk::Low,
            false,
            false,
            "Sets PushNotifications ToastEnabled=0 and disables notification sounds.",
            false,
            vec![
                dwcu("SOFTWARE\\Microsoft\\Windows\\CurrentVersion\\PushNotifications", "ToastEnabled", 0),
                dwcu("SOFTWARE\\Microsoft\\Windows\\CurrentVersion\\Notifications\\Settings", "NOC_GLOBAL_SETTING_ALLOW_NOTIFICATION_SOUND", 0),
            ],
        );
    assert(row_of(x5) =~~= windows_rows()[5]);
    v.push(x5);

    let x6 = t(
            "win.suggested-apps",
            "Disable suggested and preinstalled apps",
            "Stops Windows from suggesting third-party apps and silently installing preinstalled app content (ContentDeliveryManager).",
            TweakCategory::Windows,
            Risk::Low,
            false,
            false,
            "Sets ContentDeliveryManager PreInstalledApps/SilentInstalledApps/SubscribedContent values to 0.",
            true,
            vec![
                dwcu("SOFTWARE\\Microsoft\\Windows\\CurrentVersion\\ContentDeliveryManager", "PreInstalledAppsEnabled", 0),
                dwcu("SOFTWARE\\Microsoft\\Windows\\CurrentVersion\\ContentDeliveryManager", "SilentInstalledAppsEnabled", 0),
                dwcu("SOFTWARE\\Microsoft\\Windows\\CurrentVersion\\ContentDeliveryManager", "OemPreInstalledAppsEnabled", 0),
                dwcu("SOFTWARE\\Microsoft\\Windows\\CurrentVersion\\ContentDeliveryManager", "SubscribedContent-338388Enabled", 0),
                dwcu("SOFTWARE\\Microsoft\\Windows\\CurrentVersion\\ContentDeliveryManager", "SubscribedContent-338389Enabled", 0),
                dwcu("SOFTWARE\\Microsoft\\Windows\\CurrentVersion\\ContentDeliveryManager", "SubscribedContent-353698Enabled", 0),
            ],
        );
    assert(row_of(x6) =~~= windows_rows()[6]);
    v.push(x6);

    let x7 = t(
            "win.shared-experiences",
            "Disable shared experiences",
            "Turns off Cross-Device Experiences (CDP) sharing policies.",
            TweakCategory::Windows,
            Risk::Low,
            false,
            false,
            "Sets CDP CdpSessionUserAuthzPolicy and NearShareChannelUserAuthzPolicy to 0.",
            true,
            vec![
                dwcu("SOFTWARE\\Microsoft\\Windows\\CurrentVersion\\CDP", "CdpSessionUserAuthzPolicy", 0),
                dwcu("SOFTWARE\\Microsoft\\Windows\\CurrentVersion\\CDP", "NearShareChannelUserAuthzPolicy", 0),
            ],
        );
    assert(row_of(x7) =~~= windows_rows()[7]);
    v.push(x7);

    let x8 = t(
            "win.settings-sync",
            "Disable settings sync",
            "Turns off Windows settings synchronization between devices (SettingSync policies).",
            TweakCategory::Windows,
            Risk::Medium,
            true,
            false,
            "Sets SettingSync DisableSettingSync=2 policy values.",
            false,
            vec![
                hklm_dw("SOFTWARE\\Policies\\Microsoft\\Windows\\SettingSync", "DisableSettingSync", 2),
                hklm_dw("SOFTWARE\\Policies\\Microsoft\\Windows\\SettingSync", "DisableSettingSyncUserOverride", 1),
                dwcu("SOFTWARE\\Microsoft\\Windows\\CurrentVersion\\SettingSync", "SyncPolicy", 5),
            ],
        );
    assert(row_of(x8) =~~= windows_rows()[8]);
    v.push(x8);

    let x9 = t(
            "win.cortana-off",
            "Disable Cortana and web search",
            "Disables Cortana integration and web results in Windows search via policy.",
            TweakCategory::Windows,
            Risk::Medium,
            true,
            false,
            "Sets Windows Search Cortana policies to disabled.",
            false,
            vec![
                hklm_dw("SOFTWARE\\Policies\\Microsoft\\Windows\\Windows Search", "AllowCortana", 0),
                hklm_dw("SOFTWARE\\Policies\\Microsoft\\Windows\\Windows Search", "AllowCloudSearch", 0),
                hklm_dw("SOFTWARE\\Policies\\Microsoft\\Windows\\Windows Search", "DisableWebSearch", 0),
                hklm_dw("SOFTWARE\\Policies\\Microsoft\\Windows\\Windows Search", "ConnectedSearchUseWeb", 0),
            ],
        );
    assert(row_of(x9) =~~= windows_rows()[9]);
    v.push(x9);

    let x10 = t(
            "win.wer-off",
            "Disable Windows Error Reporting",
            "Sets the Windows Error Reporting Disabled policy to 1.",
            TweakCategory::Windows,
            Risk::Low,
            true,
            false,
            "Sets WER Disabled=1 under Policies.",
            true,
            vec![
                hklm_dw("SOFTWARE\\Policies\\Microsoft\\Windows\\Windows Error Reporting", "Disabled", 1),
                hklm_dw("SOFTWARE\\Microsoft\\Windows\\Windows Error Reporting", "Disabled", 1),
            ],
        );
    assert(row_of(x10) =~~= windows_rows()[10]);
    v.push(x10);

    let x11 = t(
            "win.update-notify",
            "Windows Update: notify before download",
            "Sets Windows Update to notify before downloading updates (AUOptions=2) instead of installing automatically. Updates are never disabled.",
            TweakCategory::Windows,
            Risk::Medium,
            true,
            false,
            "Sets AUOptions=2 under WindowsUpdate\\AU.",
            false,
            vec![
                hklm_dw("SOFTWARE\\Policies\\Microsoft\\Windows\\WindowsUpdate\\AU", "AUOptions", 2),
                hklm_dw("SOFTWARE\\Policies\\Microsoft\\Windows\\WindowsUpdate\\AU", "NoAutoUpdate", 0),
            ],
        );
    assert(row_of(x11) =~~= windows_rows()[11]);
    v.push(x11);

    let x12 = t(
            "win.telemetry-tasks",
            "Disable telemetry scheduled tasks",
            "Disables the script's list of telemetry and diagnostic scheduled tasks (Compatibility Appraiser, ProgramDataUpdater, CEIP, DiskDiagnostic, WinSAT, QueueReporting and more). Each task's previous state is recorded.",
            TweakCategory::Windows,
            Risk::Medium,
            true,
            false,
            "Disables ~30 telemetry/diagnostics scheduled tasks via the Task Scheduler.",
            false,
            Vec::new(),
        );
    assert(row_of(x12) =~~= windows_rows()[12]);
    v.push(x12);

    let x13 = t(
            "win.unnecessary-services",
            "Disable unnecessary services",
            "Disables the script's list of rarely-needed services ( Fax, RemoteRegistry, RetailDemo, WalletService, PhoneSvc, WMPNetworkSvc, werSvc and more). Each service's original start type is recorded and restorable.",
            TweakCategory::Windows,
            Risk::Medium,
            true,
            false,
            "Sets ~20 rarely-used services to Disabled via the Service Control Manager.",
            false,
            Vec::new(),
        );
    assert(row_of(x13) =~~= windows_rows()[13]);
    v.push(x13);

    let x14 = t(
            "win.diagnostic-services",
            "Disable diagnostic services",
            "Sets the DPS (Diagnostic Policy), WdiServiceHost, WdiSystemHost and diagsvc services to Disabled, per the script's diagnostic section.",
            TweakCategory::Windows,
            Risk::Medium,
            true,
            false,
            "Sets diagnostic services start types to Disabled.",
            false,
            vec![
                dw("SYSTEM\\CurrentControlSet\\Services\\DPS", "Start", 4),
                dw("SYSTEM\\CurrentControlSet\\Services\\WdiServiceHost", "Start", 4),
                dw("SYSTEM\\CurrentControlSet\\Services\\WdiSystemHost", "Start", 4),
                dw("SYSTEM\\CurrentControlSet\\Services\\diagsvc", "Start", 4),
            ],
        );
    assert(row_of(x14) =~~= windows_rows()[14]);
    v.push(x14);

    let x15 = t(
            "win.printing-maps-services",
            "Disable print and maps services",
            "Sets the Spooler, PrintNotify and MapsBroker services to Disabled, per the script. Printing and the Maps app will not work.",
            TweakCategory::Windows,
            Risk::High,
            true,
            false,
            "Sets Spooler/PrintNotify/MapsBroker to Disabled (printing stops working).",
            false,
            vec![
                dw("SYSTEM\\CurrentControlSet\\Services\\Spooler", "Start", 4),
                dw("SYSTEM\\CurrentControlSet\\Services\\PrintNotify", "Start", 4),
                dw("SYSTEM\\CurrentControlSet\\Services\\MapsBroker", "Start", 4),
            ],
        );
    assert(row_of(x15) =~~= windows_rows()[15]);
    v.push(x15);

    let x16 = t(
            "win.xbox-services",
            "Disable Xbox services",
            "Sets the Xbox Live services (XblAuthManager, XblGameSave, XboxGipSvc, XboxNetApiSvc, xbgm) to Disabled. Xbox Live in-game features stop working.",
            TweakCategory::Windows,
            Risk::Medium,
            true,
            false,
            "Sets Xbox services start types to Disabled.",
            false,
            vec![
                dw("SYSTEM\\CurrentControlSet\\Services\\XblAuthManager", "Start", 4),
                dw("SYSTEM\\CurrentControlSet\\Services\\XblGameSave", "Start", 4),
                dw("SYSTEM\\CurrentControlSet\\Services\\XboxGipSvc", "Start", 4),
                dw("SYSTEM\\CurrentControlSet\\Services\\XboxNetApiSvc", "Start", 4),
                dw("SYSTEM\\CurrentControlSet\\Services\\xbgm", "Start", 4),
            ],
        );
    assert(row_of(x16) =~~= windows_rows()[16]);
    v.push(x16);

    let x17 = t(
            "win.win11-unsupported-hw-check",
            "Enable unsupported hardware upgrade bypass",
            "Sets AllowUpgradesWithUnsupportedTPMOrCPU so Windows 11 feature updates can install on unsupported hardware.",
            TweakCategory::Windows,
            Risk::High,
            true,
            false,
            "Sets the WindowsUpdate unsupported-hardware bypass policy.",
            false,
            vec![
                hklm_dw("SOFTWARE\\Policies\\Microsoft\\Windows\\WindowsUpdate", "AllowUpgradesWithUnsupportedTPMOrCPU", 1),
                hklm_dw("SOFTWARE\\Policies\\Microsoft\\Windows\\WindowsUpdate", "TargetReleaseVersion", 1),
            ],
        );
    assert(row_of(x17) =~~= windows_rows()[17]);
    v.push(x17);

    assert(tweak_ids(v@) =~= windows_ids());
    assert(rows_of(v@) =~= windows_rows());
    v
}

// ---------------------------------------------------------------- machine-dependent values

/// The svchost split threshold (in KB) for the installed RAM: the 8, 16, 32
/// or 64 GB table, 16 GB when the RAM is unknown.
pub open spec fn svchost_spec(ram_tenths: Option<u64>) -> u32 {
    let r = match ram_tenths {
        Some(x) => x,
        None => 160,
    };
    if r <= 80 {
        8_388_608
    } else if r <= 160 {
        16_777_216
    } else if r <= 320 {
        33_554_432
    } else {
        67_108_864
    }
}

/// The svchost split threshold (in KB) for the installed RAM.
pub fn svchost_threshold(ram_tenths: Option<u64>) -> (kb: u32)
    ensures
        kb == svchost_spec(ram_tenths),
{
    let r = match ram_tenths {
        Some(x) => x,
        None => 160,
    };
    if r <= 80 {
        8_388_608
    } else if r <= 160 {
        16_777_216
    } else if r <= 320 {
        33_554_432
    } else {
        67_108_864
    }
}

/// The display adapter class key.
pub open spec fn display_class_key() -> Seq<char> {
    "SYSTEM\\CurrentControlSet\\Control\\Class\\{4d36e968-e325-11ce-bfc1-08002be10318}"@
}

/// `n` in decimal, zero-padded to four digits.
pub open spec fn pad4(n: nat) -> Seq<char> {
    if n < 10 {
        "000"@ + decimal(n)
    } else if n < 100 {
        "00"@ + decimal(n)
    } else if n < 1000 {
        "0"@ + decimal(n)
    } else {
        decimal(n)
    }
}

/// The key of display adapter number `idx` (`{base}\\{idx:04}`).
pub open spec fn adapter_key(idx: nat) -> Seq<char> {
    display_class_key() + "\\"@ + pad4(idx)
}

/// The key of display adapter number `idx`.
pub fn adapter_key_path(idx: u64) -> (p: String)
    ensures
        p@ == adapter_key(idx as nat),
{
    let mut p = owned("SYSTEM\\CurrentControlSet\\Control\\Class\\{4d36e968-e325-11ce-bfc1-08002be10318}");
    push_str(&mut p, "\\");
    if idx < 10 {
        push_str(&mut p, "000");
    } else if idx < 100 {
        push_str(&mut p, "00");
    } else if idx < 1000 {
        push_str(&mut p, "0");
    }
    push_decimal(&mut p, idx);
    assert(p@ =~= adapter_key(idx as nat));
    p
}

/// The adapter whose `DriverDesc` read gave `read` is an NVIDIA one.
pub open spec fn nvidia_desc(read: Result<Option<crate::registry::RegValueView>, ()>) -> bool {
    read matches Ok(Some(v)) && decode_payload(v.bytes) matches Some(d) && seq_contains(
        lowercase_of(d),
        "nvidia"@,
    )
}

/// The keys of the NVIDIA adapters among `reads`.
pub open spec fn nvidia_keys_spec(reads: Seq<Result<Option<crate::registry::RegValueView>, ()>>) -> Seq<Seq<char>>
    decreases reads.len(),
{
    if reads.len() == 0 {
        Seq::empty()
    } else {
        let p = nvidia_keys_spec(reads.drop_last());
        if nvidia_desc(reads.last()) {
            p.push(adapter_key((reads.len() - 1) as nat))
        } else {
            p
        }
    }
}

/// The NVIDIA adapter keys are exactly the keys of the adapters whose read
/// description names NVIDIA: every such adapter's key is listed, every
/// listed key is such an adapter's, and there is one key per such adapter.
pub proof fn law_nvidia_keys(reads: Seq<Result<Option<crate::registry::RegValueView>, ()>>)
    ensures
        forall|i: int| 0 <= i < reads.len() && nvidia_desc(#[trigger] reads[i]) ==> nvidia_keys_spec(reads).contains(
            adapter_key(i as nat),
        ),
        forall|k: int|
            #![trigger nvidia_keys_spec(reads)[k]]
            0 <= k < nvidia_keys_spec(reads).len() ==> exists|i: int|
                #![trigger reads[i]]
                0 <= i < reads.len() && nvidia_desc(reads[i]) && nvidia_keys_spec(reads)[k] == adapter_key(i as nat),
        nvidia_keys_spec(reads).len() == reads.filter(|r: Result<Option<crate::registry::RegValueView>, ()>| nvidia_desc(r)).len(),
    decreases reads.len(),
{
    reveal(Seq::filter);
    if reads.len() > 0 {
        let r1 = reads.drop_last();
        law_nvidia_keys(r1);
        let t1 = nvidia_keys_spec(r1);
        let t = nvidia_keys_spec(reads);
        let n = reads.len() - 1;
        assert(reads[n] == reads.last());
        assert forall|i: int| 0 <= i < r1.len() implies #[trigger] r1[i] == reads[i] by {}
        assert forall|i: int| 0 <= i < reads.len() && nvidia_desc(#[trigger] reads[i]) implies t.contains(
            adapter_key(i as nat),
        ) by {
            if i < n {
                assert(r1[i] == reads[i]);
                let k = choose|k: int| 0 <= k < t1.len() && t1[k] == adapter_key(i as nat);
                assert(t[k] == t1[k]);
            } else {
                assert(t[t.len() - 1] == adapter_key(i as nat));
            }
        }
        assert forall|k: int|
            #![trigger nvidia_keys_spec(reads)[k]]
            0 <= k < nvidia_keys_spec(reads).len() implies exists|i: int|
                #![trigger reads[i]]
                0 <= i < reads.len() && nvidia_desc(reads[i]) && nvidia_keys_spec(reads)[k] == adapter_key(i as nat) by {
            if k < t1.len() {
                assert(t[k] == t1[k]);
                let i = choose|i: int| #![trigger r1[i]] 0 <= i < r1.len() && nvidia_desc(r1[i]) && t1[k] == adapter_key(i as nat);
                assert(reads[i] == r1[i]);
            } else {
                if !nvidia_desc(reads.last()) {
                    assert(t == t1);
                }
                assert(nvidia_desc(reads.last()));
                assert(t == t1.push(adapter_key((reads.len() - 1) as nat)));
                assert(t[k] == adapter_key(n as nat));
                assert(nvidia_desc(reads[n]));
            }
        }
    } else {
        assert(nvidia_keys_spec(reads).len() == 0);
    }
}

/// The display adapter keys whose driver description mentions NVIDIA, given
/// the outcome of reading `DriverDesc` under adapter 0, 1, 2 and so on.
pub fn nvidia_adapter_keys(reads: &[Result<Option<RegValue>, ZenouError>]) -> (keys: Vec<String>)
    ensures
        views(keys@) == nvidia_keys_spec(crate::engine::read_views(reads@)),
{
    let ghost rv = crate::engine::read_views(reads@);
    let mut keys: Vec<String> = Vec::new();
    let mut i: usize = 0;
    assert(rv.subrange(0, 0) =~= Seq::<Result<Option<crate::registry::RegValueView>, ()>>::empty());
    while i < reads.len()
        invariant
            rv == crate::engine::read_views(reads@),
            i <= reads@.len(),
            views(keys@) == nvidia_keys_spec(rv.subrange(0, i as int)),
        decreases reads.len() - i,
    {
        let ghost pre = rv.subrange(0, i as int);
        assert(rv.subrange(0, i + 1).drop_last() =~= pre);
        assert(rv.subrange(0, i + 1).last() == crate::engine::read_view(reads@[i as int]));
        let hit = match &reads[i] {
            Ok(Some(v)) => match crate::registry::decode_utf16le(v.bytes.as_slice()) {
                Some(desc) => {
                    let low = to_lowercase(desc.as_str());
                    let lv = chars_of(low.as_str());
                    contains_str(lv.as_slice(), "nvidia")
                },
                None => false,
            },
            _ => false,
        };
        if hit {
            let k = adapter_key_path(i as u64);
            keys.push(k);
            assert(views(keys@) =~= nvidia_keys_spec(pre).push(adapter_key(i as nat)));
        }
        i = i + 1;
    }
    assert(rv.subrange(0, reads@.len() as int) =~= rv);
    keys
}

/// The KBoost edits of one NVIDIA adapter key, in order.
pub open spec fn kboost_edit(path: Seq<char>, j: int) -> EditView {
    EditView {
        hive: Hive::LocalMachine,
        path,
        name: if j == 0 {
            "PowerMizerEnable"@
        } else if j == 1 {
            "PowerMizerLevel"@
        } else if j == 2 {
            "PowerMizerLevelAC"@
        } else {
            "PerfLevelSrc"@
        },
        kind: EditKindView::Dword(
            if j == 3 {
                8738
            } else {
                1
            },
        ),
    }
}

/// PowerMizer edits (enable, level 1 on battery and AC, PerfLevelSrc 8738)
/// for every NVIDIA adapter key.
pub fn nvidia_kboost_edits(keys: &[String]) -> (v: Vec<RegEdit>)
    ensures
        v@.len() == 4 * keys@.len(),
        forall|k: int, j: int|
            0 <= k < keys@.len() && 0 <= j < 4 ==> (#[trigger] v@[4 * k + j])@ == kboost_edit(keys@[k]@, j),
        v@.map_values(|e: RegEdit| e@) == kboost_edits(views(keys@)),
{
    let mut v: Vec<RegEdit> = Vec::new();
    let mut i: usize = 0;
    while i < keys.len()
        invariant
            i <= keys@.len(),
            v@.len() == 4 * i,
            forall|k: int, j: int|
                0 <= k < i && 0 <= j < 4 ==> (#[trigger] v@[4 * k + j])@ == kboost_edit(keys@[k]@, j),
        decreases keys.len() - i,
    {
        let path = keys[i].as_str();
        v.push(dw(path, "PowerMizerEnable", 1));
        v.push(dw(path, "PowerMizerLevel", 1));
        v.push(dw(path, "PowerMizerLevelAC", 1));
        v.push(dw(path, "PerfLevelSrc", 8738));
        assert forall|k: int, j: int|
            0 <= k < i + 1 && 0 <= j < 4 implies (#[trigger] v@[4 * k + j])@ == kboost_edit(keys@[k]@, j) by {
            if k == i {
                assert(4 * k + j == 4 * i + j);
            }
        }
        i = i + 1;
    }
    let ghost ev = v@.map_values(|e: RegEdit| e@);
    assert forall|n: int| 0 <= n < v@.len() implies #[trigger] ev[n] == kboost_edits(views(keys@))[n] by {
        let k = n / 4;
        let j = n % 4;
        assert(4 * k + j == n);
        assert(v@[4 * k + j]@ == kboost_edit(keys@[k]@, j));
    }
    assert(ev =~= kboost_edits(views(keys@)));
    v
}

/// DisableDynamicPstate=1 for every NVIDIA adapter key.
pub fn nvidia_pstate_edits(keys: &[String]) -> (v: Vec<RegEdit>)
    ensures
        v@.len() == keys@.len(),
        forall|k: int|
            0 <= k < keys@.len() ==> (#[trigger] v@[k])@ == (EditView {
                hive: Hive::LocalMachine,
                path: keys@[k]@,
                name: "DisableDynamicPstate"@,
                kind: EditKindView::Dword(1),
            }),
        v@.map_values(|e: RegEdit| e@) == views(keys@).map_values(|k: Seq<char>| pstate_edit(k)),
{
    let mut v: Vec<RegEdit> = Vec::new();
    let mut i: usize = 0;
    while i < keys.len()
        invariant
            i <= keys@.len(),
            v@.len() == i,
            forall|k: int|
                0 <= k < i ==> (#[trigger] v@[k])@ == (EditView {
                    hive: Hive::LocalMachine,
                    path: keys@[k]@,
                    name: "DisableDynamicPstate"@,
                    kind: EditKindView::Dword(1),
                }),
        decreases keys.len() - i,
    {
        v.push(dw(keys[i].as_str(), "DisableDynamicPstate", 1));
        i = i + 1;
    }
    assert(v@.map_values(|e: RegEdit| e@) =~= views(keys@).map_values(|k: Seq<char>| pstate_edit(k)));
    v
}


// ---------------------------------------------------------------- command step checks

/// What `String::from_utf8` gives for a byte string (`None` when it is not UTF-8).
pub uninterp spec fn utf8_decode(b: Seq<u8>) -> Option<Seq<char>>;

/// `String::from_utf8`: the text of `b` when it is valid UTF-8. Its result is
/// named; ASCII input is valid and kept as it is.
#[verifier::external_body]
fn string_from_utf8(b: Vec<u8>) -> (r: Option<String>)
    ensures
        crate::text::opt_view(r) == utf8_decode(b@),
        (forall|i: int| 0 <= i < b@.len() ==> b@[i] < 128) ==> crate::text::opt_view(r) == Some(
            crate::winapi::ascii_chars(b@),
        ),
{
    String::from_utf8(b).ok()
}

/// The DWORD a read gives: the little-endian value of a four-byte value.
pub open spec fn reg_dword_spec(read: Result<Option<crate::registry::RegValueView>, ()>) -> Option<u32> {
    match read {
        Ok(Some(v)) => if v.bytes.len() == 4 {
            Some(crate::registry::le_value(v.bytes) as u32)
        } else {
            None
        },
        _ => None,
    }
}

/// The DWORD a value read gives, when the value has exactly four bytes.
pub fn reg_dword(read: &Result<Option<RegValue>, ZenouError>) -> (r: Option<u32>)
    ensures
        r == reg_dword_spec(crate::engine::read_view(*read)),
{
    match read {
        Ok(Some(v)) => if v.bytes.len() == 4 {
            Some(crate::registry::dword_from_le(v.bytes.as_slice()))
        } else {
            None
        },
        _ => None,
    }
}

/// What `String::from_utf8` gives: ASCII input is valid and kept
/// character for character.
pub open spec fn utf8_text(b: Seq<u8>) -> Option<Seq<char>> {
    if forall|i: int| 0 <= i < b.len() ==> b[i] < 128 {
        Some(crate::winapi::ascii_chars(b))
    } else {
        utf8_decode(b)
    }
}

/// The string a read gives: a REG_SZ or REG_EXPAND_SZ payload taken as
/// UTF-8, trailing NULs removed.
pub open spec fn reg_str_spec(read: Result<Option<crate::registry::RegValueView>, ()>) -> Option<Seq<char>> {
    match read {
        Ok(Some(v)) => if v.vtype == crate::registry::RegType::REG_SZ || v.vtype
            == crate::registry::RegType::REG_EXPAND_SZ {
            match utf8_text(v.bytes) {
                Some(s) => Some(crate::text::trim_end_char(s, '\0')),
                None => None,
            }
        } else {
            None
        },
        _ => None,
    }
}

/// The string a value read gives.
pub fn reg_str(read: &Result<Option<RegValue>, ZenouError>) -> (r: Option<String>)
    ensures
        crate::text::opt_view(r) == reg_str_spec(crate::engine::read_view(*read)),
{
    match read {
        Ok(Some(v)) => {
            if v.vtype == crate::registry::RegType::REG_SZ || v.vtype == crate::registry::RegType::REG_EXPAND_SZ {
                match string_from_utf8(v.bytes.clone()) {
                    Some(s) => {
                        let c = chars_of(s.as_str());
                        let t = crate::text::trim_end_matches(c.as_slice(), '\0');
                        Some(crate::text::string_of(t.as_slice()))
                    },
                    None => None,
                }
            } else {
                None
            }
        },
        _ => None,
    }
}

/// The active scheme's guid as the registry records it (the default value of
/// `...\Power\User\PowerSchemes`), when it is a non-empty string.
pub fn active_scheme_guid(read: &Result<Option<RegValue>, ZenouError>) -> (r: Option<String>)
    ensures
        crate::text::opt_view(r) == match reg_str_spec(crate::engine::read_view(*read)) {
            Some(s) => if s.len() > 0 {
                Some(s)
            } else {
                None
            },
            None => None,
        },
{
    match reg_str(read) {
        Some(s) => if s.unicode_len() > 0 {
            Some(s)
        } else {
            None
        },
        None => None,
    }
}

/// A check that is either decided from the registry or needs a command's report.
pub enum HookCheck {
    Decided(bool),
    /// The report of the command the check falls back to is needed.
    NeedsReport,
}

/// The guids of the built-in High Performance and Ultimate Performance plans.
pub open spec fn high_performance_guid(g: Seq<char>) -> bool {
    g == "8c5e7fda-e8bf-4a96-9a85-a6e23a8c635c"@ || g == "e9a42b02-d5df-448d-aa00-03f14749eb61"@
}

/// Whether the High Performance plan is active, from the registered active
/// scheme: a built-in High/Ultimate guid is, no guid is not, any other guid
/// (a duplicated plan) needs the `powercfg /getactivescheme` report.
pub fn high_performance_check(active_read: &Result<Option<RegValue>, ZenouError>) -> (r: HookCheck)
    ensures
        match reg_str_spec(crate::engine::read_view(*active_read)) {
            Some(g) => if g.len() == 0 {
                r == HookCheck::Decided(false)
            } else if high_performance_guid(crate::text::lower_seq(g)) {
                r == HookCheck::Decided(true)
            } else {
                r == HookCheck::NeedsReport
            },
            None => r == HookCheck::Decided(false),
        },
{
    match active_scheme_guid(active_read) {
        Some(guid) => {
            let g = crate::text::to_ascii_lowercase(guid.as_str());
            if crate::text::slice_eq(g.as_slice(), chars_of("8c5e7fda-e8bf-4a96-9a85-a6e23a8c635c").as_slice())
                || crate::text::slice_eq(g.as_slice(), chars_of("e9a42b02-d5df-448d-aa00-03f14749eb61").as_slice()) {
                return HookCheck::Decided(true);
            }
            if g.len() > 0 {
                return HookCheck::NeedsReport;
            }
            HookCheck::Decided(false)
        },
        None => HookCheck::Decided(false),
    }
}

/// Whether the `powercfg /getactivescheme` report names a High or Ultimate Performance plan.
pub fn high_performance_from_report(out: crate::winapi::Output) -> (r: Result<bool, ZenouError>)
    ensures
        out.exit_code == 0 ==> r == Ok::<bool, ZenouError>(
            seq_contains(lowercase_of(crate::winapi::out_stdout(out)), "high performance"@) || seq_contains(
                lowercase_of(crate::winapi::out_stdout(out)),
                "ultimate"@,
            ),
        ),
        out.exit_code != 0 ==> r is Err,
{
    let o = crate::ops::powercfg(out)?;
    let text = to_lowercase(o.stdout_str().as_str());
    let t = chars_of(text.as_str());
    Ok(contains_str(t.as_slice(), "high performance") || contains_str(t.as_slice(), "ultimate"))
}

/// The index of the first scheme whose lowercase name contains one of `pats`.
pub open spec fn scheme_named(s: Seq<(Seq<char>, Seq<char>)>, a: Seq<char>, b: Seq<char>) -> Option<Seq<char>>
    decreases s.len(),
{
    if s.len() == 0 {
        None
    } else if seq_contains(lowercase_of(s[0].1), a) || seq_contains(lowercase_of(s[0].1), b) {
        Some(s[0].0)
    } else {
        scheme_named(s.drop_first(), a, b)
    }
}

/// The scheme found by name is the first listed whose name, in any case,
/// contains one of the two words; there is none exactly when no listed name
/// does.
pub proof fn law_scheme_named(s: Seq<(Seq<char>, Seq<char>)>, a: Seq<char>, b: Seq<char>)
    ensures
        scheme_named(s, a, b) is None <==> forall|i: int|
            0 <= i < s.len() ==> !seq_contains(lowercase_of((#[trigger] s[i]).1), a) && !seq_contains(
                lowercase_of(s[i].1),
                b,
            ),
        scheme_named(s, a, b) matches Some(g) ==> exists|i: int|
            0 <= i < s.len() && (#[trigger] s[i]).0 == g && (seq_contains(lowercase_of(s[i].1), a) || seq_contains(
                lowercase_of(s[i].1),
                b,
            )) && forall|k: int|
                0 <= k < i ==> !seq_contains(lowercase_of((#[trigger] s[k]).1), a) && !seq_contains(
                    lowercase_of(s[k].1),
                    b,
                ),
    decreases s.len(),
{
    if s.len() > 0 {
        let rest = s.drop_first();
        law_scheme_named(rest, a, b);
        assert forall|i: int| 0 <= i < rest.len() implies #[trigger] rest[i] == s[i + 1] by {}
        if !(seq_contains(lowercase_of(s[0].1), a) || seq_contains(lowercase_of(s[0].1), b)) {
            if forall|i: int|
                0 <= i < rest.len() ==> !seq_contains(lowercase_of((#[trigger] rest[i]).1), a) && !seq_contains(
                    lowercase_of(rest[i].1),
                    b,
                ) {
                assert forall|i: int| 0 <= i < s.len() implies !seq_contains(lowercase_of((#[trigger] s[i]).1), a)
                    && !seq_contains(lowercase_of(s[i].1), b) by {
                    if i > 0 {
                        assert(rest[i - 1] == s[i]);
                    }
                }
            } else {
                let i = choose|i: int|
                    0 <= i < rest.len() && !(!seq_contains(lowercase_of((#[trigger] rest[i]).1), a) && !seq_contains(
                        lowercase_of(rest[i].1),
                        b,
                    ));
                assert(rest[i] == s[i + 1]);
            }
            if scheme_named(rest, a, b) is Some {
                let g = scheme_named(rest, a, b)->0;
                let i = choose|i: int|
                    0 <= i < rest.len() && (#[trigger] rest[i]).0 == g && (seq_contains(lowercase_of(rest[i].1), a)
                        || seq_contains(lowercase_of(rest[i].1), b)) && forall|k: int|
                        0 <= k < i ==> !seq_contains(lowercase_of((#[trigger] rest[k]).1), a) && !seq_contains(
                            lowercase_of(rest[k].1),
                            b,
                        );
                assert(s[i + 1] == rest[i]);
                assert forall|k: int| 0 <= k < i + 1 implies !seq_contains(lowercase_of((#[trigger] s[k]).1), a)
                    && !seq_contains(lowercase_of(s[k].1), b) by {
                    if k > 0 {
                        assert(rest[k - 1] == s[k]);
                    }
                }
            }
        } else {
            assert(s[0] == s[0]);
        }
    }
}

/// The guid of the first scheme whose name contains `a` or `b` (any case).
fn find_scheme(schemes: &Vec<(String, String)>, a: &str, b: &str) -> (r: Option<String>)
    ensures
        crate::text::opt_view(r) == scheme_named(crate::ops::pair_views(schemes@), a@, b@),
{
    let ghost all = crate::ops::pair_views(schemes@);
    let mut i: usize = 0;
    assert(all.subrange(0, all.len() as int) =~= all);
    while i < schemes.len()
        invariant
            all == crate::ops::pair_views(schemes@),
            i <= schemes@.len(),
            scheme_named(all, a@, b@) == scheme_named(all.subrange(i as int, all.len() as int), a@, b@),
        decreases schemes.len() - i,
    {
        let ghost rest = all.subrange(i as int, all.len() as int);
        assert(rest[0] == (schemes@[i as int].0@, schemes@[i as int].1@));
        let low = to_lowercase(schemes[i].1.as_str());
        let lv = chars_of(low.as_str());
        if contains_str(lv.as_slice(), a) || contains_str(lv.as_slice(), b) {
            return Some(schemes[i].0.clone());
        }
        assert(rest.drop_first() =~= all.subrange(i + 1, all.len() as int));
        i = i + 1;
    }
    None
}

/// The High Performance (or Ultimate) scheme among those listed; when there
/// is none, the High Performance plan is duplicated from its built-in guid.
pub fn find_high_performance_scheme(schemes: &Vec<(String, String)>) -> (r: Option<String>)
    ensures
        crate::text::opt_view(r) == scheme_named(crate::ops::pair_views(schemes@), "high performance"@, "ultimate"@),
{
    find_scheme(schemes, "high performance", "ultimate")
}

/// The next move towards an active High Performance plan.
pub enum PlanStep {
    /// Make this scheme active.
    Activate(String),
    /// Duplicate the built-in High Performance scheme, then list the schemes again.
    Duplicate,
    /// The plan cannot be activated.
    Fail(ZenouError),
}

/// What activating the High Performance plan does next, given the schemes
/// listed at the start and, once the built-in scheme was duplicated, the
/// schemes listed after: activate a High Performance or Ultimate scheme
/// when one is listed; otherwise duplicate it, and then activate the scheme
/// the duplication added (failing when none was added).
pub fn high_performance_next(before: &Vec<(String, String)>, after: &Option<Vec<(String, String)>>) -> (r: PlanStep)
    ensures
        match scheme_named(crate::ops::pair_views(before@), "high performance"@, "ultimate"@) {
            Some(g) => r matches PlanStep::Activate(x) && x@ == g,
            None => match after {
                None => r is Duplicate,
                Some(a) => match crate::ops::first_new_guid(crate::ops::pair_views(a@), crate::ops::pair_views(before@)) {
                    Some(g) => r matches PlanStep::Activate(x) && x@ == g,
                    None => r matches PlanStep::Fail(e) && crate::error::error_is(
                        e,
                        "state"@,
                        "The power plan was created but could not be identified."@,
                        None,
                    ),
                },
            },
        },
{
    match find_high_performance_scheme(before) {
        Some(g) => PlanStep::Activate(g),
        None => match after {
            None => PlanStep::Duplicate,
            Some(a) => match crate::ops::duplicate_scheme(before, a) {
                Ok(g) => PlanStep::Activate(g),
                Err(e) => PlanStep::Fail(e),
            },
        },
    }
}

/// The duplication that creates the High Performance plan from its
/// built-in scheme.
pub fn high_performance_duplicate() -> (c: crate::winapi::Command)
    ensures
        crate::winapi::command_is(c, "powercfg.exe"@, seq!["-duplicatescheme"@, "8c5e7fda-e8bf-4a96-9a85-a6e23a8c635c"@]),
{
    crate::ops::duplicate_scheme_command("8c5e7fda-e8bf-4a96-9a85-a6e23a8c635c")
}

/// The listing of the power schemes.
pub fn list_schemes_command() -> (c: crate::winapi::Command)
    ensures
        crate::winapi::command_is(c, "powercfg.exe"@, seq!["/list"@]),
{
    let mut args: Vec<String> = Vec::new();
    crate::text::push_owned(&mut args, "/list");
    assert(views(args@) =~= seq!["/list"@]);
    crate::winapi::Command { program: owned("powercfg.exe"), args }
}

/// Re-applying the current scheme so a changed power setting takes effect;
/// it follows every power-value step.
pub fn reapply_scheme_command() -> (c: crate::winapi::Command)
    ensures
        crate::winapi::command_is(c, "powercfg.exe"@, seq!["-setactive"@, "scheme_current"@]),
{
    crate::ops::set_active_scheme("scheme_current")
}

/// The registry value the High Performance verification reads first: the
/// active power scheme (hive, key, value name).
pub fn active_scheme_location() -> (r: (Hive, &'static str, &'static str))
    ensures
        r.0 == Hive::LocalMachine,
        r.1@ == "SYSTEM\\CurrentControlSet\\Control\\Power\\User\\PowerSchemes"@,
        r.2@ == ""@,
{
    (Hive::LocalMachine, "SYSTEM\\CurrentControlSet\\Control\\Power\\User\\PowerSchemes", "")
}

/// The registry value the hibernation verification reads first.
pub fn hibernation_location() -> (r: (Hive, &'static str, &'static str))
    ensures
        r.0 == Hive::LocalMachine,
        r.1@ == "SYSTEM\\CurrentControlSet\\Control\\Power"@,
        r.2@ == "HibernateEnabled"@,
{
    (Hive::LocalMachine, "SYSTEM\\CurrentControlSet\\Control\\Power", "HibernateEnabled")
}

/// The key holding the file-system behaviour values the fsutil verification reads first.
pub fn filesystem_key() -> (r: &'static str)
    ensures
        r@ == "SYSTEM\\CurrentControlSet\\Control\\FileSystem"@,
{
    "SYSTEM\\CurrentControlSet\\Control\\FileSystem"
}

/// The Balanced scheme among those listed (restoring the plan does nothing without one).
pub fn find_balanced_scheme(schemes: &Vec<(String, String)>) -> (r: Option<String>)
    ensures
        crate::text::opt_view(r) == scheme_named(crate::ops::pair_views(schemes@), "balanced"@, "balanced"@),
{
    find_scheme(schemes, "balanced", "balanced")
}

/// Whether hibernation is in the target state, from `HibernateEnabled`
/// (0 = off): decided when the value is there, otherwise the `powercfg /a`
/// report is needed.
pub fn hibernation_check(target_off: bool, read: &Result<Option<RegValue>, ZenouError>) -> (r: HookCheck)
    ensures
        match reg_dword_spec(crate::engine::read_view(*read)) {
            Some(v) => r == HookCheck::Decided(
                if target_off {
                    v == 0
                } else {
                    v != 0
                },
            ),
            None => r == HookCheck::NeedsReport,
        },
{
    match reg_dword(read) {
        Some(v) => HookCheck::Decided(
            if target_off {
                v == 0
            } else {
                v != 0
            },
        ),
        None => HookCheck::NeedsReport,
    }
}

/// Whether hibernation is in the target state, from the `powercfg /a` report.
pub fn hibernation_from_report(target_off: bool, out: crate::winapi::Output) -> (r: Result<bool, ZenouError>)
    ensures
        out.exit_code == 0 ==> r == Ok::<bool, ZenouError>(
            {
                let t = lowercase_of(crate::winapi::out_stdout(out));
                if target_off {
                    seq_contains(t, "hibernation has not been enabled"@) || !seq_contains(t, "hibernate"@)
                } else {
                    seq_contains(t, "hibernate"@)
                }
            },
        ),
        out.exit_code != 0 ==> r is Err,
{
    let o = crate::ops::powercfg(out)?;
    let text = to_lowercase(o.stdout_str().as_str());
    let t = chars_of(text.as_str());
    Ok(
        if target_off {
            contains_str(t.as_slice(), "hibernation has not been enabled") || !contains_str(t.as_slice(), "hibernate")
        } else {
            contains_str(t.as_slice(), "hibernate")
        },
    )
}

/// The `Control\FileSystem` value an `fsutil behavior` operation keeps.
pub open spec fn fsutil_value_spec(operation: Seq<char>) -> Option<Seq<char>> {
    if operation == "disablelastaccess"@ {
        Some("NtfsDisableLastAccessUpdate"@)
    } else if operation == "disable8dot3"@ {
        Some("NtfsDisable8dot3NameCreation"@)
    } else {
        None
    }
}

/// The registry value (under `SYSTEM\CurrentControlSet\Control\FileSystem`)
/// an `fsutil behavior` operation keeps, for the operations the catalog uses.
pub fn fsutil_value_name(operation: &str) -> (r: Option<&'static str>)
    ensures
        match r {
            Some(n) => fsutil_value_spec(operation@) == Some(n@),
            None => fsutil_value_spec(operation@) is None,
        },
{
    if crate::text::str_eq(operation, "disablelastaccess") {
        Some("NtfsDisableLastAccessUpdate")
    } else if crate::text::str_eq(operation, "disable8dot3") {
        Some("NtfsDisable8dot3NameCreation")
    } else {
        None
    }
}

/// Whether an `fsutil behavior` setting is at `value`, from the registry
/// value it keeps (bit 31, the system-managed flag, ignored): last-access
/// updates count as disabled at 1 or 3, 8.3 names at exactly `value`. An
/// unknown operation or a missing value needs the `fsutil` query report.
pub fn fsutil_check(operation: &str, value: &str, read: &Result<Option<RegValue>, ZenouError>) -> (r: HookCheck)
    ensures
        match fsutil_value_spec(operation@) {
            Some(_) => match reg_dword_spec(crate::engine::read_view(*read)) {
                Some(v) => r == HookCheck::Decided(
                    if operation@ == "disablelastaccess"@ {
                        (v & 0x7FFF_FFFF) == 1 || (v & 0x7FFF_FFFF) == 3
                    } else {
                        decimal((v & 0x7FFF_FFFF) as nat) == value@
                    },
                ),
                None => r == HookCheck::NeedsReport,
            },
            None => r == HookCheck::NeedsReport,
        },
{
    match fsutil_value_name(operation) {
        None => HookCheck::NeedsReport,
        Some(_) => match reg_dword(read) {
            None => HookCheck::NeedsReport,
            Some(v) => {
                let eff = v & 0x7FFF_FFFF;
                if crate::text::str_eq(operation, "disablelastaccess") {
                    HookCheck::Decided(eff == 1 || eff == 3)
                } else {
                    let d = crate::text::decimal_string(eff as u64);
                    HookCheck::Decided(crate::text::str_eq(d.as_str(), value))
                }
            },
        },
    }
}

/// Whether the `fsutil behavior query` report mentions `value`.
pub fn fsutil_from_report(value: &str, report: &str) -> (r: bool)
    ensures
        r == seq_contains(report@, value@),
{
    let t = chars_of(report);
    contains_str(t.as_slice(), value)
}

} // verus!
