//! Operations of the tweak script that are deliberately not implemented,
//! with the reason shown to the user: ten blocked and eleven excluded.

use vstd::prelude::*;
use crate::text::owned;

verus! {

/// Why an operation is not implemented.
#[derive(Debug, Clone, Copy, PartialEq, Eq, Structural)]
pub enum FlagKind {
    /// Deliberately not implemented: security degradation, destructive, or unsafe.
    Blocked,
    /// Not a tweak, obsolete, ineffective, or superseded by a safer implementation.
    Excluded,
}

/// A script operation that is not implemented, with the reason.
pub struct FlaggedEntry {
    pub kind: FlagKind,
    /// The operation, summarized.
    pub operation: String,
    pub reason: String,
}

/// The flagged operations, in order: kind, operation and reason.
pub open spec fn flagged_table() -> Seq<(FlagKind, Seq<char>, Seq<char>)> {
    seq![
        (FlagKind::Blocked, "Disable SmartScreen (EnablingSmartScreen=0, SmartScreenEnabled=Off, web content evaluation off)"@, "Disables a core Windows security feature that warns about untrusted downloads and apps."@),
        (FlagKind::Blocked, "Disable CPU mitigations (FeatureSettings=1, FeatureSettingsOverride=3, EnableCfg=0, KernelSEHOPEnabled=0, DisableExceptionChainValidation=1, ProtectionMode=0, Set-ProcessMitigation -System -Disable ...)"@, "Disables Spectre/Meltdown and related CPU vulnerability mitigations. Security risk outweighs any measured benefit; Zenou does not modify security mitigations."@),
        (FlagKind::Blocked, "Disable VBS/HVCI/DeviceGuard (EnableVirtualizationBasedSecurity=0, HypervisorEnforcedCodeIntegrity=0, LsaCfgFlags=0, vsmlaunchtype Off, hypervisorlaunchtype Off)"@, "Turns off virtualization-based security and credential guard. Core security protections are not modified."@),
        (FlagKind::Blocked, "Permanently disable Windows Update (wuauserv/UsoSvc/WaaSMedicSvc/BITS start=4, NoAutoUpdate=1, DisableWindowsUpdateAccess=1, DoNotConnectToWindowsUpdateInternetLocations; deleting and re-creating SoftwareDistribution, killing SystemSettings.exe)"@, "Permanently disabling updates leaves the system unpatched. Zenou offers only the safe 'notify before download' option instead. Deleting the update files is destructive to the update component; only a previewed purge of the Download cache with service state restore is offered."@),
        (FlagKind::Blocked, "BCDEdit boot tweaks (disabledynamictick, useplatformtick, tscsyncpolicy, bootux, quietboot, nx optout/alwaysoff, allowedinmemorysettings, isolatedcontext, vsmlaunchtype, x2apicpolicy...)"@, "Modifies boot configuration data; several entries also disable DEP/NX. Errors here can make Windows unbootable and some options are ignored on modern UEFI systems."@),
        (FlagKind::Blocked, "GPU interrupt affinity pinning (DevicePolicy / AssignmentSetOverride on PCI devices)"@, "Pins device interrupts to specific cores; ineffective on modern interrupt controllers and can destabilize device interrupt handling."@),
        (FlagKind::Blocked, "NIC offload disables (taskoffload=disabled, Disable-NetAdapterLso, Disable-NetAdapterIPsecOffload, RSC off)"@, "Disabling TCP offloads increases CPU usage and breaks some VPN/security software; treated as a security/stability regression."@),
        (FlagKind::Excluded, "OverClock menu — download QuickCPU, Mem Reduct, MSI Util (Invoke-WebRequest from coderbag/GitHub/MediaFire)"@, "Zenou never downloads or runs third-party installers. Overclocking is out of scope for a system tweaks utility."@),
        (FlagKind::Excluded, "ipconfig /release (run unconditionally before /renew)"@, "Cuts network connectivity until renewal completes; replaced by an explicit 'Renew network adapters' action with confirmation."@),
        (FlagKind::Excluded, "del *.log /a /s /q /f on C:\\ (delete every .log on the drive)"@, "Deletes arbitrary application and system logs across the entire drive, including logs belonging to other software. Implemented instead as a narrowly-scoped, previewed cleanup."@),
        (FlagKind::Excluded, "deltree C:\\windows\\tempor~1, c:\\windows\\history, c:\\windows\\cookies, del C:\\WIN386.SWP"@, "Windows 9x-era paths and commands that do not exist on Windows 10/11 (deltree was removed after Windows Me)."@),
        (FlagKind::Excluded, "Set CSDVersion=1280/4096 ('200+ fps' tweak)"@, "Obsolete: CSDVersion described Windows NT service pack levels and does not influence rendering or frame rates; corrupting it misreports the OS version."@),
        (FlagKind::Excluded, "SetACL.exe permission rewrites on USB device keys"@, "Depends on a third-party binary that is not part of Windows. The registry changes it guarded are implemented directly where safe."@),
        (FlagKind::Excluded, "Tcpip QoS 'Do not use NLA' + XP-era TCP values (GlobalMaxTcpWindowSize=8760, TcpWindowSize, MaxUserPort)"@, "Legacy values ignored by the modern TCP stack; several are documented as deprecated since Windows Vista."@),
        (FlagKind::Excluded, "Open msconfig/devmgmt/control/Taskmgr/SystemPropertiesProtection windows"@, "Not a tweak — opens Windows dialogs. Zenou shows the same underlying settings itself."@),
        (FlagKind::Excluded, "Game folder openers for Fortnite/VALORANT (start Explorer at the install path)"@, "Not a tweak; opens a file location. The underlying priority tweaks are implemented individually."@),
        (FlagKind::Blocked, "time synchronization tasks disabled (ForceSynchronizeTime, SynchronizeTime)"@, "Would silently desync the system clock, breaking TLS and authentication. Kept enabled deliberately."@),
        (FlagKind::Blocked, "Delete AppPrivacy LetAppsRunInBackground and disable all background activity through the bam/dam services"@, "Killing the bam/dam services also breaks per-app energy reporting, and the script sets and then deletes the same value. Background apps are turned off through the supported GlobalUserDisabled settings instead (perf.background-apps-off)."@),
        (FlagKind::Blocked, "Uninstall Cortana appx (Get-AppxPackage *549981C3F5F10* | Remove-AppxPackage)"@, "Removing system components can break Windows Search updates. Search/Cortana policies are implemented without removing the package."@),
        (FlagKind::Excluded, "Encoded PowerShell blob (base64 -encodedCommand) reconfiguring USB/NIC power management"@, "Opaque obfuscated command execution is never acceptable; its useful effects (USB/NIC power settings) are implemented transparently."@),
        (FlagKind::Excluded, "HKCU\\Software\\NOVATweak access gate ('checking registry key' prompt that self-deletes the script)"@, "An anti-copy gimmick of the script, not a system tweak."@),
    ]
}

/// The kinds of the flagged operations, in order.
pub open spec fn flagged_kinds() -> Seq<FlagKind> {
    seq![FlagKind::Blocked, FlagKind::Blocked, FlagKind::Blocked, FlagKind::Blocked, FlagKind::Blocked, FlagKind::Blocked, FlagKind::Blocked, FlagKind::Excluded, FlagKind::Excluded, FlagKind::Excluded, FlagKind::Excluded, FlagKind::Excluded, FlagKind::Excluded, FlagKind::Excluded, FlagKind::Excluded, FlagKind::Excluded, FlagKind::Blocked, FlagKind::Blocked, FlagKind::Blocked, FlagKind::Excluded, FlagKind::Excluded]
}

/// The plain values of flagged entries.
pub open spec fn flagged_views(v: Seq<FlaggedEntry>) -> Seq<(FlagKind, Seq<char>, Seq<char>)> {
    v.map_values(|e: FlaggedEntry| (e.kind, e.operation@, e.reason@))
}

fn entry(kind: FlagKind, operation: &str, reason: &str) -> (e: FlaggedEntry)
    ensures
        e.kind == kind,
        e.operation@ == operation@,
        e.reason@ == reason@,
{
    FlaggedEntry { kind, operation: owned(operation), reason: owned(reason) }
}

/// Every meaningful operation of the script that is not implemented, with its reason.
pub fn flagged_entries() -> (v: Vec<FlaggedEntry>)
    ensures
        flagged_views(v@) == flagged_table(),
        v@.map_values(|e: FlaggedEntry| e.kind) == flagged_kinds(),
{
    let mut v: Vec<FlaggedEntry> = Vec::new();
    v.push(entry(
        FlagKind::Blocked,
        "Disable SmartScreen (EnablingSmartScreen=0, SmartScreenEnabled=Off, web content evaluation off)",
        "Disables a core Windows security feature that warns about untrusted downloads and apps.",
    ));
    v.push(entry(
        FlagKind::Blocked,
        "Disable CPU mitigations (FeatureSettings=1, FeatureSettingsOverride=3, EnableCfg=0, KernelSEHOPEnabled=0, DisableExceptionChainValidation=1, ProtectionMode=0, Set-ProcessMitigation -System -Disable ...)",
        "Disables Spectre/Meltdown and related CPU vulnerability mitigations. Security risk outweighs any measured benefit; Zenou does not modify security mitigations.",
    ));
    v.push(entry(
        FlagKind::Blocked,
        "Disable VBS/HVCI/DeviceGuard (EnableVirtualizationBasedSecurity=0, HypervisorEnforcedCodeIntegrity=0, LsaCfgFlags=0, vsmlaunchtype Off, hypervisorlaunchtype Off)",
        "Turns off virtualization-based security and credential guard. Core security protections are not modified.",
    ));
    v.push(entry(
        FlagKind::Blocked,
        "Permanently disable Windows Update (wuauserv/UsoSvc/WaaSMedicSvc/BITS start=4, NoAutoUpdate=1, DisableWindowsUpdateAccess=1, DoNotConnectToWindowsUpdateInternetLocations; deleting and re-creating SoftwareDistribution, killing SystemSettings.exe)",
        "Permanently disabling updates leaves the system unpatched. Zenou offers only the safe 'notify before download' option instead. Deleting the update files is destructive to the update component; only a previewed purge of the Download cache with service state restore is offered.",
    ));
    v.push(entry(
        FlagKind::Blocked,
        "BCDEdit boot tweaks (disabledynamictick, useplatformtick, tscsyncpolicy, bootux, quietboot, nx optout/alwaysoff, allowedinmemorysettings, isolatedcontext, vsmlaunchtype, x2apicpolicy...)",
        "Modifies boot configuration data; several entries also disable DEP/NX. Errors here can make Windows unbootable and some options are ignored on modern UEFI systems.",
    ));
    v.push(entry(
        FlagKind::Blocked,
        "GPU interrupt affinity pinning (DevicePolicy / AssignmentSetOverride on PCI devices)",
        "Pins device interrupts to specific cores; ineffective on modern interrupt controllers and can destabilize device interrupt handling.",
    ));
    v.push(entry(
        FlagKind::Blocked,
        "NIC offload disables (taskoffload=disabled, Disable-NetAdapterLso, Disable-NetAdapterIPsecOffload, RSC off)",
        "Disabling TCP offloads increases CPU usage and breaks some VPN/security software; treated as a security/stability regression.",
    ));
    v.push(entry(
        FlagKind::Excluded,
        "OverClock menu — download QuickCPU, Mem Reduct, MSI Util (Invoke-WebRequest from coderbag/GitHub/MediaFire)",
        "Zenou never downloads or runs third-party installers. Overclocking is out of scope for a system tweaks utility.",
    ));
    v.push(entry(
        FlagKind::Excluded,
        "ipconfig /release (run unconditionally before /renew)",
        "Cuts network connectivity until renewal completes; replaced by an explicit 'Renew network adapters' action with confirmation.",
    ));
    v.push(entry(
        FlagKind::Excluded,
        "del *.log /a /s /q /f on C:\\ (delete every .log on the drive)",
        "Deletes arbitrary application and system logs across the entire drive, including logs belonging to other software. Implemented instead as a narrowly-scoped, previewed cleanup.",
    ));
    v.push(entry(
        FlagKind::Excluded,
        "deltree C:\\windows\\tempor~1, c:\\windows\\history, c:\\windows\\cookies, del C:\\WIN386.SWP",
        "Windows 9x-era paths and commands that do not exist on Windows 10/11 (deltree was removed after Windows Me).",
    ));
    v.push(entry(
        FlagKind::Excluded,
        "Set CSDVersion=1280/4096 ('200+ fps' tweak)",
        "Obsolete: CSDVersion described Windows NT service pack levels and does not influence rendering or frame rates; corrupting it misreports the OS version.",
    ));
    v.push(entry(
        FlagKind::Excluded,
        "SetACL.exe permission rewrites on USB device keys",
        "Depends on a third-party binary that is not part of Windows. The registry changes it guarded are implemented directly where safe.",
    ));
    v.push(entry(
        FlagKind::Excluded,
        "Tcpip QoS 'Do not use NLA' + XP-era TCP values (GlobalMaxTcpWindowSize=8760, TcpWindowSize, MaxUserPort)",
        "Legacy values ignored by the modern TCP stack; several are documented as deprecated since Windows Vista.",
    ));
    v.push(entry(
        FlagKind::Excluded,
        "Open msconfig/devmgmt/control/Taskmgr/SystemPropertiesProtection windows",
        "Not a tweak — opens Windows dialogs. Zenou shows the same underlying settings itself.",
    ));
    v.push(entry(
        FlagKind::Excluded,
        "Game folder openers for Fortnite/VALORANT (start Explorer at the install path)",
        "Not a tweak; opens a file location. The underlying priority tweaks are implemented individually.",
    ));
    v.push(entry(
        FlagKind::Blocked,
        "time synchronization tasks disabled (ForceSynchronizeTime, SynchronizeTime)",
        "Would silently desync the system clock, breaking TLS and authentication. Kept enabled deliberately.",
    ));
    v.push(entry(
        FlagKind::Blocked,
        "Delete AppPrivacy LetAppsRunInBackground and disable all background activity through the bam/dam services",
        "Killing the bam/dam services also breaks per-app energy reporting, and the script sets and then deletes the same value. Background apps are turned off through the supported GlobalUserDisabled settings instead (perf.background-apps-off).",
    ));
    v.push(entry(
        FlagKind::Blocked,
        "Uninstall Cortana appx (Get-AppxPackage *549981C3F5F10* | Remove-AppxPackage)",
        "Removing system components can break Windows Search updates. Search/Cortana policies are implemented without removing the package.",
    ));
    v.push(entry(
        FlagKind::Excluded,
        "Encoded PowerShell blob (base64 -encodedCommand) reconfiguring USB/NIC power management",
        "Opaque obfuscated command execution is never acceptable; its useful effects (USB/NIC power settings) are implemented transparently.",
    ));
    v.push(entry(
        FlagKind::Excluded,
        "HKCU\\Software\\NOVATweak access gate ('checking registry key' prompt that self-deletes the script)",
        "An anti-copy gimmick of the script, not a system tweak.",
    ));
    assert(flagged_views(v@) =~= flagged_table());
    assert(v@.map_values(|e: FlaggedEntry| e.kind) =~= flagged_kinds());
    v
}

} // verus!
