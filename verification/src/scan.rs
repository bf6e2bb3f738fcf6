//! System scan: hardware facts the catalog and state detection depend on, and
//! the pure parts of assembling a scan report.

use vstd::prelude::*;
use crate::text::{chars_of, contains_str, decimal, first_occurrence, opt_view, push_decimal, push_str, seq_contains, to_lowercase, trim, lowercase_of};

verus! {

/// GPU vendor families the catalog distinguishes.
#[derive(Debug, Clone, Copy, PartialEq, Eq, Structural)]
pub enum GpuVendor {
    Nvidia,
    Amd,
    Intel,
    Other,
}

/// The vendor named in a lowercase adapter description.
pub open spec fn vendor_of(n: Seq<char>) -> GpuVendor {
    if seq_contains(n, "nvidia"@) || seq_contains(n, "geforce"@) || seq_contains(n, "quadro"@)
        || seq_contains(n, "rtx"@) || seq_contains(n, "gtx"@) {
        GpuVendor::Nvidia
    } else if seq_contains(n, "amd"@) || seq_contains(n, "radeon"@) || seq_contains(n, "rx "@)
        || seq_contains(n, "vega"@) {
        GpuVendor::Amd
    } else if seq_contains(n, "intel"@) || seq_contains(n, "iris"@) || seq_contains(n, "uhd"@)
        || seq_contains(n, "hd graphics"@) {
        GpuVendor::Intel
    } else {
        GpuVendor::Other
    }
}

/// The words that mark an NVIDIA adapter.
pub open spec fn nvidia_markers() -> Seq<Seq<char>> {
    seq!["nvidia"@, "geforce"@, "quadro"@, "rtx"@, "gtx"@]
}

/// The words that mark an AMD adapter.
pub open spec fn amd_markers() -> Seq<Seq<char>> {
    seq!["amd"@, "radeon"@, "rx "@, "vega"@]
}

/// The words that mark an Intel adapter.
pub open spec fn intel_markers() -> Seq<Seq<char>> {
    seq!["intel"@, "iris"@, "uhd"@, "hd graphics"@]
}

/// Some word of `words` occurs in `n`.
pub open spec fn marked(n: Seq<char>, words: Seq<Seq<char>>) -> bool {
    exists|k: int| 0 <= k < words.len() && seq_contains(n, #[trigger] words[k])
}

/// The vendor follows the marker words, NVIDIA first, then AMD, then Intel:
/// any NVIDIA word makes it NVIDIA; otherwise any AMD word makes it AMD;
/// otherwise any Intel word makes it Intel; a name with none is another
/// vendor's.
pub proof fn law_vendor_markers(n: Seq<char>)
    ensures
        forall|k: int| 0 <= k < nvidia_markers().len() && seq_contains(n, #[trigger] nvidia_markers()[k]) ==> vendor_of(n)
            == GpuVendor::Nvidia,
        forall|k: int|
            0 <= k < amd_markers().len() && seq_contains(n, #[trigger] amd_markers()[k]) && !marked(n, nvidia_markers())
                ==> vendor_of(n) == GpuVendor::Amd,
        forall|k: int|
            0 <= k < intel_markers().len() && seq_contains(n, #[trigger] intel_markers()[k]) && !marked(
                n,
                nvidia_markers(),
            ) && !marked(n, amd_markers()) ==> vendor_of(n) == GpuVendor::Intel,
        !marked(n, nvidia_markers()) && !marked(n, amd_markers()) && !marked(n, intel_markers()) ==> vendor_of(n)
            == GpuVendor::Other,
{
    let nm = nvidia_markers();
    let am = amd_markers();
    let im = intel_markers();
    assert(nm[0] == "nvidia"@ && nm[1] == "geforce"@ && nm[2] == "quadro"@ && nm[3] == "rtx"@ && nm[4] == "gtx"@);
    assert(am[0] == "amd"@ && am[1] == "radeon"@ && am[2] == "rx "@ && am[3] == "vega"@);
    assert(im[0] == "intel"@ && im[1] == "iris"@ && im[2] == "uhd"@ && im[3] == "hd graphics"@);
    let nv = seq_contains(n, "nvidia"@) || seq_contains(n, "geforce"@) || seq_contains(n, "quadro"@) || seq_contains(
        n,
        "rtx"@,
    ) || seq_contains(n, "gtx"@);
    let amd = seq_contains(n, "amd"@) || seq_contains(n, "radeon"@) || seq_contains(n, "rx "@) || seq_contains(
        n,
        "vega"@,
    );
    let intel = seq_contains(n, "intel"@) || seq_contains(n, "iris"@) || seq_contains(n, "uhd"@) || seq_contains(
        n,
        "hd graphics"@,
    );
    if nv {
        if seq_contains(n, "nvidia"@) {
            assert(seq_contains(n, nm[0]));
        } else if seq_contains(n, "geforce"@) {
            assert(seq_contains(n, nm[1]));
        } else if seq_contains(n, "quadro"@) {
            assert(seq_contains(n, nm[2]));
        } else if seq_contains(n, "rtx"@) {
            assert(seq_contains(n, nm[3]));
        } else {
            assert(seq_contains(n, nm[4]));
        }
        assert(marked(n, nm));
    } else {
        assert forall|k: int| 0 <= k < nm.len() implies !seq_contains(n, #[trigger] nm[k]) by {
            if k == 0 {} else if k == 1 {} else if k == 2 {} else if k == 3 {} else {}
        }
    }
    if amd {
        if seq_contains(n, "amd"@) {
            assert(seq_contains(n, am[0]));
        } else if seq_contains(n, "radeon"@) {
            assert(seq_contains(n, am[1]));
        } else if seq_contains(n, "rx "@) {
            assert(seq_contains(n, am[2]));
        } else {
            assert(seq_contains(n, am[3]));
        }
        assert(marked(n, am));
    } else {
        assert forall|k: int| 0 <= k < am.len() implies !seq_contains(n, #[trigger] am[k]) by {
            if k == 0 {} else if k == 1 {} else if k == 2 {} else {}
        }
    }
    if intel {
        if seq_contains(n, "intel"@) {
            assert(seq_contains(n, im[0]));
        } else if seq_contains(n, "iris"@) {
            assert(seq_contains(n, im[1]));
        } else if seq_contains(n, "uhd"@) {
            assert(seq_contains(n, im[2]));
        } else {
            assert(seq_contains(n, im[3]));
        }
        assert(marked(n, im));
    } else {
        assert forall|k: int| 0 <= k < im.len() implies !seq_contains(n, #[trigger] im[k]) by {
            if k == 0 {} else if k == 1 {} else if k == 2 {} else {}
        }
    }
}

impl GpuVendor {
    /// The vendor of an adapter, from its description (case-insensitive).
    pub fn detect(name: &str) -> (v: GpuVendor)
        ensures
            v == vendor_of(lowercase_of(name@)),
            marked(lowercase_of(name@), nvidia_markers()) ==> v == GpuVendor::Nvidia,
            !marked(lowercase_of(name@), nvidia_markers()) && marked(lowercase_of(name@), amd_markers()) ==> v
                == GpuVendor::Amd,
            !marked(lowercase_of(name@), nvidia_markers()) && !marked(lowercase_of(name@), amd_markers()) && marked(
                lowercase_of(name@),
                intel_markers(),
            ) ==> v == GpuVendor::Intel,
            !marked(lowercase_of(name@), nvidia_markers()) && !marked(lowercase_of(name@), amd_markers()) && !marked(
                lowercase_of(name@),
                intel_markers(),
            ) ==> v == GpuVendor::Other,
    {
        proof {
            law_vendor_markers(lowercase_of(name@));
        }
        let low = to_lowercase(name);
        let n = chars_of(low.as_str());
        let s = n.as_slice();
        if contains_str(s, "nvidia") || contains_str(s, "geforce") || contains_str(s, "quadro")
            || contains_str(s, "rtx") || contains_str(s, "gtx") {
            GpuVendor::Nvidia
        } else if contains_str(s, "amd") || contains_str(s, "radeon") || contains_str(s, "rx ")
            || contains_str(s, "vega") {
            GpuVendor::Amd
        } else if contains_str(s, "intel") || contains_str(s, "iris") || contains_str(s, "uhd")
            || contains_str(s, "hd graphics") {
            GpuVendor::Intel
        } else {
            GpuVendor::Other
        }
    }
}

/// What hardware-conditional tweaks look at: the primary GPU's vendor (when a
/// display adapter was found) and the CPU vendor (when the scan succeeded).
pub struct HardwareFacts {
    pub primary_gpu: Option<GpuVendor>,
    pub cpu_vendor: Option<String>,
}


/// A display adapter.
pub struct GpuInfo {
    pub name: String,
    pub vendor: GpuVendor,
    pub driver_version: Option<String>,
}

/// A volume or physical disk.
pub struct DiskInfo {
    pub model: String,
    pub size_gb: Option<u64>,
    pub drive_letter: Option<String>,
    pub total_gb: Option<u64>,
    pub free_gb: Option<u64>,
}

/// A network adapter.
pub struct NetAdapterInfo {
    pub name: String,
    pub description: String,
    pub interface_guid: String,
    pub status: String,
}

/// The digits of a decimal numeral, after an optional leading `+`.
pub open spec fn numeral_digits(s: Seq<char>) -> Seq<char> {
    if s.len() > 0 && s[0] == '+' {
        s.drop_first()
    } else {
        s
    }
}

/// `s` is one or more ASCII digits.
pub open spec fn all_digits(s: Seq<char>) -> bool {
    s.len() > 0 && forall|i: int| 0 <= i < s.len() ==> '0' <= #[trigger] s[i] && s[i] <= '9'
}

/// The value of a string of ASCII digits.
pub open spec fn digits_value(s: Seq<char>) -> nat
    decreases s.len(),
{
    if s.len() == 0 {
        0
    } else {
        digits_value(s.drop_last()) * 10 + ((s.last() as int) - ('0' as int)) as nat
    }
}

/// What `str::parse::<u64>` gives: the value of an optional `+` followed by
/// one or more ASCII digits, when it fits; nothing for any other text.
pub open spec fn parsed_u64(s: Seq<char>) -> Option<u64> {
    let d = numeral_digits(s);
    if all_digits(d) && digits_value(d) <= u64::MAX {
        Some(digits_value(d) as u64)
    } else {
        None
    }
}

/// The value of a decimal numeral (optional `+`, then ASCII digits only)
/// when it is at most `limit`; nothing otherwise.
fn parse_decimal(s: &str, limit: u64) -> (r: Option<u64>)
    ensures
        ({
            let d = numeral_digits(s@);
            r == if all_digits(d) && digits_value(d) <= limit {
                Some(digits_value(d) as u64)
            } else {
                None::<u64>
            }
        }),
{
    let cs = chars_of(s);
    let ghost d = numeral_digits(s@);
    let start: usize = if cs.len() > 0 && cs[0] == '+' { 1 } else { 0 };
    assert(d =~= cs@.subrange(start as int, cs@.len() as int));
    if start == cs.len() {
        return None;
    }
    let mut acc: u64 = 0;
    let mut over = false;
    let mut i: usize = start;
    assert(cs@.subrange(start as int, start as int) =~= Seq::<char>::empty());
    while i < cs.len()
        invariant
            d == numeral_digits(s@),
            d == cs@.subrange(start as int, cs@.len() as int),
            start <= i <= cs@.len(),
            start < cs@.len(),
            forall|j: int| start <= j < i ==> '0' <= #[trigger] cs@[j] && cs@[j] <= '9',
            !over ==> acc == digits_value(cs@.subrange(start as int, i as int)) && acc <= limit,
            over ==> digits_value(cs@.subrange(start as int, i as int)) > limit,
        decreases cs.len() - i,
    {
        let c = cs[i];
        if c < '0' || c > '9' {
            assert(d[i - start] == c);
            assert(!all_digits(d));
            return None;
        }
        let ghost pre = cs@.subrange(start as int, i as int);
        let ghost next = cs@.subrange(start as int, i + 1);
        assert(next.drop_last() =~= pre);
        assert(next.last() == c);
        let dv: u64 = ((c as u32) - ('0' as u32)) as u64;
        assert(digits_value(next) == digits_value(pre) * 10 + dv);
        if over {
            assert(digits_value(pre) * 10 + dv >= digits_value(pre)) by (nonlinear_arith)
                requires
                    dv >= 0,
                    digits_value(pre) >= 0,
            ;
        } else if dv > limit || acc > (limit - dv) / 10 {
            assert(acc * 10 + dv > limit) by (nonlinear_arith)
                requires
                    dv > limit || acc > (limit - dv) / 10,
                    acc >= 0,
            ;
            over = true;
        } else {
            assert(acc * 10 + dv <= limit) by (nonlinear_arith)
                requires
                    acc <= (limit - dv) / 10,
                    dv <= limit,
            ;
            acc = acc * 10 + dv;
        }
        i = i + 1;
    }
    if over {
        None
    } else {
        Some(acc)
    }
}

/// `str::parse::<u64>` on a numeral: its value when it fits in 64 bits.
fn parse_u64(s: &str) -> (r: Option<u64>)
    ensures
        r == parsed_u64(s@),
{
    parse_decimal(s, u64::MAX)
}

/// What `str::parse::<u32>` gives: the value of an optional `+` followed by
/// one or more ASCII digits, when it fits; nothing for any other text.
pub open spec fn parsed_u32(s: Seq<char>) -> Option<u32> {
    let d = numeral_digits(s);
    if all_digits(d) && digits_value(d) <= u32::MAX {
        Some(digits_value(d) as u32)
    } else {
        None
    }
}

/// `str::parse::<u32>` on a numeral: its value when it fits in 32 bits.
fn parse_u32(s: &str) -> (r: Option<u32>)
    ensures
        r == parsed_u32(s@),
{
    match parse_decimal(s, 0xFFFF_FFFF) {
        Some(v) => Some(v as u32),
        None => None,
    }
}

/// Uptime as "Dd Hh Mm", "Hh Mm" or "Mm".
pub open spec fn uptime_spec(secs: nat) -> Seq<char> {
    let days = secs / 86400;
    let hours = (secs % 86400) / 3600;
    let mins = (secs % 3600) / 60;
    if days > 0 {
        decimal(days) + "d "@ + decimal(hours) + "h "@ + decimal(mins) + "m"@
    } else if hours > 0 {
        decimal(hours) + "h "@ + decimal(mins) + "m"@
    } else {
        decimal(mins) + "m"@
    }
}

/// The uptime shown for `secs` seconds.
pub fn format_uptime(secs: u64) -> (r: String)
    ensures
        r@ == uptime_spec(secs as nat),
{
    let days = secs / 86400;
    let hours = (secs % 86400) / 3600;
    let mins = (secs % 3600) / 60;
    let mut r = String::new();
    if days > 0 {
        push_decimal(&mut r, days);
        push_str(&mut r, "d ");
        push_decimal(&mut r, hours);
        push_str(&mut r, "h ");
        push_decimal(&mut r, mins);
        push_str(&mut r, "m");
    } else if hours > 0 {
        push_decimal(&mut r, hours);
        push_str(&mut r, "h ");
        push_decimal(&mut r, mins);
        push_str(&mut r, "m");
    } else {
        push_decimal(&mut r, mins);
        push_str(&mut r, "m");
    }
    assert(r@ =~= uptime_spec(secs as nat));
    r
}

/// The Windows version shown: DisplayVersion when set, otherwise ReleaseId.
pub fn windows_version(display_version: String, release_id: String) -> (r: String)
    ensures
        r@ == if display_version@.len() > 0 {
            display_version@
        } else {
            release_id@
        },
{
    if display_version.unicode_len() > 0 {
        display_version
    } else {
        release_id
    }
}

/// The build shown: "build.UBR" when the update revision is known and non-zero.
pub fn windows_build(build: String, ubr: u32) -> (r: String)
    ensures
        r@ == if ubr > 0 {
            build@ + "."@ + decimal(ubr as nat)
        } else {
            build@
        },
{
    if ubr > 0 {
        let mut r = build;
        push_str(&mut r, ".");
        push_decimal(&mut r, ubr as u64);
        r
    } else {
        build
    }
}

/// The CPU vendor named by the processor's VendorIdentifier.
pub fn cpu_vendor_name(vendor_identifier: &str) -> (r: &'static str)
    ensures
        r@ == if seq_contains(vendor_identifier@, "GenuineIntel"@) {
            "Intel"@
        } else if seq_contains(vendor_identifier@, "AuthenticAMD"@) {
            "AMD"@
        } else {
            "Unknown"@
        },
{
    let v = chars_of(vendor_identifier);
    if contains_str(v.as_slice(), "GenuineIntel") {
        "Intel"
    } else if contains_str(v.as_slice(), "AuthenticAMD") {
        "AMD"
    } else {
        "Unknown"
    }
}

/// (cores, threads): threads are the processor keys found (at least one);
/// cores come from NUMBER_OF_PROCESSORS when it parses, at least one and at
/// most the thread count.
pub open spec fn cpu_counts_spec(keys_found: u32, env_cores: Option<Seq<char>>) -> (u32, u32) {
    let threads: u32 = if keys_found == 0 {
        1
    } else {
        keys_found
    };
    let c0: u32 = match env_cores {
        Some(v) => match parsed_u32(v) {
            Some(c) => c,
            None => threads,
        },
        None => threads,
    };
    let c1: u32 = if c0 < 1 {
        1
    } else {
        c0
    };
    (if c1 < threads {
        c1
    } else {
        threads
    }, threads)
}

/// Core and thread counts from the processor keys found and NUMBER_OF_PROCESSORS.
pub fn cpu_counts(keys_found: u32, env_cores: Option<String>) -> (r: (u32, u32))
    ensures
        r == cpu_counts_spec(keys_found, opt_view(env_cores)),
{
    let threads: u32 = if keys_found == 0 {
        1
    } else {
        keys_found
    };
    let c0: u32 = match &env_cores {
        Some(v) => match parse_u32(v.as_str()) {
            Some(c) => c,
            None => threads,
        },
        None => threads,
    };
    let c1: u32 = if c0 < 1 {
        1
    } else {
        c0
    };
    (if c1 < threads {
        c1
    } else {
        threads
    }, threads)
}

/// A display adapter entry is listed when its description is known, not
/// empty and not a virtual adapter.
pub open spec fn gpu_listed(desc: Option<Seq<char>>) -> bool {
    desc matches Some(d) && d.len() > 0 && !seq_contains(lowercase_of(d), "virtual"@)
}

/// The adapter of one display class key, given its DriverDesc and DriverVersion.
pub fn gpu_entry(desc: Option<String>, driver: Option<String>) -> (r: Option<GpuInfo>)
    ensures
        gpu_listed(opt_view(desc)) ==> (r matches Some(g) && Some(g.name@) == opt_view(desc) && g.vendor
            == vendor_of(lowercase_of(g.name@)) && opt_view(g.driver_version) == opt_view(driver)),
        !gpu_listed(opt_view(desc)) ==> r is None,
{
    match desc {
        None => None,
        Some(d) => {
            if d.unicode_len() == 0 {
                return None;
            }
            let low = to_lowercase(d.as_str());
            let lv = chars_of(low.as_str());
            if contains_str(lv.as_slice(), "virtual") {
                return None;
            }
            let vendor = GpuVendor::detect(d.as_str());
            Some(GpuInfo { name: d, vendor, driver_version: driver })
        },
    }
}

/// The vendor of the first listed adapter (the primary one).
pub fn primary_gpu_vendor(gpus: &Vec<GpuInfo>) -> (r: Option<GpuVendor>)
    ensures
        r == if gpus@.len() > 0 {
            Some(gpus@[0].vendor)
        } else {
            None
        },
{
    if gpus.len() > 0 {
        Some(gpus[0].vendor)
    } else {
        None
    }
}

/// The hardware facts the catalog looks at, from the adapters found and the
/// scanned CPU vendor (absent when the scan failed).
pub fn hardware_facts(gpus: &Vec<GpuInfo>, cpu_vendor: Option<String>) -> (f: HardwareFacts)
    ensures
        f.primary_gpu == (if gpus@.len() > 0 {
            Some(gpus@[0].vendor)
        } else {
            None
        }),
        opt_view(f.cpu_vendor) == opt_view(cpu_vendor),
{
    HardwareFacts { primary_gpu: primary_gpu_vendor(gpus), cpu_vendor }
}

/// The number of whole GiB in `bytes`.
pub open spec fn gib(bytes: nat) -> nat {
    bytes / (1024 * 1024 * 1024)
}

/// A fixed volume with its total and free space.
pub fn volume_info(letter: char, total_bytes: u64, free_bytes: u64) -> (d: DiskInfo)
    ensures
        d.model@ == seq![letter] + ": Volume"@,
        opt_view(d.drive_letter) == Some(seq![letter, ':']),
        d.size_gb == Some(gib(total_bytes as nat) as u64),
        d.total_gb == Some(gib(total_bytes as nat) as u64),
        d.free_gb == Some(gib(free_bytes as nat) as u64),
{
    let total = total_bytes / (1024 * 1024 * 1024);
    let free = free_bytes / (1024 * 1024 * 1024);
    let mut model = String::new();
    crate::text::push_char(&mut model, letter);
    push_str(&mut model, ": Volume");
    let mut dl = String::new();
    crate::text::push_char(&mut dl, letter);
    crate::text::push_char(&mut dl, ':');
    assert(model@ =~= seq![letter] + ": Volume"@);
    assert(dl@ =~= seq![letter, ':']);
    DiskInfo { model, size_gb: Some(total), drive_letter: Some(dl), total_gb: Some(total), free_gb: Some(free) }
}

/// A network adapter entry: named by its connection name, else its description;
/// available when its service has a Start value.
pub fn adapter_info(service: String, description: Option<String>, conn_name: Option<String>, start_present: bool) -> (a: NetAdapterInfo)
    ensures
        a.interface_guid@ == service@,
        a.description@ == match opt_view(description) {
            Some(d) => d,
            None => Seq::empty(),
        },
        a.name@ == match opt_view(conn_name) {
            Some(n) => n,
            None => a.description@,
        },
        a.status@ == if start_present {
            "Available"@
        } else {
            "Unknown"@
        },
{
    let description = match description {
        Some(d) => d,
        None => String::new(),
    };
    let name = match conn_name {
        Some(n) => n,
        None => crate::text::copy_string(&description),
    };
    let status = if start_present {
        crate::text::owned("Available")
    } else {
        crate::text::owned("Unknown")
    };
    NetAdapterInfo { name, description, interface_guid: service, status }
}

// ---------------------------------------------------------------- physical disks

/// The models of the disks listed so far.
pub open spec fn disk_models(v: Seq<DiskInfo>) -> Seq<Seq<char>> {
    v.map_values(|d: DiskInfo| d.model@)
}

/// A disk device is listed under its friendly name, else its device
/// description, unless it has neither, is virtual, or a disk of that model
/// is listed already.
pub open spec fn disk_model(friendly: Option<Seq<char>>, desc: Option<Seq<char>>) -> Option<Seq<char>> {
    match friendly {
        Some(f) => Some(f),
        None => desc,
    }
}

/// Whether a device of model `m` joins the disks already found.
pub open spec fn disk_listed(m: Option<Seq<char>>, found: Seq<Seq<char>>) -> bool {
    m matches Some(x) && !seq_contains(lowercase_of(x), "virtual"@) && !found.contains(x)
}

/// The disk a device key describes, given its FriendlyName and DeviceDesc
/// and the disks found before it.
pub fn physical_disk_entry(friendly: Option<String>, desc: Option<String>, found: &Vec<DiskInfo>) -> (r: Option<DiskInfo>)
    ensures
        disk_listed(disk_model(opt_view(friendly), opt_view(desc)), disk_models(found@)) ==> (r matches Some(d)
            && Some(d.model@) == disk_model(opt_view(friendly), opt_view(desc)) && d.size_gb is None
            && d.drive_letter is None && d.total_gb is None && d.free_gb is None),
        !disk_listed(disk_model(opt_view(friendly), opt_view(desc)), disk_models(found@)) ==> r is None,
{
    let ghost m = disk_model(opt_view(friendly), opt_view(desc));
    let model = match friendly {
        Some(f) => f,
        None => match desc {
            Some(d) => d,
            None => return None,
        },
    };
    let low = to_lowercase(model.as_str());
    let lv = chars_of(low.as_str());
    if contains_str(lv.as_slice(), "virtual") {
        return None;
    }
    let mut i: usize = 0;
    let mut dup = false;
    while i < found.len()
        invariant
            i <= found@.len(),
            dup ==> disk_models(found@).contains(model@),
            !dup ==> forall|k: int| 0 <= k < i ==> disk_models(found@)[k] != model@,
        decreases found.len() - i,
    {
        if crate::text::str_eq(found[i].model.as_str(), model.as_str()) {
            assert(disk_models(found@)[i as int] == model@);
            dup = true;
        }
        i = i + 1;
    }
    if dup {
        return None;
    }
    assert(!disk_models(found@).contains(model@));
    Some(DiskInfo { model, size_gb: None, drive_letter: None, total_gb: None, free_gb: None })
}

/// `s` split at its first `|`: what precedes it, and what follows it when there is one.
pub open spec fn split_bar(s: Seq<char>) -> (Seq<char>, Option<Seq<char>>) {
    if exists|i: int| first_occurrence(s, seq!['|'], i) {
        let i = choose|i: int| first_occurrence(s, seq!['|'], i);
        (s.subrange(0, i), Some(s.subrange(i + 1, s.len() as int)))
    } else {
        (s, None)
    }
}

/// The disk a line of the disk listing describes: the line trimmed and split
/// at `|` into its model and its size in GB (when the second field parses).
pub open spec fn disk_line(l: Seq<char>) -> (Seq<char>, Option<u64>) {
    let (model, rest) = split_bar(trim(l));
    (trim(model), match rest {
        Some(r) => parsed_u64(trim(split_bar(r).0)),
        None => None,
    })
}

/// At most the first 64 lines of a listing.
pub open spec fn listing_prefix(ls: Seq<Seq<char>>) -> Seq<Seq<char>> {
    if ls.len() <= 64 {
        ls
    } else {
        ls.subrange(0, 64)
    }
}

/// The first `|` in `s`.
fn first_bar(s: &[char]) -> (r: Option<usize>)
    ensures
        match r {
            Some(i) => i < s@.len() && split_bar(s@) == (s@.subrange(0, i as int), Some(
                s@.subrange(i + 1, s@.len() as int),
            )),
            None => split_bar(s@) == (s@, None::<Seq<char>>),
        },
{
    let bar = chars_of("|");
    proof {
        reveal_strlit("|");
        assert(bar@ =~= seq!['|']);
    }
    match crate::text::find_seq(s, bar.as_slice()) {
        Some(i) => {
            proof {
                let j = choose|j: int| first_occurrence(s@, seq!['|'], j);
                if j < i {
                    assert(!crate::text::occurs_at(s@, seq!['|'], j));
                }
                if i < j {
                    assert(!crate::text::occurs_at(s@, seq!['|'], i as int));
                }
                assert(j == i);
            }
            Some(i)
        },
        None => None,
    }
}

/// The disk described by one line of the disk listing.
pub fn disk_from_line(l: &[char]) -> (d: DiskInfo)
    ensures
        d.model@ == disk_line(l@).0,
        d.size_gb == disk_line(l@).1,
        d.total_gb == disk_line(l@).1,
        d.drive_letter is None,
        d.free_gb is None,
{
    let t = crate::text::trim_chars(l);
    match first_bar(t.as_slice()) {
        Some(i) => {
            let n = t.len();
            let head = crate::text::slice_range(t.as_slice(), 0, i);
            let rest = crate::text::slice_range(t.as_slice(), i + 1, n);
            let second = match first_bar(rest.as_slice()) {
                Some(j) => crate::text::slice_range(rest.as_slice(), 0, j),
                None => rest,
            };
            let st = crate::text::trim_chars(second.as_slice());
            let ss = crate::text::string_of(st.as_slice());
            let size = parse_u64(ss.as_str());
            let m = crate::text::trim_chars(head.as_slice());
            DiskInfo {
                model: crate::text::string_of(m.as_slice()),
                size_gb: size,
                drive_letter: None,
                total_gb: size,
                free_gb: None,
            }
        },
        None => {
            let m = crate::text::trim_chars(t.as_slice());
            DiskInfo { model: crate::text::string_of(m.as_slice()), size_gb: None, drive_letter: None, total_gb: None, free_gb: None }
        },
    }
}

/// The disks of a `model|size` disk listing: one per line, at most 64.
#[verifier::spinoff_prover]
pub fn parse_disk_report(text: &[char]) -> (r: Vec<DiskInfo>)
    ensures
        r@.len() == listing_prefix(crate::text::lines(text@)).len(),
        forall|k: int| 0 <= k < r@.len() ==> {
            let e = disk_line(#[trigger] listing_prefix(crate::text::lines(text@))[k]);
            &&& r@[k].model@ == e.0
            &&& r@[k].size_gb == e.1
            &&& r@[k].total_gb == e.1
            &&& r@[k].drive_letter is None
            &&& r@[k].free_gb is None
        },
{
    let ls = crate::text::lines_of(text);
    let ghost all = crate::text::lines(text@);
    let ghost pre = listing_prefix(all);
    let n: usize = if ls.len() <= 64 {
        ls.len()
    } else {
        64
    };
    let mut out: Vec<DiskInfo> = Vec::new();
    let mut i: usize = 0;
    while i < n
        invariant
            crate::text::views_eq(ls@, all),
            pre == listing_prefix(all),
            n == pre.len(),
            n <= ls@.len(),
            i <= n,
            out@.len() == i,
            forall|k: int| 0 <= k < i ==> {
                let e = disk_line(#[trigger] pre[k]);
                &&& out@[k].model@ == e.0
                &&& out@[k].size_gb == e.1
                &&& out@[k].total_gb == e.1
                &&& out@[k].drive_letter is None
                &&& out@[k].free_gb is None
            },
        decreases n - i,
    {
        assert(pre[i as int] == ls@[i as int]@);
        let d = disk_from_line(ls[i].as_slice());
        out.push(d);
        i = i + 1;
    }
    assert(all == crate::text::lines(text@));
    assert forall|k: int| 0 <= k < out@.len() implies {
        let e = disk_line(#[trigger] listing_prefix(crate::text::lines(text@))[k]);
        &&& out@[k].model@ == e.0
        &&& out@[k].size_gb == e.1
        &&& out@[k].total_gb == e.1
        &&& out@[k].drive_letter is None
        &&& out@[k].free_gb is None
    } by {
        assert(pre[k] == listing_prefix(crate::text::lines(text@))[k]);
    }
    out
}

/// The disks reported by the disk listing fallback: none when it could not
/// run or failed.
pub fn physical_disks_from_report(run: &Result<crate::winapi::Output, crate::error::ZenouError>) -> (r: Vec<DiskInfo>)
    ensures
        match run {
            Ok(o) => if o.exit_code == 0 {
                r@.len() == listing_prefix(crate::text::lines(crate::winapi::out_stdout(*o))).len()
                    && forall|k: int| 0 <= k < r@.len() ==> {
                    let e = disk_line(
                        #[trigger] listing_prefix(crate::text::lines(crate::winapi::out_stdout(*o)))[k],
                    );
                    r@[k].model@ == e.0 && r@[k].size_gb == e.1 && r@[k].total_gb == e.1
                }
            } else {
                r@.len() == 0
            },
            Err(_) => r@.len() == 0,
        },
{
    match run {
        Ok(o) => {
            if o.exit_code != 0 {
                return Vec::new();
            }
            let text = o.stdout_str();
            let tv = chars_of(text.as_str());
            parse_disk_report(tv.as_slice())
        },
        Err(_) => Vec::new(),
    }
}

/// The disk listing used when the device registry names no disk.
pub fn disk_listing_command() -> (c: crate::winapi::Command)
    ensures
        crate::winapi::command_is(
            c,
            "powershell.exe"@,
            seq![
                "-NoProfile"@,
                "-NonInteractive"@,
                "-ExecutionPolicy"@,
                "Bypass"@,
                "-Command"@,
                "Get-CimInstance Win32_DiskDrive | ForEach-Object { \"$($_.Model)|$([math]::Round($_.Size/1GB,0))\" }"@,
            ],
        ),
{
    crate::winapi::run_powershell(
        "Get-CimInstance Win32_DiskDrive | ForEach-Object { \"$($_.Model)|$([math]::Round($_.Size/1GB,0))\" }",
    )
}

} // verus!
