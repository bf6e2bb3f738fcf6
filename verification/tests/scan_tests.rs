use zenou_tweaks::cleanup::{clear_tally, restart_update_service};
use zenou_tweaks::error::ZenouError;
use zenou_tweaks::scan::{
    cpu_counts, cpu_vendor_name, format_uptime, gpu_entry, parse_disk_report, physical_disk_entry,
    physical_disks_from_report, volume_info, windows_build, GpuVendor,
};
use zenou_tweaks::winapi::Output;

#[test]
fn uptime_is_formatted() {
    assert_eq!(format_uptime(59), "0m");
    assert_eq!(format_uptime(3 * 3600 + 5 * 60), "3h 5m");
    assert_eq!(format_uptime(2 * 86400 + 3600 + 60), "2d 1h 1m");
}

#[test]
fn system_identity_fields() {
    assert_eq!(windows_build("22631".into(), 3447), "22631.3447");
    assert_eq!(windows_build("22631".into(), 0), "22631");
    assert_eq!(cpu_vendor_name("GenuineIntel"), "Intel");
    assert_eq!(cpu_vendor_name("AuthenticAMD"), "AMD");
    assert_eq!(cpu_vendor_name("?"), "Unknown");
    assert_eq!(cpu_counts(16, Some("8".into())), (8, 16));
    assert_eq!(cpu_counts(0, None), (1, 1));
    assert_eq!(cpu_counts(4, Some("x".into())), (4, 4));
    assert_eq!(cpu_counts(4, Some("0".into())), (1, 4));
    let g = gpu_entry(Some("NVIDIA GeForce RTX 4070".into()), None).expect("listed");
    assert_eq!(g.vendor, GpuVendor::Nvidia);
    assert!(gpu_entry(Some("Microsoft Basic Render Driver (Virtual)".into()), None).is_none());
    assert!(gpu_entry(Some(String::new()), None).is_none());
}

#[test]
fn cleanup_totals() {
    assert_eq!(clear_tally(&vec![(true, 10), (false, 5), (true, 1)]), (2, 11, 1));
    let running = Output {
        exit_code: 0,
        stdout: b"SERVICE_NAME: wuauserv\r\n        STATE              : 4  RUNNING\r\n".to_vec(),
        stderr: Vec::new(),
    };
    let stopped = Output {
        exit_code: 0,
        stdout: b"SERVICE_NAME: wuauserv\r\n        STATE              : 1  STOPPED\r\n".to_vec(),
        stderr: Vec::new(),
    };
    assert!(restart_update_service(&Ok(running)));
    assert!(!restart_update_service(&Ok(stopped)));
    assert!(!restart_update_service(&Err(ZenouError::command("x".into(), None))));
    let cmd = zenou_tweaks::cleanup::service_query_command("wuauserv");
    assert_eq!(cmd.program, "sc.exe");
    assert_eq!(cmd.args, vec!["query".to_string(), "wuauserv".to_string()]);
}

#[test]
fn combined_report() {
    let o = Output { exit_code: -1, stdout: b"out".to_vec(), stderr: b"err".to_vec() };
    assert_eq!(o.combined(), "exit: -1\nstdout:\nout\nstderr:\nerr");
    assert_eq!(o.stdout_str(), "out");
}

#[test]
fn physical_disks_from_the_device_registry() {
    let mut found = Vec::new();
    let a = physical_disk_entry(Some("Samsung SSD 980".into()), Some("Disk drive".into()), &found).unwrap();
    assert_eq!(a.model, "Samsung SSD 980");
    assert_eq!(a.size_gb, None);
    found.push(a);
    assert!(physical_disk_entry(Some("Samsung SSD 980".into()), None, &found).is_none());
    assert!(physical_disk_entry(Some("Msft Virtual Disk".into()), None, &found).is_none());
    assert!(physical_disk_entry(None, None, &found).is_none());
    let b = physical_disk_entry(None, Some("WDC WD10EZEX".into()), &found).unwrap();
    assert_eq!(b.model, "WDC WD10EZEX");
}

#[test]
fn disk_listing_is_parsed() {
    let text: Vec<char> = "Samsung SSD 970 | 932\r\nWDC WD10EZEX|x\nNoSize\n|5|7\n".chars().collect();
    let disks = parse_disk_report(&text);
    assert_eq!(disks.len(), 4);
    assert_eq!(disks[0].model, "Samsung SSD 970");
    assert_eq!(disks[0].size_gb, Some(932));
    assert_eq!(disks[0].total_gb, Some(932));
    assert_eq!(disks[0].free_gb, None);
    assert_eq!(disks[1].model, "WDC WD10EZEX");
    assert_eq!(disks[1].size_gb, None);
    assert_eq!(disks[2].model, "NoSize");
    assert_eq!(disks[2].size_gb, None);
    assert_eq!(disks[3].model, "");
    assert_eq!(disks[3].size_gb, Some(5));
    let many: String = (0..70).map(|i| format!("Disk {i}|{i}\n")).collect();
    let many: Vec<char> = many.chars().collect();
    assert_eq!(parse_disk_report(&many).len(), 64);
}

#[test]
fn disk_listing_outcomes() {
    let ok = Output { exit_code: 0, stdout: b"Model A|100\n".to_vec(), stderr: Vec::new() };
    let d = physical_disks_from_report(&Ok(ok));
    assert_eq!(d.len(), 1);
    assert_eq!(d[0].model, "Model A");
    let failed = Output { exit_code: 1, stdout: b"Model A|100\n".to_vec(), stderr: Vec::new() };
    assert!(physical_disks_from_report(&Ok(failed)).is_empty());
    assert!(physical_disks_from_report(&Err(ZenouError::command("x".into(), None))).is_empty());
}

#[test]
fn volumes_report_whole_gib() {
    let v = volume_info('C', 512 * 1024 * 1024 * 1024 + 5, 100 * 1024 * 1024 * 1024);
    assert_eq!(v.model, "C: Volume");
    assert_eq!(v.drive_letter.as_deref(), Some("C:"));
    assert_eq!(v.total_gb, Some(512));
    assert_eq!(v.free_gb, Some(100));
}
