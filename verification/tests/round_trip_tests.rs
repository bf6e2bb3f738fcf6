use std::collections::HashMap;
use zenou_tweaks::catalog::{
    active_scheme_location, filesystem_key, hibernation_location, high_performance_duplicate, list_schemes_command,
    reapply_scheme_command,
};
use zenou_tweaks::catalog_ext::{
    captures_members, captures_pending, persisted_services, service_restore_plan, ServiceAction, ServiceEvent,
    ServiceRun,
};
use zenou_tweaks::ops::{list_power_schemes, ServiceStart};
use zenou_tweaks::registry::Hive;
use zenou_tweaks::scan::GpuVendor;
use zenou_tweaks::winapi::Output;

#[test]
fn two_line_scheme_listing_is_parsed() {
    let report = "Existing Power Schemes (* Active)\n-----\nPower Scheme GUID: g1  (Balanced) *\nPower Scheme GUID: g2  (High performance)\n";
    let o = Output { exit_code: 0, stdout: report.as_bytes().to_vec(), stderr: vec![] };
    match list_power_schemes(o) {
        Ok(v) => assert_eq!(
            v,
            vec![("g1".to_string(), "Balanced".to_string()), ("g2".to_string(), "High performance".to_string())]
        ),
        Err(_) => panic!("listing failed"),
    }
}

#[test]
fn adapter_names_give_their_vendor() {
    assert_eq!(GpuVendor::detect("NVIDIA GeForce RTX 3080"), GpuVendor::Nvidia);
    assert_eq!(GpuVendor::detect("AMD Radeon RX 6800"), GpuVendor::Amd);
    assert_eq!(GpuVendor::detect("Intel(R) UHD Graphics 630"), GpuVendor::Intel);
    assert_eq!(GpuVendor::detect("Microsoft Basic Display Adapter"), GpuVendor::Other);
}

#[test]
fn service_group_disable_then_restore_is_a_round_trip() {
    let services: Vec<String> = ["A", "B", "C", "A"].iter().map(|s| s.to_string()).collect();
    let mut system: HashMap<String, u32> = HashMap::new();
    system.insert("A".into(), 2);
    system.insert("B".into(), 4);
    system.insert("D".into(), 3);
    let before = system.clone();
    let mut touched: Vec<String> = Vec::new();
    let (mut run, mut action) = ServiceRun::start(&services);
    loop {
        let ev = match action {
            ServiceAction::ReadStart(i) => ServiceEvent::StartValue(Ok(system.get(&services[i]).copied())),
            ServiceAction::Disable(i) => {
                system.insert(services[i].clone(), 4);
                touched.push(services[i].clone());
                ServiceEvent::Changed(Ok(()))
            }
            ServiceAction::Restore(_) => panic!("no failure, no rollback"),
            ServiceAction::Finish => break,
        };
        action = run.step(&services, ev);
    }
    assert!(run.error.is_none());
    assert_eq!(touched, vec!["A".to_string()]);
    assert_eq!(system.get("A"), Some(&4));
    let plan = service_restore_plan(&run.captured);
    assert_eq!(plan, vec![("A".to_string(), ServiceStart::Auto)]);
    for (name, start) in plan {
        system.insert(name, start.to_start_value());
    }
    assert_eq!(system, before);
}

#[test]
fn only_recorded_service_values_are_persisted() {
    let captured = vec![("A".to_string(), Some(2)), ("B".to_string(), None), ("C".to_string(), Some(4))];
    assert_eq!(persisted_services(&captured), vec![("A".to_string(), 2), ("C".to_string(), 4)]);
    assert!(captures_pending(&vec![], &captured));
    assert!(captures_pending(&vec![("\\T".to_string(), true)], &vec![]));
    assert!(!captures_pending(&vec![], &vec![]));
    assert_eq!(captures_members(), ("tasks", "services"));
}

#[test]
fn power_plan_commands_and_locations() {
    let d = high_performance_duplicate();
    assert_eq!(d.program, "powercfg.exe");
    assert_eq!(d.args, vec!["-duplicatescheme".to_string(), "8c5e7fda-e8bf-4a96-9a85-a6e23a8c635c".to_string()]);
    let l = list_schemes_command();
    assert_eq!(l.program, "powercfg.exe");
    assert_eq!(l.args, vec!["/list".to_string()]);
    let r = reapply_scheme_command();
    assert_eq!(r.args, vec!["-setactive".to_string(), "scheme_current".to_string()]);
    let (h, k, v) = active_scheme_location();
    assert_eq!(h, Hive::LocalMachine);
    assert_eq!(k, "SYSTEM\\CurrentControlSet\\Control\\Power\\User\\PowerSchemes");
    assert_eq!(v, "");
    let (h, k, v) = hibernation_location();
    assert_eq!(h, Hive::LocalMachine);
    assert_eq!(k, "SYSTEM\\CurrentControlSet\\Control\\Power");
    assert_eq!(v, "HibernateEnabled");
    assert_eq!(filesystem_key(), "SYSTEM\\CurrentControlSet\\Control\\FileSystem");
}

#[test]
fn processor_count_numerals() {
    assert_eq!(zenou_tweaks::scan::cpu_counts(16, Some("+8".into())), (8, 16));
    assert_eq!(zenou_tweaks::scan::cpu_counts(16, Some("".into())), (16, 16));
    assert_eq!(zenou_tweaks::scan::cpu_counts(16, Some("+".into())), (16, 16));
    assert_eq!(zenou_tweaks::scan::cpu_counts(16, Some("-3".into())), (16, 16));
    assert_eq!(zenou_tweaks::scan::cpu_counts(16, Some("4294967295".into())), (16, 16));
    assert_eq!(zenou_tweaks::scan::cpu_counts(16, Some("4294967296".into())), (16, 16));
    assert_eq!(zenou_tweaks::scan::cpu_counts(16, Some("0012".into())), (12, 16));
}
