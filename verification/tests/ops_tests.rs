use zenou_tweaks::ops::{
    active_scheme, duplicate_scheme, list_power_schemes, memory_compression_enabled, parse_task_snapshot,
    service_change_error, service_start_value, set_service_start_command, set_task_enabled, start_service_now,
    stop_service_now, task_full_name, task_present, task_snapshot, ServiceStart,
};
use zenou_tweaks::registry::{RegType, RegValue};
use zenou_tweaks::winapi::{run_powershell, Output};

fn out(code: i32, stdout: &str, stderr: &str) -> Output {
    Output { exit_code: code, stdout: stdout.as_bytes().to_vec(), stderr: stderr.as_bytes().to_vec() }
}

#[test]
fn service_start_values_round_trip() {
    for s in [ServiceStart::Boot, ServiceStart::System, ServiceStart::Auto, ServiceStart::Demand, ServiceStart::Disabled] {
        assert_eq!(ServiceStart::from_start_value(s.to_start_value()), s);
    }
    assert_eq!(ServiceStart::from_start_value(7), ServiceStart::Disabled);
    assert_eq!(ServiceStart::Demand.label(), "Manual");
    assert_eq!(ServiceStart::Auto.label(), "Automatic");
}

#[test]
fn service_start_value_reads_only_four_byte_dwords() {
    let dword = Ok(Some(RegValue { vtype: RegType::REG_DWORD, bytes: vec![4, 0, 0, 0] }));
    assert!(matches!(service_start_value(dword), Ok(Some(4))));
    let text = Ok(Some(RegValue { vtype: RegType::REG_SZ, bytes: vec![4, 0, 0, 0] }));
    assert!(matches!(service_start_value(text), Ok(None)));
    assert!(matches!(service_start_value(Ok(None)), Ok(None)));
}

#[test]
fn service_errors_name_the_cause() {
    let e = service_change_error("Fax", &out(2, "", "System error 1060 has occurred."));
    assert_eq!(e.message, "The service \"Fax\" is not installed on this system.");
    assert_eq!(e.code, "command");
    let e = service_change_error("Fax", &out(2, "", "System error 5 has occurred."));
    assert!(e.message.starts_with("Administrator permission is required"));
    let e = service_change_error("Fax", &out(2, "", "failure"));
    assert_eq!(e.message, "Windows refused to change the service \"Fax\".");
    assert_eq!(e.details.as_deref(), Some("exit: 2\nstdout:\n\nstderr:\nfailure"));
}

#[test]
fn service_command_lines_are_fixed() {
    let c = set_service_start_command("Fax", ServiceStart::Disabled);
    assert_eq!(c.program, "net.exe");
    assert_eq!(c.args, vec!["config", "Fax", "start=", "disabled"]);
    let p = run_powershell("Get-Date");
    assert_eq!(p.program, "powershell.exe");
    assert_eq!(p.args.last().map(|s| s.as_str()), Some("Get-Date"));
}

#[test]
fn stopping_a_stopped_service_is_not_an_error() {
    assert!(stop_service_now("wuauserv", &out(2, "", "The service has not been started.")).is_ok());
    assert!(stop_service_now("wuauserv", &out(2, "", "Access is denied.")).is_err());
    assert!(start_service_now("wuauserv", &out(2, "", "The requested service has already been started.")).is_ok());
    assert!(start_service_now("wuauserv", &out(0, "", "")).is_ok());
}

#[test]
fn missing_task_is_reported_as_absent() {
    let r = set_task_enabled("\\X", &out(1, "", "ERROR: The system cannot find the file specified."));
    match r {
        Err(e) => assert_eq!(e.code, "task-absent"),
        Ok(_) => panic!("expected an error"),
    }
    let r = set_task_enabled("\\X", &out(1, "", "ERROR: Access is denied."));
    match r {
        Err(e) => {
            assert_eq!(e.code, "command");
            assert_eq!(e.message, "Windows refused to change the scheduled task \"\\X\".");
        }
        Ok(_) => panic!("expected an error"),
    }
    assert!(set_task_enabled("\\X", &out(0, "SUCCESS", "")).is_ok());
}

#[test]
fn task_snapshot_lines_are_parsed() {
    let text: Vec<char> = "\\A\\One|Ready\r\n  \\B\\Two|disabled \r\nnonsense\n\\C|x|Disabled\0\n".chars().collect();
    let entries = parse_task_snapshot(&text);
    assert_eq!(entries.len(), 3);
    assert_eq!(entries[0].name, "\\A\\One");
    assert!(!entries[0].disabled);
    assert_eq!(entries[1].name, "\\B\\Two");
    assert!(entries[1].disabled);
    assert_eq!(entries[2].name, "\\C|x");
    assert!(entries[2].disabled);
    let snap = task_snapshot(&Ok(out(0, "\\A\\One|Ready\n", "")));
    assert_eq!(task_present("A\\One", &snap), Some(true));
    assert_eq!(task_present("\\Z", &snap), Some(false));
    assert_eq!(task_present("\\Z", &None), None);
    assert!(task_snapshot(&Ok(out(1, "", ""))).is_none());
    assert_eq!(task_full_name("X"), "\\X");
    assert_eq!(task_full_name("\\X"), "\\X");
}

#[test]
fn power_schemes_are_listed() {
    let report = "Existing Power Schemes (* Active)\r\n-----------------------------------\r\nPower Scheme GUID: 381b4222-f694-41f0-9685-ff5bb260df2e  (Balanced) *\r\nPower Scheme GUID: 8c5e7fda-e8bf-4a96-9a85-a6e23a8c635c  (High performance)\r\n";
    let schemes = match list_power_schemes(out(0, report, "")) {
        Ok(s) => s,
        Err(_) => panic!("listing failed"),
    };
    assert_eq!(schemes.len(), 2);
    assert_eq!(schemes[0].0, "381b4222-f694-41f0-9685-ff5bb260df2e");
    assert_eq!(schemes[0].1, "Balanced");
    assert_eq!(schemes[1].1, "High performance");
    match list_power_schemes(out(1, "", "")) {
        Err(e) => assert_eq!(e.message, "Windows (powercfg) refused the power configuration change."),
        Ok(_) => panic!("expected an error"),
    }
}

#[test]
fn duplicated_scheme_is_found_by_difference() {
    let before = vec![("a".to_string(), "Balanced".to_string())];
    let after = vec![("a".to_string(), "Balanced".to_string()), ("b".to_string(), "High performance".to_string())];
    match duplicate_scheme(&before, &after) {
        Ok(g) => assert_eq!(g, "b"),
        Err(_) => panic!("expected the new guid"),
    }
    match duplicate_scheme(&before, &before) {
        Err(e) => assert_eq!(e.message, "The power plan was created but could not be identified."),
        Ok(_) => panic!("expected an error"),
    }
}

#[test]
fn active_scheme_is_read_from_the_report() {
    let report = "Power Scheme GUID: 381b4222-f694-41f0-9685-ff5bb260df2e  (Balanced)\r\n";
    match active_scheme(out(0, report, "")) {
        Ok(Some(g)) => assert_eq!(g, "381b4222-f694-41f0-9685-ff5bb260df2e"),
        _ => panic!("expected a guid"),
    }
    assert!(matches!(active_scheme(out(0, "nothing here", "")), Ok(None)));
}

#[test]
fn memory_compression_state_is_read() {
    assert!(matches!(memory_compression_enabled(&out(0, "True\r\n", "")), Ok(Some(true))));
    assert!(matches!(memory_compression_enabled(&out(0, "False\r\n", "")), Ok(Some(false))));
    assert!(matches!(memory_compression_enabled(&out(1, "", "")), Ok(None)));
}

#[test]
fn task_state_reads_the_state_line() {
    let report = "TaskName: \\X\r\nScheduled Task State:   Enabled\r\n";
    assert!(matches!(zenou_tweaks::ops::task_state("\\X", &out(0, report, "")), Ok(Some(true))));
    let report = "TaskName: \\X\r\nScheduled Task State:   Disabled\r\n";
    assert!(matches!(zenou_tweaks::ops::task_state("\\X", &out(0, report, "")), Ok(Some(false))));
    assert!(matches!(zenou_tweaks::ops::task_state("\\X", &out(0, "TaskName: \\X\r\n", "")), Ok(None)));
    match zenou_tweaks::ops::task_state("\\X", &out(1, "", "")) {
        Err(e) => assert_eq!(e.message, "Could not read the state of scheduled task \"\\X\"."),
        Ok(_) => panic!("expected an error"),
    }
}
