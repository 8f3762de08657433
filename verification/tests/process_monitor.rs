use task_supervisor::monitor::monitor_manager::MonitorManager;
use task_supervisor::monitor::process_monitor::{
    describe_in_table, entry_matches, find_in_table, ProcessEntry, ProcessMonitor, ProcessTarget,
};
use task_supervisor::monitor::CheckOutcome;

fn entry(pid: u32, name: &str) -> ProcessEntry {
    ProcessEntry { pid, name: name.to_string() }
}

fn table() -> Vec<ProcessEntry> {
    vec![
        entry(1, "systemd"),
        entry(412, "Node"),
        entry(977, "java"),
        entry(1034, "node-exporter"),
        entry(20000, "ǅungla"),
    ]
}

#[test]
fn test_process_target_from_string() {
    // Test PID parsing
    let target = ProcessTarget::from_string("1234");
    assert!(matches!(target, ProcessTarget::Pid(1234)));

    // Test name parsing
    let target = ProcessTarget::from_string("node");
    assert!(matches!(target, ProcessTarget::Name(ref name) if name == "node"));
}

#[test]
fn test_process_target_to_string() {
    let target = ProcessTarget::Pid(1234);
    assert_eq!(target.to_string(), "1234");

    let target = ProcessTarget::Name("node".to_string());
    assert_eq!(target.to_string(), "node");
}

#[test]
fn process_target_number_bounds() {
    assert!(matches!(ProcessTarget::from_string("0"), ProcessTarget::Pid(0)));
    assert!(matches!(
        ProcessTarget::from_string("4294967295"),
        ProcessTarget::Pid(4294967295)
    ));
    assert!(matches!(
        ProcessTarget::from_string("4294967296"),
        ProcessTarget::Name(ref name) if name == "4294967296"
    ));
    assert!(matches!(ProcessTarget::from_string("+7"), ProcessTarget::Pid(7)));
    assert!(matches!(ProcessTarget::from_string("007"), ProcessTarget::Pid(7)));
    assert!(matches!(
        ProcessTarget::from_string("-7"),
        ProcessTarget::Name(ref name) if name == "-7"
    ));
    assert!(matches!(
        ProcessTarget::from_string(""),
        ProcessTarget::Name(ref name) if name.is_empty()
    ));
    assert!(matches!(
        ProcessTarget::from_string("12ab"),
        ProcessTarget::Name(ref name) if name == "12ab"
    ));
}

#[test]
fn process_target_text_round_trip() {
    for pid in [0u32, 7, 10, 99, 100, 65536, 4294967295] {
        let text = ProcessTarget::Pid(pid).to_string();
        assert_eq!(text, pid.to_string());
        assert!(matches!(ProcessTarget::from_string(&text), ProcessTarget::Pid(p) if p == pid));
    }
}

#[test]
fn pid_target_is_found_iff_listed() {
    let table = table();
    assert!(find_in_table(&ProcessTarget::Pid(977), &table));
    assert!(find_in_table(&ProcessTarget::Pid(1), &table));
    assert!(!find_in_table(&ProcessTarget::Pid(978), &table));
    assert!(!find_in_table(&ProcessTarget::Pid(977), &Vec::new()));
}

#[test]
fn name_target_matches_whatever_the_case() {
    let table = table();
    assert!(find_in_table(&ProcessTarget::Name("node".to_string()), &table));
    assert!(find_in_table(&ProcessTarget::Name("NODE".to_string()), &table));
    assert!(find_in_table(&ProcessTarget::Name("AV".to_string()), &table));
    assert!(find_in_table(&ProcessTarget::Name("Exporter".to_string()), &table));
    assert!(!find_in_table(&ProcessTarget::Name("python".to_string()), &table));
    assert!(!find_in_table(&ProcessTarget::Name("nodes".to_string()), &table));
    // The empty text stands in every name.
    assert!(find_in_table(&ProcessTarget::Name(String::new()), &table));
    assert!(!find_in_table(&ProcessTarget::Name(String::new()), &Vec::new()));
    // Case folding beyond ASCII.
    assert!(find_in_table(&ProcessTarget::Name("ǆUNGLA".to_string()), &table));
}

#[test]
fn entry_matches_one_row() {
    assert!(entry_matches(&ProcessTarget::Pid(5), &entry(5, "x")));
    assert!(!entry_matches(&ProcessTarget::Pid(5), &entry(6, "5")));
    assert!(entry_matches(
        &ProcessTarget::Name("SSH".to_string()),
        &entry(6, "sshd")
    ));
    assert!(!entry_matches(
        &ProcessTarget::Name("sshd ".to_string()),
        &entry(6, "sshd")
    ));
}

#[test]
fn describe_by_name_lists_the_ids_in_table_order() {
    let table = table();
    assert_eq!(
        describe_in_table(&ProcessTarget::Name("node".to_string()), &table),
        Some("Found 2 process(es) matching 'node': PIDs [412, 1034]".to_string())
    );
    assert_eq!(
        describe_in_table(&ProcessTarget::Name("JAVA".to_string()), &table),
        Some("Found 1 process(es) matching 'JAVA': PIDs [977]".to_string())
    );
    assert_eq!(
        describe_in_table(&ProcessTarget::Name("python".to_string()), &table),
        None
    );
}

#[test]
fn describe_by_pid_names_the_process() {
    let table = table();
    assert_eq!(
        describe_in_table(&ProcessTarget::Pid(977), &table),
        Some("Process PID 977 (java): running".to_string())
    );
    assert_eq!(describe_in_table(&ProcessTarget::Pid(2), &table), None);
}

#[test]
fn live_process_table_is_read() {
    let mut monitor = ProcessMonitor::new();
    // Every name contains the empty text, and some process is alive.
    assert!(monitor.check_process(&ProcessTarget::Name(String::new())));
    let info = monitor
        .get_process_info(&ProcessTarget::Name(String::new()))
        .unwrap();
    assert!(info.starts_with("Found "));
    assert!(info.contains(" process(es) matching '': PIDs ["));
    assert!(info.ends_with(']'));
    // No process carries this name.
    let nobody = ProcessTarget::Name("no-such-process-\u{1F980}-anywhere".to_string());
    assert!(!monitor.check_process(&nobody));
    assert_eq!(monitor.get_process_info(&nobody), None);
}

#[test]
fn live_process_is_found_by_its_id() {
    let mut monitor = ProcessMonitor::new();
    let info = monitor
        .get_process_info(&ProcessTarget::Name(String::new()))
        .unwrap();
    let listed = info.split("PIDs [").nth(1).unwrap().trim_end_matches(']');
    let first: u32 = listed.split(", ").next().unwrap().parse().unwrap();
    // The process may have gone between the two looks, so look for a stable one too.
    let found = monitor.check_process(&ProcessTarget::Pid(first))
        || monitor.check_process(&ProcessTarget::Pid(1));
    assert!(found);
    let by_id = monitor.get_process_info(&ProcessTarget::Pid(1));
    if let Some(text) = by_id {
        assert!(text.starts_with("Process PID 1 ("));
        assert!(text.ends_with("): running"));
    }
}

#[test]
fn manager_process_check_never_fails() {
    let mut probe = ProcessMonitor::new();
    let outcome = MonitorManager::check_process(&mut probe, &ProcessTarget::Name(String::new()));
    assert_eq!(outcome, CheckOutcome::Healthy);
    let outcome = MonitorManager::check_process(
        &mut probe,
        &ProcessTarget::Name("no-such-process-\u{1F980}-anywhere".to_string()),
    );
    assert_eq!(outcome, CheckOutcome::Unhealthy);
    let mut fresh = ProcessMonitor::default();
    let outcome = MonitorManager::check_process(&mut fresh, &ProcessTarget::Pid(u32::MAX));
    assert_eq!(outcome, CheckOutcome::Unhealthy);
}
