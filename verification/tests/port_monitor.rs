use task_supervisor::monitor::monitor_manager::MonitorManager;
use task_supervisor::monitor::port_monitor::{
    parse_port_target, PortFinding, PortMonitor, ProbeEvent, ProbeState, CONNECT_TIMEOUT_SECS,
};
use task_supervisor::monitor::CheckOutcome;

/// Runs a probe as a caller of the library does, against a network in which
/// the address resolves to one socket address for each entry of `listening`
/// and a connection is made exactly to those that are `true`. `None` stands
/// for a name that does not resolve. The second result counts the attempts.
fn probe(monitor: &PortMonitor, host: &str, port: u16, listening: Option<&[bool]>) -> (bool, usize) {
    let address = monitor.address(host, port);
    assert_eq!(address, format!("{}:{}", host, port));
    let mut state = monitor.begin();
    let mut attempts = 0;
    state = match listening {
        Some(addresses) => monitor.check_port(state, ProbeEvent::Resolved(addresses.len())),
        None => monitor.check_port(state, ProbeEvent::ResolveFailed),
    };
    loop {
        match state {
            ProbeState::Connecting { index, total } => {
                let addresses = listening.unwrap();
                assert_eq!(total, addresses.len());
                attempts += 1;
                let event = if addresses[index] {
                    ProbeEvent::Connected
                } else {
                    ProbeEvent::Refused
                };
                state = monitor.check_port(state, event);
            }
            ProbeState::Finished(finding) => return (finding.is_open(), attempts),
            ProbeState::Resolving => unreachable!(),
        }
    }
}

#[test]
fn test_parse_port_target() {
    // Test with host:port
    let (host, port) = parse_port_target("localhost:8080").unwrap();
    assert_eq!(host, "localhost");
    assert_eq!(port, 8080);

    // Test with just port
    let (host, port) = parse_port_target("3000").unwrap();
    assert_eq!(host, "127.0.0.1");
    assert_eq!(port, 3000);

    // Test with IP:port
    let (host, port) = parse_port_target("192.168.1.1:80").unwrap();
    assert_eq!(host, "192.168.1.1");
    assert_eq!(port, 80);

    // Test invalid port
    assert!(parse_port_target("invalid").is_err());
    assert!(parse_port_target("host:invalid").is_err());
}

#[test]
fn test_port_monitor() {
    let monitor = PortMonitor::new();

    // Test checking a port (this will likely be closed)
    let (is_open, _) = probe(&monitor, "127.0.0.1", 9999, Some(&[false]));
    // We can't assert the result since we don't know if the port is open
    // Just make sure it doesn't panic
    println!("Port 9999 open: {}", is_open);
}

#[test]
fn port_is_open_only_while_a_listener_is_bound() {
    let monitor = PortMonitor::new();
    // A listener is bound: the connection is made.
    assert_eq!(probe(&monitor, "127.0.0.1", 4000, Some(&[true])), (true, 1));
    // It is closed again: the connection is refused.
    assert_eq!(probe(&monitor, "127.0.0.1", 4000, Some(&[false])), (false, 1));
}

#[test]
fn port_is_open_iff_some_address_accepts() {
    let monitor = PortMonitor::new();
    // Every pattern of up to four addresses.
    for count in 0..=4usize {
        for pattern in 0..(1u32 << count) {
            let listening: Vec<bool> = (0..count).map(|i| pattern & (1 << i) != 0).collect();
            let (open, attempts) = probe(&monitor, "svc.local", 443, Some(&listening));
            assert_eq!(open, listening.iter().any(|l| *l));
            // The probe stops at the first connection.
            let expected = match listening.iter().position(|l| *l) {
                Some(first) => first + 1,
                None => count,
            };
            assert_eq!(attempts, expected);
        }
    }
    assert_eq!(probe(&monitor, "no.such.host", 80, None), (false, 0));
}

#[test]
fn parse_port_target_error_names_the_final_segment() {
    assert_eq!(
        parse_port_target("invalid"),
        Err("Invalid port number: invalid".to_string())
    );
    assert_eq!(
        parse_port_target("host:invalid"),
        Err("Invalid port number: invalid".to_string())
    );
    assert_eq!(
        parse_port_target("host:"),
        Err("Invalid port number: ".to_string())
    );
    assert_eq!(parse_port_target(""), Err("Invalid port number: ".to_string()));
}

#[test]
fn parse_port_target_splits_at_the_last_colon() {
    assert_eq!(parse_port_target("::1:443"), Ok(("::1".to_string(), 443)));
    assert_eq!(parse_port_target(":80"), Ok(("".to_string(), 80)));
    assert_eq!(
        parse_port_target("a:b:c"),
        Err("Invalid port number: c".to_string())
    );
}

#[test]
fn parse_port_target_bounds_of_a_port() {
    assert_eq!(parse_port_target("0"), Ok(("127.0.0.1".to_string(), 0)));
    assert_eq!(parse_port_target("65535"), Ok(("127.0.0.1".to_string(), 65535)));
    assert_eq!(
        parse_port_target("65536"),
        Err("Invalid port number: 65536".to_string())
    );
    assert_eq!(
        parse_port_target("h:99999999999999999999999"),
        Err("Invalid port number: 99999999999999999999999".to_string())
    );
}

#[test]
fn parse_port_target_reads_ports_as_rust_reads_numbers() {
    assert_eq!(parse_port_target("+80"), Ok(("127.0.0.1".to_string(), 80)));
    assert_eq!(parse_port_target("h:00080"), Ok(("h".to_string(), 80)));
    assert_eq!(
        parse_port_target("h:0000000000000000000065535"),
        Ok(("h".to_string(), 65535))
    );
    assert!(parse_port_target("-80").is_err());
    assert!(parse_port_target("+").is_err());
    assert!(parse_port_target("++80").is_err());
    assert!(parse_port_target(" 80").is_err());
    assert!(parse_port_target("80 ").is_err());
    assert!(parse_port_target("8o").is_err());
    assert!(parse_port_target("٨٠").is_err());
}

#[test]
fn parse_port_target_agrees_with_std_on_samples() {
    let samples = [
        "1", "22", "+443", "0000", "65535", "65536", "70000", "", "+", "-1", "1e3", "0x50",
        "8080 ", "８０", "4294967296",
    ];
    for sample in samples {
        let expected = sample.parse::<u16>().ok();
        let got = parse_port_target(sample).ok().map(|(_, port)| port);
        assert_eq!(got, expected, "sample {:?}", sample);
    }
}

#[test]
fn written_ports_are_read_back() {
    let monitor = PortMonitor::new();
    for port in [0u16, 1, 9, 10, 80, 443, 8080, 65535] {
        let address = monitor.address("example.org", port);
        assert_eq!(address, format!("example.org:{}", port));
        assert_eq!(
            parse_port_target(&address),
            Ok(("example.org".to_string(), port))
        );
        assert_eq!(
            parse_port_target(&port.to_string()),
            Ok(("127.0.0.1".to_string(), port))
        );
    }
}

#[test]
fn probe_tries_the_addresses_in_turn() {
    let monitor = PortMonitor::new();
    let state = monitor.begin();
    assert_eq!(state, ProbeState::Resolving);
    let state = monitor.check_port(state, ProbeEvent::Resolved(3));
    assert_eq!(state, ProbeState::Connecting { index: 0, total: 3 });
    let state = monitor.check_port(state, ProbeEvent::Refused);
    assert_eq!(state, ProbeState::Connecting { index: 1, total: 3 });
    let state = monitor.check_port(state, ProbeEvent::Refused);
    assert_eq!(state, ProbeState::Connecting { index: 2, total: 3 });
    let state = monitor.check_port(state, ProbeEvent::Refused);
    assert_eq!(state, ProbeState::Finished(PortFinding::Closed));
}

#[test]
fn probe_stops_at_the_first_connection() {
    let monitor = PortMonitor::new();
    let state = monitor.check_port(monitor.begin(), ProbeEvent::Resolved(3));
    let state = monitor.check_port(state, ProbeEvent::Refused);
    let state = monitor.check_port(state, ProbeEvent::Connected);
    assert_eq!(state, ProbeState::Finished(PortFinding::Open));
    // A finished probe stays finished.
    assert_eq!(
        monitor.check_port(state, ProbeEvent::Refused),
        ProbeState::Finished(PortFinding::Open)
    );
    assert_eq!(
        monitor.check_port(state, ProbeEvent::Resolved(1)),
        ProbeState::Finished(PortFinding::Open)
    );
}

#[test]
fn probe_without_addresses_is_not_open() {
    let monitor = PortMonitor::new();
    assert_eq!(
        monitor.check_port(monitor.begin(), ProbeEvent::ResolveFailed),
        ProbeState::Finished(PortFinding::Unresolved)
    );
    assert_eq!(
        monitor.check_port(monitor.begin(), ProbeEvent::Resolved(0)),
        ProbeState::Finished(PortFinding::Closed)
    );
    assert!(PortFinding::Open.is_open());
    assert!(!PortFinding::Closed.is_open());
    assert!(!PortFinding::Unresolved.is_open());
}

#[test]
fn port_findings_become_outcomes() {
    assert_eq!(
        MonitorManager::check_port("db", 5432, PortFinding::Open),
        CheckOutcome::Healthy
    );
    assert_eq!(
        MonitorManager::check_port("db", 5432, PortFinding::Closed),
        CheckOutcome::Unhealthy
    );
    assert_eq!(
        MonitorManager::check_port("db", 5432, PortFinding::Unresolved),
        CheckOutcome::Failed("Cannot resolve db:5432".to_string())
    );
}

#[test]
fn probe_ignores_events_that_do_not_fit() {
    let monitor = PortMonitor::new();
    assert_eq!(
        monitor.check_port(ProbeState::Resolving, ProbeEvent::Connected),
        ProbeState::Resolving
    );
    assert_eq!(
        monitor.check_port(ProbeState::Resolving, ProbeEvent::Refused),
        ProbeState::Resolving
    );
    let connecting = ProbeState::Connecting { index: 0, total: 2 };
    assert_eq!(
        monitor.check_port(connecting, ProbeEvent::Resolved(5)),
        connecting
    );
    assert_eq!(
        monitor.check_port(connecting, ProbeEvent::ResolveFailed),
        connecting
    );
    let last = ProbeState::Connecting { index: usize::MAX, total: usize::MAX };
    assert_eq!(
        monitor.check_port(last, ProbeEvent::Refused),
        ProbeState::Finished(PortFinding::Closed)
    );
}

#[test]
fn port_info_describes_the_finding() {
    let monitor = PortMonitor::new();
    assert_eq!(
        monitor.get_port_info("localhost", 8080, true),
        "Port localhost:8080 is OPEN (accepting connections)"
    );
    assert_eq!(
        monitor.get_port_info("10.0.0.1", 22, false),
        "Port 10.0.0.1:22 is CLOSED or unreachable"
    );
    assert_eq!(CONNECT_TIMEOUT_SECS, 3);
}
