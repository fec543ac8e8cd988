use portscan::aggregate::ResultTable;
use portscan::capture::capture_step;
use portscan::orchestrate::{Action, Orchestrator, Phase};
use portscan::probe::ProbeTarget;
use portscan::report::report_lines;

/// The response frame a listening port elicits: an acknowledgment destined
/// for the capturing host, carrying the probed port.
fn response_frame(dst: [u8; 4], dport: u16) -> Vec<u8> {
    let mut f = vec![
        0x45, 0x00, 0x00, 0x29, 0x00, 0x01, 0x00, 0x00, 0x40, 0x06, 0x00, 0x00, dst[0], dst[1],
        dst[2], dst[3], dst[0], dst[1], dst[2], dst[3],
    ];
    f.extend_from_slice(&[
        0x00,
        0x50,
        (dport >> 8) as u8,
        (dport & 0xff) as u8,
        0,
        0,
        0,
        1,
        0,
        0,
        0,
        2,
        0x50,
        0x00,
        0x12, // ACK and SYN
        0x12,
        0x34,
        0x56,
        0x78,
        0x00,
        0x00,
    ]);
    f
}

#[test]
fn the_run_follows_the_fixed_sequence() {
    let target = ProbeTarget { host: "10.0.0.1".to_string(), ports: vec![80, 443] };
    let mut orchestrator = Orchestrator::new(target);
    assert_eq!(orchestrator.phase, Phase::Starting);
    assert!(matches!(orchestrator.step(), Action::StartCapture));
    assert!(matches!(orchestrator.step(), Action::Sleep { secs: 1 }));
    match orchestrator.step() {
        Action::Connect { addr } => assert_eq!(addr, "10.0.0.1:80"),
        _ => panic!("expected a probe"),
    }
    match orchestrator.step() {
        Action::Connect { addr } => assert_eq!(addr, "10.0.0.1:443"),
        _ => panic!("expected a probe"),
    }
    assert!(matches!(orchestrator.step(), Action::Sleep { secs: 2 }));
    assert!(matches!(orchestrator.step(), Action::Snapshot));
    assert!(matches!(orchestrator.step(), Action::Halt));
    assert_eq!(orchestrator.phase, Phase::Done);
    assert!(matches!(orchestrator.step(), Action::Halt));
}

/// A full simulated run against a loopback target with one listening port:
/// each probe to the listening port elicits a response frame that the
/// capture side processes before the snapshot.
fn run(listening: Option<u16>) -> Vec<String> {
    let host = "127.0.0.1";
    let target = ProbeTarget { host: host.to_string(), ports: vec![4000] };
    let mut orchestrator = Orchestrator::new(target);
    let mut table = ResultTable::new();
    let mut lines: Vec<String> = Vec::new();
    loop {
        match orchestrator.step() {
            Action::StartCapture => {}
            Action::Sleep { .. } => {}
            Action::Connect { addr } => {
                if let Some(port) = listening {
                    if addr == format!("{}:{}", host, port) {
                        let f = response_frame([127, 0, 0, 1], port);
                        capture_step(&mut table, &f, host);
                    }
                }
            }
            Action::Snapshot => {
                let snapshot = table.snapshot();
                lines = report_lines(host, &snapshot);
            }
            Action::Halt => break,
        }
    }
    lines
}

#[test]
fn a_listening_port_is_reported_open() {
    let lines = run(Some(4000));
    assert_eq!(lines, vec!["Port 4000 open (confidence: 1)"]);
}

#[test]
fn a_target_with_no_listener_reports_everything_closed() {
    let lines = run(None);
    assert_eq!(lines, vec!["All scanned ports on 127.0.0.1 are closed"]);
}
