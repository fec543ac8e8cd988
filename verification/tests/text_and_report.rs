use portscan::headers::IP;
use portscan::probe::{format_probe_addr, ProbeTarget};
use portscan::report::{closed_line, port_line, report_lines};
use portscan::text::{dec_u64, ipv4_text};

#[test]
fn decimal_rendering_is_exact() {
    assert_eq!(dec_u64(0), "0");
    assert_eq!(dec_u64(7), "7");
    assert_eq!(dec_u64(10), "10");
    assert_eq!(dec_u64(12345), "12345");
    assert_eq!(dec_u64(u64::MAX), "18446744073709551615");
}

#[test]
fn addresses_render_as_dotted_quads() {
    assert_eq!(ipv4_text(0x0a000001), "10.0.0.1");
    assert_eq!(ipv4_text(0), "0.0.0.0");
    assert_eq!(ipv4_text(0xffffffff), "255.255.255.255");
    assert_eq!(ipv4_text(0xc0a80107), "192.168.1.7");
}

#[test]
fn header_getters_render_their_fields() {
    let bytes = vec![
        0x45, 0x00, 0x00, 0x29, 0xab, 0xcd, 0x40, 0x00, 0x40, 0x06, 0xbe, 0xef, 192, 168, 1, 7,
        10, 0, 0, 1,
    ];
    let ip = IP::new(&bytes).unwrap();
    assert_eq!(ip.ver(), "69");
    assert_eq!(ip.len(), "41");
    assert_eq!(ip.ttl(), "64");
    assert_eq!(ip.offset(), "16384");
    assert_eq!(ip.src_address(), "192.168.1.7");
    assert_eq!(ip.dst_address(), "10.0.0.1");
}

#[test]
fn probe_addresses_name_host_and_port() {
    assert_eq!(format_probe_addr("10.0.0.1", 80), "10.0.0.1:80");
    assert_eq!(format_probe_addr("localhost", 65535), "localhost:65535");
}

#[test]
fn the_probe_plan_keeps_the_caller_order() {
    let target = ProbeTarget { host: "10.0.0.1".to_string(), ports: vec![443, 80, 22] };
    let plan = target.probe_plan();
    assert_eq!(plan, vec!["10.0.0.1:443", "10.0.0.1:80", "10.0.0.1:22"]);
}

#[test]
fn report_lines_name_each_open_port() {
    assert_eq!(port_line(80, 2), "Port 80 open (confidence: 2)");
    let snapshot = vec![(80u16, 2u64), (443u16, 1u64)];
    let lines = report_lines("10.0.0.1", &snapshot);
    assert_eq!(
        lines,
        vec![
            "Port 80 open (confidence: 2)",
            "Port 443 open (confidence: 1)"
        ]
    );
}

#[test]
fn an_empty_snapshot_reports_everything_closed() {
    assert_eq!(closed_line("10.0.0.1"), "All scanned ports on 10.0.0.1 are closed");
    let lines = report_lines("10.0.0.1", &vec![]);
    assert_eq!(lines, vec!["All scanned ports on 10.0.0.1 are closed"]);
}

#[test]
fn entries_without_observations_are_not_reported() {
    let snapshot = vec![(80u16, 0u64), (443u16, 5u64)];
    let lines = report_lines("10.0.0.1", &snapshot);
    assert_eq!(lines, vec!["Port 443 open (confidence: 5)"]);
}
