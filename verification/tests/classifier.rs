use portscan::classify::{icmp_type_name, protocol_name};
use portscan::headers::IP;

#[test]
fn protocol_name_knows_the_common_protocols() {
    assert_eq!(protocol_name(6), "TCP");
    assert_eq!(protocol_name(17), "UDP");
    assert_eq!(protocol_name(1), "ICMP");
    assert_eq!(protocol_name(0), "HOPOPT");
    assert_eq!(protocol_name(132), "SCTP");
}

#[test]
fn protocol_name_names_the_unassigned_block() {
    assert_eq!(protocol_name(146), "Unassigned");
    assert_eq!(protocol_name(200), "Unassigned");
    assert_eq!(protocol_name(252), "Unassigned");
}

#[test]
fn protocol_name_names_the_reserved_tail() {
    assert_eq!(protocol_name(253), "Use for experimentation and testing");
    assert_eq!(protocol_name(254), "Use for experimentation and testing");
    assert_eq!(protocol_name(255), "Reserved");
}

#[test]
fn protocol_name_falls_back_to_the_decimal_string() {
    assert_eq!(protocol_name(99), "99");
}

#[test]
fn protocol_method_matches_the_free_function() {
    let mut bytes = vec![0u8; 20];
    bytes[9] = 17;
    let ip = IP::new(&bytes).unwrap();
    assert_eq!(ip.protocol(), "UDP");
}

#[test]
fn icmp_reason_prefers_the_specific_entry() {
    assert_eq!(
        icmp_type_name(3, 0),
        "Destination Unreachable - Net is unreachable"
    );
}

#[test]
fn icmp_reason_scans_in_table_order() {
    assert_eq!(icmp_type_name(0, 0), "Echo Reply");
    assert_eq!(
        icmp_type_name(3, 3),
        "Destination Unreachable - Port is unreachable"
    );
    assert_eq!(
        icmp_type_name(3, 15),
        "Destination Unreachable - Precedence cutoff is in effect"
    );
    assert_eq!(icmp_type_name(11, 0), "Time Exceeded");
    assert_eq!(icmp_type_name(62, 0), "Redirect Message for IPv6");
}

#[test]
fn icmp_reason_falls_back_to_the_generic_text() {
    assert_eq!(icmp_type_name(77, 9), "Type: 77, Code: 9");
    assert_eq!(icmp_type_name(3, 16), "Type: 3, Code: 16");
    assert_eq!(icmp_type_name(255, 255), "Type: 255, Code: 255");
}
