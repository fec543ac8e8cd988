use portscan::inspect::{inspect_icmp_frame, inspect_udp_frame, IcmpOutcome};

/// A 20-byte IP header with the given protocol number and fragment-offset
/// field, followed by `payload`.
fn frame(protocol: u8, offset_field: u16, payload: &[u8]) -> Vec<u8> {
    let mut f = vec![
        0x45,
        0x00,
        0x00,
        0x29,
        0x00,
        0x01,
        (offset_field >> 8) as u8,
        (offset_field & 0xff) as u8,
        0x40,
        protocol,
        0x00,
        0x00,
        192,
        168,
        1,
        7,
        10,
        0,
        0,
        1,
    ];
    f.extend_from_slice(payload);
    f
}

#[test]
fn icmp_inspection_skips_short_frames() {
    assert_eq!(inspect_icmp_frame(&[]), IcmpOutcome::TooShortIp);
    assert_eq!(inspect_icmp_frame(&[0u8; 19]), IcmpOutcome::TooShortIp);
}

#[test]
fn icmp_inspection_skips_other_protocols() {
    let f = frame(6, 20, &[8, 0, 0, 0, 0, 0, 0, 0]);
    assert_eq!(inspect_icmp_frame(&f), IcmpOutcome::NotIcmp);
}

#[test]
fn icmp_inspection_reads_the_header_at_the_offset_field() {
    let f = frame(1, 20, &[8, 0, 0xab, 0xcd, 0, 1, 0, 2]);
    assert_eq!(inspect_icmp_frame(&f), IcmpOutcome::Icmp { type_: 8, code: 0 });
}

#[test]
fn icmp_inspection_rejects_an_offset_past_the_frame() {
    let f = frame(1, 21, &[8, 0, 0, 0, 0, 0, 0, 0]);
    assert_eq!(inspect_icmp_frame(&f), IcmpOutcome::TooShortIcmp);
}

#[test]
fn udp_inspection_skips_short_frames() {
    assert!(inspect_udp_frame(&[0u8; 27]).is_none());
}

#[test]
fn udp_inspection_reads_both_headers() {
    let f = frame(17, 0, &[0x00, 0x35, 0xc0, 0x00, 0x00, 0x1c, 0xfe, 0xdc]);
    let (ip, udp) = inspect_udp_frame(&f).unwrap();
    assert_eq!(ip.protocol_num, 17);
    assert_eq!(udp.source_port, 53);
    assert_eq!(udp.destination_port, 0xc000);
    assert_eq!(udp.length, 28);
    assert_eq!(udp.checksum, 0xfedc);
}
