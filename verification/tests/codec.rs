use portscan::headers::{ICMP, IP, TCP, UDP};

fn sample_ip_bytes() -> Vec<u8> {
    vec![
        0x45, 0x00, // version/ihl, tos
        0x00, 0x29, // total length 41
        0xab, 0xcd, // identification
        0x40, 0x00, // fragment offset field
        0x40, 0x06, // ttl 64, protocol 6
        0xbe, 0xef, // checksum
        192, 168, 1, 7, // source
        10, 0, 0, 1, // destination
    ]
}

#[test]
fn decode_ip_rejects_short_buffers() {
    assert!(IP::new(&[]).is_none());
    assert!(IP::new(&[0x45]).is_none());
    let nineteen = vec![0u8; 19];
    assert!(IP::new(&nineteen).is_none());
}

#[test]
fn decode_ip_reads_every_field() {
    let bytes = sample_ip_bytes();
    let ip = IP::new(&bytes).unwrap();
    assert_eq!(ip.ver_ihl, 0x45);
    assert_eq!(ip.tos, 0x00);
    assert_eq!(ip.len, 0x0029);
    assert_eq!(ip.id, 0xabcd);
    assert_eq!(ip.offset, 0x4000);
    assert_eq!(ip.ttl, 64);
    assert_eq!(ip.protocol_num, 6);
    assert_eq!(ip.sum, 0xbeef);
    assert_eq!(ip.src, 0xc0a80107);
    assert_eq!(ip.dst, 0x0a000001);
}

#[test]
fn decode_ip_ignores_trailing_bytes() {
    let mut bytes = sample_ip_bytes();
    bytes.extend_from_slice(&[1, 2, 3, 4, 5]);
    let ip = IP::new(&bytes).unwrap();
    assert_eq!(ip.dst, 0x0a000001);
}

#[test]
fn encode_ip_round_trips_the_decoded_header() {
    let bytes = sample_ip_bytes();
    let ip = IP::new(&bytes).unwrap();
    assert_eq!(ip.encode(), bytes);
}

#[test]
fn encode_ip_round_trips_extreme_values() {
    let bytes = vec![
        0xff, 0xff, 0xff, 0xff, 0x00, 0x00, 0xff, 0x00, 0x00, 0xff, 0x12, 0x34, 0xff, 0x00,
        0xff, 0x00, 0x00, 0xff, 0x00, 0xff,
    ];
    let ip = IP::new(&bytes).unwrap();
    assert_eq!(ip.encode(), bytes);
}

#[test]
fn transport_offset_follows_the_header_length_field() {
    let mut bytes = sample_ip_bytes();
    let ip = IP::new(&bytes).unwrap();
    assert_eq!(ip.transport_offset(), 20);
    bytes[0] = 0x46; // six 32-bit words
    let ip = IP::new(&bytes).unwrap();
    assert_eq!(ip.transport_offset(), 24);
    bytes[0] = 0x4f; // fifteen words
    let ip = IP::new(&bytes).unwrap();
    assert_eq!(ip.transport_offset(), 60);
    bytes[0] = 0x42; // implausible: below the minimum, falls back
    let ip = IP::new(&bytes).unwrap();
    assert_eq!(ip.transport_offset(), 20);
}

#[test]
fn decode_tcp_reads_every_field() {
    let bytes = vec![
        0x10, 0xe1, // source port 4321
        0x00, 0x50, // destination port 80
        0x00, 0x00, 0x00, 0x01, // sequence
        0x00, 0x00, 0x00, 0x02, // acknowledgment
        0x53, // data offset 5 words, reserved 3
        0x00, 0x10, // flag field: ACK in the low byte
        0x12, 0x34, // window
        0x56, 0x78, // checksum
        0x9a, // urgent pointer, high byte
        0xbc, // urgent pointer, low byte
    ];
    let tcp = TCP::new(&bytes);
    assert_eq!(tcp.source_port, 4321);
    assert_eq!(tcp.destination_port, 80);
    assert_eq!(tcp.sequence_number, 1);
    assert_eq!(tcp.acknowledgment_number, 2);
    assert_eq!(tcp.data_offset, 20);
    assert_eq!(tcp.reserved, 3);
    assert_eq!(tcp.flags, 0x0010);
    assert_eq!(tcp.window_size, 0x1234);
    assert_eq!(tcp.checksum, 0x5678);
    assert_eq!(tcp.urgent_pointer, 0x9abc);
}

#[test]
fn decode_udp_reads_every_field() {
    let bytes = vec![0x00, 0x35, 0xc0, 0x00, 0x00, 0x1c, 0xfe, 0xdc];
    let udp = UDP::new(&bytes);
    assert_eq!(udp.source_port, 53);
    assert_eq!(udp.destination_port, 0xc000);
    assert_eq!(udp.length, 28);
    assert_eq!(udp.checksum, 0xfedc);
}

#[test]
fn decode_icmp_reads_every_field() {
    let bytes = vec![3, 1, 0xab, 0xcd, 0x00, 0x2a, 0x00, 0x07];
    let icmp = ICMP::new(&bytes);
    assert_eq!(icmp.type_, 3);
    assert_eq!(icmp.code, 1);
    assert_eq!(icmp.sum, 0xabcd);
    assert_eq!(icmp.id, 42);
    assert_eq!(icmp.seq, 7);
}
