use portscan::aggregate::ResultTable;
use portscan::capture::{capture_step, classify_frame, process_events, FrameOutcome, ScanEvent};

/// A minimal 41-byte frame: a 20-byte IP header destined for `dst`, then a
/// 21-byte TCP header for `dport` whose low flag byte is `flags_low`.
fn frame(dst: [u8; 4], dport: u16, flags_low: u8) -> Vec<u8> {
    let mut f = vec![
        0x45, 0x00, 0x00, 0x29, 0x00, 0x01, 0x00, 0x00, 0x40, 0x06, 0x00, 0x00, 192, 168, 1, 7,
        dst[0], dst[1], dst[2], dst[3],
    ];
    f.extend_from_slice(&[
        0x10,
        0xe1,
        (dport >> 8) as u8,
        (dport & 0xff) as u8,
        0,
        0,
        0,
        1,
        0,
        0,
        0,
        2,
        0x50,
        0x00,
        flags_low,
        0x12,
        0x34,
        0x56,
        0x78,
        0x00,
        0x00,
    ]);
    f
}

const ACK: u8 = 0x10;

#[test]
fn short_frames_are_skipped() {
    assert_eq!(classify_frame(&[], "10.0.0.1"), FrameOutcome::TooShortIp);
    assert_eq!(
        classify_frame(&[0u8; 19], "10.0.0.1"),
        FrameOutcome::TooShortIp
    );
}

#[test]
fn frames_for_another_host_are_discarded() {
    let f = frame([10, 0, 0, 2], 80, ACK);
    assert_eq!(classify_frame(&f, "10.0.0.1"), FrameOutcome::NotForTarget);
}

#[test]
fn frames_too_short_for_the_transport_header_are_skipped() {
    let f = frame([10, 0, 0, 1], 80, ACK);
    assert_eq!(
        classify_frame(&f[..40], "10.0.0.1"),
        FrameOutcome::TooShortTcp
    );
}

#[test]
fn an_acknowledgment_frame_is_accepted_with_its_port() {
    let f = frame([10, 0, 0, 1], 80, ACK);
    assert_eq!(
        classify_frame(&f, "10.0.0.1"),
        FrameOutcome::Accepted { port: 80 }
    );
}

#[test]
fn ack_frame_increments_its_port_by_exactly_one() {
    let mut table = ResultTable::new();
    let f = frame([10, 0, 0, 1], 8080, ACK);
    let outcome = capture_step(&mut table, &f, "10.0.0.1");
    assert_eq!(outcome, FrameOutcome::Accepted { port: 8080 });
    assert_eq!(table.snapshot(), vec![(8080, 1)]);
    capture_step(&mut table, &f, "10.0.0.1");
    assert_eq!(table.snapshot(), vec![(8080, 2)]);
}

#[test]
fn flagless_frame_leaves_the_aggregator_unchanged() {
    let mut table = ResultTable::new();
    let f = frame([10, 0, 0, 1], 8080, 0x00);
    let outcome = capture_step(&mut table, &f, "10.0.0.1");
    assert_eq!(outcome, FrameOutcome::Ignored);
    assert_eq!(table.snapshot(), vec![]);
    assert_eq!(table.len(), 0);
}

#[test]
fn ack_with_fin_or_psh_is_still_accepted() {
    let mut table = ResultTable::new();
    capture_step(&mut table, &frame([10, 0, 0, 1], 80, ACK | 0x01), "10.0.0.1");
    capture_step(&mut table, &frame([10, 0, 0, 1], 80, ACK | 0x08), "10.0.0.1");
    assert_eq!(table.snapshot(), vec![(80, 2)]);
}

#[test]
fn fin_or_psh_alone_is_not_accepted() {
    let mut table = ResultTable::new();
    let out = capture_step(&mut table, &frame([10, 0, 0, 1], 80, 0x01), "10.0.0.1");
    assert_eq!(out, FrameOutcome::Ignored);
    let out = capture_step(&mut table, &frame([10, 0, 0, 1], 80, 0x08), "10.0.0.1");
    assert_eq!(out, FrameOutcome::Ignored);
    assert_eq!(table.len(), 0);
}

#[test]
fn interleaved_probes_never_lose_or_invent_updates() {
    let mut table = ResultTable::new();
    let events = vec![
        ScanEvent::Probe(80),
        ScanEvent::Frame(frame([10, 0, 0, 1], 80, ACK)),
        ScanEvent::Frame(frame([10, 0, 0, 1], 443, 0x00)),
        ScanEvent::Probe(443),
        ScanEvent::Frame(frame([10, 0, 0, 1], 443, ACK)),
        ScanEvent::Probe(22),
        ScanEvent::Frame(frame([10, 0, 0, 1], 80, ACK)),
        ScanEvent::Frame(frame([10, 0, 0, 2], 80, ACK)),
    ];
    process_events(&mut table, &events, "10.0.0.1");
    // exactly two accepted frames for 80, one for 443, none for 22
    let snap = table.snapshot();
    assert_eq!(snap, vec![(80, 2), (443, 1)]);
}
