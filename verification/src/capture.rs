//! The capture side: per-frame classification and the update it makes to
//! the result aggregator.
//!
//! Each captured frame is decoded (IP header, then the TCP header at the
//! computed transport offset), filtered by destination address against the
//! configured target, and tested against the flag heuristic; an accepted
//! frame increments the observation count of its destination port. Frames
//! that are too short, for another host, or without accepted flags leave
//! the aggregator untouched.

use vstd::prelude::*;
use vstd::slice::slice_subrange;

use crate::aggregate::{sat_inc, ResultTable};
use crate::headers::{spec_decode_ip, spec_decode_tcp, spec_transport_offset, IP, TCP};
use crate::text::spec_ipv4_text;

verus! {

/// The acknowledgment bit of the flag field's low byte.
pub const ACK: u16 = 0x0010;

/// The push bit of the flag field's low byte.
pub const PSH: u16 = 0x0008;

/// The finish bit of the flag field's low byte.
pub const FIN: u16 = 0x0001;

/// The flag heuristic, kept in its full written form: an acknowledgment
/// together with a finish, or an acknowledgment alone, or an acknowledgment
/// together with a push. The middle alternative already subsumes the other
/// two; the predicate stands as written so that a change to the intended
/// detection rule has one place to go.
pub open spec fn spec_flags_accept(flags: u16) -> bool {
    let ack = flags & ACK != 0;
    let fin = flags & FIN != 0;
    let psh = flags & PSH != 0;
    (ack && fin) || ack || (ack && psh)
}

/// Tests a frame's flag field against the acceptance heuristic.
pub fn flags_accept(flags: u16) -> (b: bool)
    ensures
        b == spec_flags_accept(flags),
{
    let ack = flags & ACK != 0;
    let fin = flags & FIN != 0;
    let psh = flags & PSH != 0;
    (ack && fin) || ack || (ack && psh)
}

/// What the capture loop decides about one received frame.
#[derive(Clone, Copy, Debug, PartialEq, Eq, Structural)]
pub enum FrameOutcome {
    /// Shorter than an IP header; the loop logs and skips it.
    TooShortIp,
    /// Destined for some other host; discarded silently.
    NotForTarget,
    /// Too short for the TCP header at the transport offset; logged and
    /// skipped.
    TooShortTcp,
    /// Decoded, but its flags do not satisfy the heuristic.
    Ignored,
    /// Accepted: one observation for this destination port.
    Accepted { port: u16 },
}

/// The TCP header decoded at a frame's transport offset.
pub open spec fn spec_frame_tcp(frame: Seq<u8>) -> TCP
    recommends
        frame.len() >= 20,
        frame.len() >= spec_transport_offset(spec_decode_ip(frame).ver_ihl) + 21,
{
    let off = spec_transport_offset(spec_decode_ip(frame).ver_ihl);
    spec_decode_tcp(frame.subrange(off, off + 21))
}

/// The decision the capture loop takes on one frame destined for `target`
/// (a dotted-quad address as text).
pub open spec fn spec_classify(frame: Seq<u8>, target: Seq<char>) -> FrameOutcome {
    if frame.len() < 20 {
        FrameOutcome::TooShortIp
    } else {
        let ip = spec_decode_ip(frame);
        if spec_ipv4_text(ip.dst) != target {
            FrameOutcome::NotForTarget
        } else if frame.len() < spec_transport_offset(ip.ver_ihl) + 21 {
            FrameOutcome::TooShortTcp
        } else if spec_flags_accept(spec_frame_tcp(frame).flags) {
            FrameOutcome::Accepted { port: spec_frame_tcp(frame).destination_port }
        } else {
            FrameOutcome::Ignored
        }
    }
}

/// Classifies one received frame against the configured target address;
/// total over every byte buffer, and never panics.
pub fn classify_frame(frame: &[u8], target: &str) -> (o: FrameOutcome)
    ensures
        o == spec_classify(frame@, target@),
{
    let ip = match IP::new(frame) {
        Some(h) => h,
        None => {
            return FrameOutcome::TooShortIp;
        },
    };
    let dst = ip.dst_address();
    let t = target.to_owned();
    if !(dst == t) {
        return FrameOutcome::NotForTarget;
    }
    let off = ip.transport_offset();
    if frame.len() < off + 21 {
        return FrameOutcome::TooShortTcp;
    }
    let sub = slice_subrange(frame, off, off + 21);
    let tcp = TCP::new(sub);
    if flags_accept(tcp.flags) {
        FrameOutcome::Accepted { port: tcp.destination_port }
    } else {
        FrameOutcome::Ignored
    }
}

/// Classifies one frame and updates the aggregator: an accepted frame adds
/// one observation for its destination port; any other outcome leaves the
/// table exactly as it was.
pub fn capture_step(table: &mut ResultTable, frame: &[u8], target: &str) -> (o: FrameOutcome)
    requires
        old(table).wf(),
    ensures
        final(table).wf(),
        old(table).all_positive() ==> final(table).all_positive(),
        o == spec_classify(frame@, target@),
        o matches FrameOutcome::Accepted { port } ==> final(table).spec_count(port) == sat_inc(
            old(table).spec_count(port),
        ) && (forall|q: u16|
            q != port ==> final(table).spec_count(q) == old(table).spec_count(q)),
        !(o matches FrameOutcome::Accepted { .. }) ==> *final(table) == *old(table),
{
    let o = classify_frame(frame, target);
    if let FrameOutcome::Accepted { port } = o {
        table.increment(port);
    }
    o
}

/// One thing the run observes during the capture window: a frame arriving
/// at the capture socket, or an outbound probe attempt to a port.
pub enum ScanEvent {
    /// A raw frame received by the capture side.
    Frame(Vec<u8>),
    /// A probe attempt; it elicits traffic but never touches the table.
    Probe(u16),
}

/// What one event contributes to the count of `port`: one for a frame that
/// the heuristic accepts for that port, nothing for anything else.
pub open spec fn spec_event_contrib(e: ScanEvent, target: Seq<char>, port: u16) -> nat {
    match e {
        ScanEvent::Frame(f) => if spec_classify(f@, target) == (FrameOutcome::Accepted {
            port,
        }) {
            1
        } else {
            0
        },
        ScanEvent::Probe(_) => 0,
    }
}

/// How many events of a run are frames accepted for `port`.
pub open spec fn spec_accepted_count(events: Seq<ScanEvent>, target: Seq<char>, port: u16) -> nat
    decreases events.len(),
{
    if events.len() == 0 {
        0
    } else {
        spec_event_contrib(events[0], target, port) + spec_accepted_count(
            events.drop_first(),
            target,
            port,
        )
    }
}

/// A count raised by `k` observations, saturating at the top.
pub open spec fn sat_add(c: u64, k: nat) -> u64 {
    if c + k <= u64::MAX {
        (c + k) as u64
    } else {
        u64::MAX
    }
}

/// One more saturating observation on top of `k` is `k + 1` of them.
proof fn lemma_sat_inc_add(c: u64, k: nat)
    ensures
        sat_inc(sat_add(c, k)) == sat_add(c, k + 1),
{
}

/// One more event at the end contributes its own count and nothing else.
proof fn lemma_accepted_count_push(events: Seq<ScanEvent>, x: ScanEvent, target: Seq<char>, q: u16)
    ensures
        spec_accepted_count(events.push(x), target, q) == spec_accepted_count(events, target, q)
            + spec_event_contrib(x, target, q),
    decreases events.len(),
{
    if events.len() == 0 {
        assert(events.push(x)[0] == x);
        assert(events.push(x).drop_first() =~= Seq::<ScanEvent>::empty());
        assert(spec_accepted_count(Seq::<ScanEvent>::empty(), target, q) == 0);
    } else {
        lemma_accepted_count_push(events.drop_first(), x, target, q);
        assert(events.push(x)[0] == events[0]);
        assert(events.push(x).drop_first() =~= events.drop_first().push(x));
    }
}

/// Replays a whole run of interleaved frames and probes against the
/// aggregator. Whatever the interleaving, the final count of every port is
/// its starting count plus exactly the number of frames whose flags satisfy
/// the acceptance heuristic for that port (saturating at the top); probe
/// events never change the table.
pub fn process_events(table: &mut ResultTable, events: &Vec<ScanEvent>, target: &str)
    requires
        old(table).wf(),
    ensures
        final(table).wf(),
        old(table).all_positive() ==> final(table).all_positive(),
        forall|q: u16|
            final(table).spec_count(q) == sat_add(
                old(table).spec_count(q),
                spec_accepted_count(events@, target@, q),
            ),
{
    let mut i: usize = 0;
    while i < events.len()
        invariant
            old(table).wf(),
            table.wf(),
            old(table).all_positive() ==> table.all_positive(),
            i <= events@.len(),
            forall|q: u16|
                table.spec_count(q) == sat_add(
                    old(table).spec_count(q),
                    spec_accepted_count(events@.take(i as int), target@, q),
                ),
        decreases events@.len() - i,
    {
        let ghost before = *table;
        let ghost done = events@.take(i as int);
        match &events[i] {
            ScanEvent::Frame(f) => {
                capture_step(table, f.as_slice(), target);
            },
            ScanEvent::Probe(_) => {},
        }
        proof {
            assert(events@.take(i + 1 as int) =~= done.push(events@[i as int]));
            assert forall|q: u16|
                table.spec_count(q) == sat_add(
                    old(table).spec_count(q),
                    spec_accepted_count(events@.take(i + 1 as int), target@, q),
                ) by {
                lemma_accepted_count_push(done, events@[i as int], target@, q);
                lemma_sat_inc_add(
                    old(table).spec_count(q),
                    spec_accepted_count(done, target@, q),
                );
            }
        }
        i += 1;
    }
    proof {
        assert(events@.take(events@.len() as int) =~= events@);
    }
}

/// A frame destined for the target whose flag field has the acknowledgment
/// bit set and the finish and push bits clear is accepted, with its
/// destination port; together with the contract of `capture_step`, its
/// port's count then grows by exactly one observation.
pub proof fn lemma_ack_frame_accepted(frame: Seq<u8>, target: Seq<char>)
    requires
        frame.len() >= 20,
        spec_ipv4_text(spec_decode_ip(frame).dst) == target,
        frame.len() >= spec_transport_offset(spec_decode_ip(frame).ver_ihl) + 21,
        spec_frame_tcp(frame).flags & ACK != 0,
        spec_frame_tcp(frame).flags & FIN == 0,
        spec_frame_tcp(frame).flags & PSH == 0,
    ensures
        spec_classify(frame, target) == (FrameOutcome::Accepted {
            port: spec_frame_tcp(frame).destination_port,
        }),
{
}

/// A frame destined for the target whose flag field is all zero is not
/// accepted; together with the contract of `capture_step`, the aggregator
/// is then unchanged.
pub proof fn lemma_flagless_frame_ignored(frame: Seq<u8>, target: Seq<char>)
    requires
        frame.len() >= 20,
        spec_ipv4_text(spec_decode_ip(frame).dst) == target,
        frame.len() >= spec_transport_offset(spec_decode_ip(frame).ver_ihl) + 21,
        spec_frame_tcp(frame).flags == 0,
    ensures
        spec_classify(frame, target) == FrameOutcome::Ignored,
{
    assert(0u16 & ACK == 0) by (bit_vector);
}

} // verus!
