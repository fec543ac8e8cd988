//! Per-frame inspection for the ICMP and UDP capture loops.
//!
//! Beside the probing scanner, a capture socket can be opened for ICMP or
//! UDP traffic and every received frame described. The decisions those
//! loops take per frame live here: length checks, the protocol test, and
//! where in the frame the transport header is decoded. The loops themselves
//! (socket, receive, print) stay outside the library.

use vstd::prelude::*;
use vstd::slice::slice_subrange;
use vstd::string::StringExecFns;

use crate::classify::spec_protocol_name;
use crate::headers::{spec_decode_icmp, spec_decode_ip, spec_decode_udp, ICMP, IP, UDP};

verus! {

/// What the ICMP watcher decides about one received frame.
#[derive(Clone, Copy, Debug, PartialEq, Eq, Structural)]
pub enum IcmpOutcome {
    /// Shorter than an IP header; logged and skipped.
    TooShortIp,
    /// Not ICMP traffic by the header's protocol name; skipped silently.
    NotIcmp,
    /// The transport offset leaves no room for an ICMP header; logged and
    /// skipped.
    TooShortIcmp,
    /// An ICMP header was decoded: its type and code name the reason.
    Icmp { type_: u8, code: u8 },
}

/// The decision the ICMP watcher takes on one frame. The byte offset of the
/// ICMP header is taken from the IP header's fragment-offset field, as the
/// watcher reads it.
pub open spec fn spec_inspect_icmp(frame: Seq<u8>) -> IcmpOutcome {
    if frame.len() < 20 {
        IcmpOutcome::TooShortIp
    } else {
        let ip = spec_decode_ip(frame);
        if spec_protocol_name(ip.protocol_num) != "ICMP"@ {
            IcmpOutcome::NotIcmp
        } else if frame.len() < ip.offset + 8 {
            IcmpOutcome::TooShortIcmp
        } else {
            let icmp = spec_decode_icmp(frame.subrange(ip.offset as int, ip.offset + 8));
            IcmpOutcome::Icmp { type_: icmp.type_, code: icmp.code }
        }
    }
}

/// Inspects one frame from the ICMP capture socket; total over every byte
/// buffer, and never panics.
pub fn inspect_icmp_frame(frame: &[u8]) -> (o: IcmpOutcome)
    ensures
        o == spec_inspect_icmp(frame@),
{
    let ip = match IP::new(frame) {
        Some(h) => h,
        None => {
            return IcmpOutcome::TooShortIp;
        },
    };
    let name = ip.protocol();
    if !(name == "ICMP".to_owned()) {
        return IcmpOutcome::NotIcmp;
    }
    let off = ip.offset as usize;
    if frame.len() < off + 8 {
        return IcmpOutcome::TooShortIcmp;
    }
    let sub = slice_subrange(frame, off, off + 8);
    let icmp = ICMP::new(sub);
    IcmpOutcome::Icmp { type_: icmp.type_, code: icmp.code }
}

/// The decoded headers of one frame from the UDP capture socket: the IP
/// header and the UDP header at the fixed 20-byte transport offset; nothing
/// for a frame shorter than the two headers together.
pub open spec fn spec_inspect_udp(frame: Seq<u8>) -> Option<(IP, UDP)> {
    if frame.len() < 28 {
        None
    } else {
        Some((spec_decode_ip(frame), spec_decode_udp(frame.subrange(20, 28))))
    }
}

/// Inspects one frame from the UDP capture socket; total over every byte
/// buffer, and never panics.
pub fn inspect_udp_frame(frame: &[u8]) -> (o: Option<(IP, UDP)>)
    ensures
        o == spec_inspect_udp(frame@),
{
    if frame.len() < 28 {
        return None;
    }
    let ip = match IP::new(frame) {
        Some(h) => h,
        None => {
            return None;
        },
    };
    let sub = slice_subrange(frame, 20, 28);
    let udp = UDP::new(sub);
    Some((ip, udp))
}

} // verus!
