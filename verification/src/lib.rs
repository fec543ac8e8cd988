//! A passive-capture, active-probe port-activity classifier.
//!
//! The library decodes raw IP/TCP/UDP/ICMP headers from fixed byte layouts,
//! maps protocol numbers and ICMP type/code pairs to readable names, applies
//! a flag heuristic to captured frames, and aggregates per-port observation
//! counts into a final report. All socket work (the raw capture socket and
//! the outbound probe connections) lives outside the library; the functions
//! here are pure, total over their stated inputs, and fully specified.

pub mod aggregate;
pub mod bytes;
pub mod capture;
pub mod classify;
pub mod headers;
pub mod inspect;
pub mod orchestrate;
pub mod probe;
pub mod report;
pub mod text;
