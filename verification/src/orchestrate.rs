//! The orchestrator: the fixed sequence a run follows, as a state machine
//! from phase to phase, each step naming the one outside action to perform.
//!
//! The run starts the capture side, sleeps through a warm-up interval so
//! the capture socket is ready, probes every port in list order, sleeps
//! through a drain interval so the last response frames are captured, then
//! takes the one snapshot and reports. The caller owns the loop: it performs
//! each action (spawning, sleeping, connecting, snapshotting) and calls back
//! for the next step, so the decisions here are verified while the waiting
//! and the sockets stay outside.

use vstd::prelude::*;

use crate::probe::{format_probe_addr, spec_probe_addr, ProbeTarget};

verus! {

/// Seconds slept between starting the capture side and the first probe.
pub const WARMUP_SECS: u64 = 1;

/// Seconds slept between the last probe and the snapshot.
pub const DRAIN_SECS: u64 = 2;

/// Where in the fixed sequence a run stands.
#[derive(Clone, Copy, Debug, PartialEq, Eq, Structural)]
pub enum Phase {
    /// Nothing has happened yet; the capture side starts next.
    Starting,
    /// The capture side is up; the warm-up sleep comes next.
    Warmup,
    /// Probing: `next` ports have been attempted so far.
    Probing { next: usize },
    /// All probes attempted; the drain sleep comes next.
    Draining,
    /// Drained; the snapshot and the report come next.
    Reporting,
    /// The run is over.
    Done,
}

/// The one outside action the caller performs for a step.
pub enum Action {
    /// Start the capture loop on a background execution context.
    StartCapture,
    /// Sleep this many seconds.
    Sleep { secs: u64 },
    /// Attempt one outbound connection to this `host:port` address, with
    /// the fixed per-attempt timeout; ignore whether it succeeds.
    Connect { addr: String },
    /// Take the one snapshot of the aggregator and print the report.
    Snapshot,
    /// Nothing is left to do.
    Halt,
}

/// The orchestrator: the run's target and its current phase.
pub struct Orchestrator {
    pub target: ProbeTarget,
    pub phase: Phase,
}

impl Orchestrator {
    /// The probe index never runs past the port list.
    pub open spec fn wf(self) -> bool {
        self.phase matches Phase::Probing { next } ==> next <= self.target.ports@.len()
    }

    /// Sets up a run over a target, ready to start.
    pub fn new(target: ProbeTarget) -> (r: Orchestrator)
        ensures
            r.wf(),
            r.phase == Phase::Starting,
            r.target == target,
    {
        Orchestrator { target, phase: Phase::Starting }
    }

    /// Advances the run by one phase and says what to do for it: start the
    /// capture side, sleep the warm-up, probe each port in list order,
    /// sleep the drain, snapshot and report, then halt.
    pub fn step(&mut self) -> (a: Action)
        requires
            old(self).wf(),
        ensures
            final(self).wf(),
            final(self).target == old(self).target,
            match old(self).phase {
                Phase::Starting => final(self).phase == Phase::Warmup && (
                a matches Action::StartCapture),
                Phase::Warmup => final(self).phase == (Phase::Probing { next: 0 }) && (
                a matches Action::Sleep { secs } && secs == WARMUP_SECS),
                Phase::Probing { next } => if next < old(self).target.ports@.len() {
                    final(self).phase == (Phase::Probing { next: (next + 1) as usize }) && (
                    a matches Action::Connect { addr } && addr@ == spec_probe_addr(
                        old(self).target.host@,
                        old(self).target.ports@[next as int],
                    ))
                } else {
                    final(self).phase == Phase::Draining && (a matches Action::Sleep { secs }
                        && secs == DRAIN_SECS)
                },
                Phase::Draining => final(self).phase == Phase::Reporting && (
                a matches Action::Snapshot),
                Phase::Reporting => final(self).phase == Phase::Done && (a matches Action::Halt),
                Phase::Done => final(self).phase == Phase::Done && (a matches Action::Halt),
            },
    {
        match self.phase {
            Phase::Starting => {
                self.phase = Phase::Warmup;
                Action::StartCapture
            },
            Phase::Warmup => {
                self.phase = Phase::Probing { next: 0 };
                Action::Sleep { secs: WARMUP_SECS }
            },
            Phase::Probing { next } => {
                if next < self.target.ports.len() {
                    let addr = format_probe_addr(self.target.host.as_str(), self.target.ports[next]);
                    self.phase = Phase::Probing { next: next + 1 };
                    Action::Connect { addr }
                } else {
                    self.phase = Phase::Draining;
                    Action::Sleep { secs: DRAIN_SECS }
                }
            },
            Phase::Draining => {
                self.phase = Phase::Reporting;
                Action::Snapshot
            },
            Phase::Reporting => {
                self.phase = Phase::Done;
                Action::Halt
            },
            Phase::Done => Action::Halt,
        }
    }
}

} // verus!
