//! The probe driver's computation: the target and the text addresses that
//! the outbound connection attempts are made to.
//!
//! The connections themselves (short-lived streams with a fixed timeout,
//! whose success or failure is deliberately ignored) happen outside the
//! library; what is verified here is that every probe goes to the right
//! `host:port` address, in the caller-supplied port order.

use vstd::prelude::*;
use vstd::string::StringExecFns;

use crate::text::{dec_u64, spec_dec};

verus! {

/// A destination host as text plus an ordered list of ports to probe;
/// immutable for the lifetime of a run.
pub struct ProbeTarget {
    pub host: String,
    pub ports: Vec<u16>,
}

/// The text address one probe attempt connects to.
pub open spec fn spec_probe_addr(host: Seq<char>, port: u16) -> Seq<char> {
    host + seq![':'] + spec_dec(port as nat)
}

/// Renders the `host:port` address of one probe attempt.
pub fn format_probe_addr(host: &str, port: u16) -> (r: String)
    ensures
        r@ == spec_probe_addr(host@, port),
{
    proof {
        reveal_strlit(":");
        assert(":"@ =~= seq![':']);
    }
    let mut r = host.to_owned();
    r.append(":");
    let p = dec_u64(port as u64);
    r.append(p.as_str());
    proof {
        assert(r@ =~= spec_probe_addr(host@, port));
    }
    r
}

impl ProbeTarget {
    /// The addresses of all probe attempts, one per port, in list order.
    pub fn probe_plan(&self) -> (r: Vec<String>)
        ensures
            r@.len() == self.ports@.len(),
            forall|i: int|
                0 <= i < r@.len() ==> (#[trigger] r@[i])@ == spec_probe_addr(
                    self.host@,
                    self.ports@[i],
                ),
    {
        let mut r: Vec<String> = Vec::new();
        let mut i: usize = 0;
        while i < self.ports.len()
            invariant
                i <= self.ports@.len(),
                r@.len() == i,
                forall|k: int|
                    0 <= k < i ==> (#[trigger] r@[k])@ == spec_probe_addr(
                        self.host@,
                        self.ports@[k],
                    ),
            decreases self.ports@.len() - i,
        {
            let addr = format_probe_addr(self.host.as_str(), self.ports[i]);
            r.push(addr);
            i += 1;
        }
        r
    }
}

} // verus!
