//! The report step: turns the final snapshot of the result aggregator into
//! the lines the run prints.
//!
//! Every port whose count reached at least one observation is reported open
//! with that count as its confidence; a run in which no port recorded any
//! count reports every scanned port closed.

use vstd::prelude::*;
use vstd::string::StringExecFns;

use crate::text::{dec_u64, spec_dec};

verus! {

/// The report line for one open port.
pub open spec fn spec_port_line(port: u16, count: u64) -> Seq<char> {
    "Port "@ + spec_dec(port as nat) + " open (confidence: "@ + spec_dec(count as nat) + ")"@
}

/// The report line for a run that observed nothing.
pub open spec fn spec_closed_line(host: Seq<char>) -> Seq<char> {
    "All scanned ports on "@ + host + " are closed"@
}

/// The report lines that a sequence of snapshot entries yields: one line
/// per entry whose count is at least one, in entry order.
pub open spec fn spec_report(entries: Seq<(u16, u64)>) -> Seq<Seq<char>>
    decreases entries.len(),
{
    if entries.len() == 0 {
        Seq::empty()
    } else {
        let head = if entries[0].1 >= 1 {
            seq![spec_port_line(entries[0].0, entries[0].1)]
        } else {
            Seq::<Seq<char>>::empty()
        };
        head + spec_report(entries.drop_first())
    }
}

/// One more entry at the end contributes its own line, or nothing, after
/// all earlier lines.
proof fn lemma_report_push(entries: Seq<(u16, u64)>, x: (u16, u64))
    ensures
        spec_report(entries.push(x)) == spec_report(entries) + (if x.1 >= 1 {
            seq![spec_port_line(x.0, x.1)]
        } else {
            Seq::<Seq<char>>::empty()
        }),
    decreases entries.len(),
{
    if entries.len() == 0 {
        assert(entries.push(x)[0] == x);
        assert(entries.push(x).drop_first() =~= Seq::<(u16, u64)>::empty());
        assert(spec_report(Seq::<(u16, u64)>::empty()) == Seq::<Seq<char>>::empty());
        assert(spec_report(entries.push(x)) =~= spec_report(entries) + (if x.1 >= 1 {
            seq![spec_port_line(x.0, x.1)]
        } else {
            Seq::<Seq<char>>::empty()
        }));
    } else {
        lemma_report_push(entries.drop_first(), x);
        assert(entries.push(x)[0] == entries[0]);
        assert(entries.push(x).drop_first() =~= entries.drop_first().push(x));
        assert(spec_report(entries.push(x)) =~= spec_report(entries) + (if x.1 >= 1 {
            seq![spec_port_line(x.0, x.1)]
        } else {
            Seq::<Seq<char>>::empty()
        }));
    }
}

/// Where every snapshot entry records at least one observation — as every
/// table built by the aggregator does — the report lists every observed
/// port, in order, each with its own count as the confidence.
pub proof fn lemma_report_lists_every_observed_port(entries: Seq<(u16, u64)>)
    requires
        forall|k: int| 0 <= k < entries.len() ==> (#[trigger] entries[k]).1 >= 1,
    ensures
        spec_report(entries).len() == entries.len(),
        forall|k: int|
            0 <= k < entries.len() ==> spec_report(entries)[k] == spec_port_line(
                entries[k].0,
                entries[k].1,
            ),
    decreases entries.len(),
{
    if entries.len() > 0 {
        assert(forall|k: int|
            0 <= k < entries.drop_first().len() ==> (#[trigger] entries.drop_first()[k]).1 >= 1);
        lemma_report_lists_every_observed_port(entries.drop_first());
        assert(entries[0].1 >= 1);
        assert(spec_report(entries) == seq![spec_port_line(entries[0].0, entries[0].1)]
            + spec_report(entries.drop_first()));
    }
}

/// Renders the line for one open port.
pub fn port_line(port: u16, count: u64) -> (r: String)
    ensures
        r@ == spec_port_line(port, count),
{
    let mut r = "Port ".to_owned();
    let p = dec_u64(port as u64);
    r.append(p.as_str());
    r.append(" open (confidence: ");
    let c = dec_u64(count);
    r.append(c.as_str());
    r.append(")");
    r
}

/// Renders the line for a run that observed nothing.
pub fn closed_line(host: &str) -> (r: String)
    ensures
        r@ == spec_closed_line(host@),
{
    let mut r = "All scanned ports on ".to_owned();
    r.append(host);
    r.append(" are closed");
    r
}

/// Turns the final snapshot into the printed report: a line per port with a
/// count of at least one, in snapshot order, or the single closed line when
/// the snapshot is empty.
pub fn report_lines(host: &str, snapshot: &Vec<(u16, u64)>) -> (r: Vec<String>)
    ensures
        snapshot@.len() == 0 ==> r@.len() == 1 && r@[0]@ == spec_closed_line(host@),
        snapshot@.len() > 0 ==> r@.map_values(|line: String| line@) == spec_report(snapshot@),
{
    if snapshot.len() == 0 {
        let mut r: Vec<String> = Vec::new();
        r.push(closed_line(host));
        return r;
    }
    let mut r: Vec<String> = Vec::new();
    let mut i: usize = 0;
    while i < snapshot.len()
        invariant
            i <= snapshot@.len(),
            r@.map_values(|line: String| line@) == spec_report(snapshot@.take(i as int)),
        decreases snapshot@.len() - i,
    {
        let entry = snapshot[i];
        let ghost done = snapshot@.take(i as int);
        if entry.1 >= 1 {
            let line = port_line(entry.0, entry.1);
            r.push(line);
        }
        proof {
            assert(snapshot@.take(i + 1 as int) =~= done.push(snapshot@[i as int]));
            lemma_report_push(done, snapshot@[i as int]);
            assert(r@.map_values(|line: String| line@) =~= spec_report(
                snapshot@.take(i + 1 as int),
            ));
        }
        i += 1;
    }
    proof {
        assert(snapshot@.take(snapshot@.len() as int) =~= snapshot@);
    }
    r
}

} // verus!
