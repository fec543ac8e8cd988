//! Verified text rendering: decimal numbers and dotted-quad addresses.
//!
//! The header getters present their fields as text, the classifier falls
//! back to the decimal string of an unknown number, and the report names
//! ports and counts in decimal; everything is specified down to the
//! character sequence.

use vstd::prelude::*;
use vstd::string::StringExecFns;

use crate::bytes::spec_byte32;
use crate::headers::IP;

verus! {

/// The character for one decimal digit.
pub open spec fn digit_char(d: nat) -> char {
    if d == 0 {
        '0'
    } else if d == 1 {
        '1'
    } else if d == 2 {
        '2'
    } else if d == 3 {
        '3'
    } else if d == 4 {
        '4'
    } else if d == 5 {
        '5'
    } else if d == 6 {
        '6'
    } else if d == 7 {
        '7'
    } else if d == 8 {
        '8'
    } else {
        '9'
    }
}

/// The decimal rendering of a number, most significant digit first, with
/// no leading zeroes (a lone zero for 0).
pub open spec fn spec_dec(n: nat) -> Seq<char>
    decreases n,
{
    if n < 10 {
        seq![digit_char(n)]
    } else {
        spec_dec(n / 10) + seq![digit_char(n % 10)]
    }
}

/// The string of a single decimal digit.
fn digit_string(d: u64) -> (r: String)
    requires
        d < 10,
    ensures
        r@ == seq![digit_char(d as nat)],
{
    let s: &str = if d == 0 {
        "0"
    } else if d == 1 {
        "1"
    } else if d == 2 {
        "2"
    } else if d == 3 {
        "3"
    } else if d == 4 {
        "4"
    } else if d == 5 {
        "5"
    } else if d == 6 {
        "6"
    } else if d == 7 {
        "7"
    } else if d == 8 {
        "8"
    } else {
        "9"
    };
    proof {
        reveal_strlit("0");
        reveal_strlit("1");
        reveal_strlit("2");
        reveal_strlit("3");
        reveal_strlit("4");
        reveal_strlit("5");
        reveal_strlit("6");
        reveal_strlit("7");
        reveal_strlit("8");
        reveal_strlit("9");
        assert(s@ =~= seq![digit_char(d as nat)]);
    }
    s.to_owned()
}

/// Renders a number in decimal.
pub fn dec_u64(n: u64) -> (r: String)
    ensures
        r@ == spec_dec(n as nat),
    decreases n,
{
    if n < 10 {
        digit_string(n)
    } else {
        let mut r = dec_u64(n / 10);
        let d = digit_string(n % 10);
        r.append(d.as_str());
        r
    }
}

/// The dotted-quad text of a 32-bit address, most significant byte first.
pub open spec fn spec_ipv4_text(addr: u32) -> Seq<char> {
    spec_dec(spec_byte32(addr, 0) as nat) + seq!['.'] + spec_dec(spec_byte32(addr, 1) as nat)
        + seq!['.'] + spec_dec(spec_byte32(addr, 2) as nat) + seq!['.'] + spec_dec(
        spec_byte32(addr, 3) as nat,
    )
}

/// Renders a 32-bit address as dotted-quad text.
pub fn ipv4_text(addr: u32) -> (r: String)
    ensures
        r@ == spec_ipv4_text(addr),
{
    let b0 = addr / 0x1000000;
    let b1 = (addr / 0x10000) % 256;
    let b2 = (addr / 0x100) % 256;
    let b3 = addr % 256;
    proof {
        reveal_strlit(".");
        assert("."@ =~= seq!['.']);
    }
    let mut r = dec_u64(b0 as u64);
    r.append(".");
    let t1 = dec_u64(b1 as u64);
    r.append(t1.as_str());
    r.append(".");
    let t2 = dec_u64(b2 as u64);
    r.append(t2.as_str());
    r.append(".");
    let t3 = dec_u64(b3 as u64);
    r.append(t3.as_str());
    proof {
        assert(r@ =~= spec_ipv4_text(addr));
    }
    r
}

impl IP {
    /// The fragment-offset field as decimal text.
    pub fn offset(&self) -> (r: String)
        ensures
            r@ == spec_dec(self.offset as nat),
    {
        dec_u64(self.offset as u64)
    }

    /// The time-to-live field as decimal text.
    pub fn ttl(&self) -> (r: String)
        ensures
            r@ == spec_dec(self.ttl as nat),
    {
        dec_u64(self.ttl as u64)
    }

    /// The version/header-length byte as decimal text.
    pub fn ver(&self) -> (r: String)
        ensures
            r@ == spec_dec(self.ver_ihl as nat),
    {
        dec_u64(self.ver_ihl as u64)
    }

    /// The total-length field as decimal text.
    pub fn len(&self) -> (r: String)
        ensures
            r@ == spec_dec(self.len as nat),
    {
        dec_u64(self.len as u64)
    }

    /// The source address as dotted-quad text.
    pub fn src_address(&self) -> (r: String)
        ensures
            r@ == spec_ipv4_text(self.src),
    {
        ipv4_text(self.src)
    }

    /// The destination address as dotted-quad text.
    pub fn dst_address(&self) -> (r: String)
        ensures
            r@ == spec_ipv4_text(self.dst),
    {
        ipv4_text(self.dst)
    }
}

} // verus!
