//! Stateless decoders for IP, TCP, UDP and ICMP headers from fixed byte
//! layouts, and the matching encoder for the IP header.
//!
//! All multi-byte fields are big-endian at fixed offsets. The decoders are
//! deterministic, side-effect-free and total over valid-length input.

use vstd::prelude::*;

use crate::bytes::{
    be16, be32, lemma_be16_split, lemma_be32_split, spec_be16, spec_be32, spec_byte32, spec_hi16,
    spec_lo16,
};

verus! {

/// A decoded IPv4 header: the fixed 20-byte prefix of a frame.
pub struct IP {
    pub ver_ihl: u8,
    pub tos: u8,
    pub len: u16,
    pub id: u16,
    pub offset: u16,
    pub ttl: u8,
    pub protocol_num: u8,
    pub sum: u16,
    pub src: u32,
    pub dst: u32,
}

/// The IP header that the first 20 bytes of `b` denote.
pub open spec fn spec_decode_ip(b: Seq<u8>) -> IP
    recommends
        b.len() >= 20,
{
    IP {
        ver_ihl: b[0],
        tos: b[1],
        len: spec_be16(b[2], b[3]),
        id: spec_be16(b[4], b[5]),
        offset: spec_be16(b[6], b[7]),
        ttl: b[8],
        protocol_num: b[9],
        sum: spec_be16(b[10], b[11]),
        src: spec_be32(b[12], b[13], b[14], b[15]),
        dst: spec_be32(b[16], b[17], b[18], b[19]),
    }
}

/// The 20 bytes that an IP header encodes to, big-endian field by field.
pub open spec fn spec_encode_ip(h: IP) -> Seq<u8> {
    seq![
        h.ver_ihl,
        h.tos,
        spec_hi16(h.len),
        spec_lo16(h.len),
        spec_hi16(h.id),
        spec_lo16(h.id),
        spec_hi16(h.offset),
        spec_lo16(h.offset),
        h.ttl,
        h.protocol_num,
        spec_hi16(h.sum),
        spec_lo16(h.sum),
        spec_byte32(h.src, 0),
        spec_byte32(h.src, 1),
        spec_byte32(h.src, 2),
        spec_byte32(h.src, 3),
        spec_byte32(h.dst, 0),
        spec_byte32(h.dst, 1),
        spec_byte32(h.dst, 2),
        spec_byte32(h.dst, 3),
    ]
}

/// Where the transport header begins: the header length taken from the low
/// four bits of the first byte, in 32-bit words, with a fall back to the
/// fixed 20 bytes when that length is implausible.
pub open spec fn spec_transport_offset(ver_ihl: u8) -> int {
    let words = ver_ihl & 0x0F;
    if 5 <= words {
        words * 4
    } else {
        20
    }
}

impl IP {
    /// Decodes the first 20 bytes of a buffer as an IP header; returns
    /// nothing when the buffer is shorter than 20 bytes, and never panics.
    pub fn new(buff: &[u8]) -> (r: Option<IP>)
        ensures
            buff@.len() >= 20 ==> r == Some(spec_decode_ip(buff@)),
            buff@.len() < 20 ==> r is None,
    {
        if buff.len() >= 20 {
            Some(
                IP {
                    ver_ihl: buff[0],
                    tos: buff[1],
                    len: be16(buff[2], buff[3]),
                    id: be16(buff[4], buff[5]),
                    offset: be16(buff[6], buff[7]),
                    ttl: buff[8],
                    protocol_num: buff[9],
                    sum: be16(buff[10], buff[11]),
                    src: be32(buff[12], buff[13], buff[14], buff[15]),
                    dst: be32(buff[16], buff[17], buff[18], buff[19]),
                },
            )
        } else {
            None
        }
    }

    /// Re-encodes the header into the 20 bytes it was read from.
    pub fn encode(&self) -> (r: Vec<u8>)
        ensures
            r@ == spec_encode_ip(*self),
    {
        let mut r: Vec<u8> = Vec::new();
        r.push(self.ver_ihl);
        r.push(self.tos);
        r.push((self.len / 256) as u8);
        r.push((self.len % 256) as u8);
        r.push((self.id / 256) as u8);
        r.push((self.id % 256) as u8);
        r.push((self.offset / 256) as u8);
        r.push((self.offset % 256) as u8);
        r.push(self.ttl);
        r.push(self.protocol_num);
        r.push((self.sum / 256) as u8);
        r.push((self.sum % 256) as u8);
        r.push((self.src / 0x1000000) as u8);
        r.push(((self.src / 0x10000) % 256) as u8);
        r.push(((self.src / 0x100) % 256) as u8);
        r.push((self.src % 256) as u8);
        r.push((self.dst / 0x1000000) as u8);
        r.push(((self.dst / 0x10000) % 256) as u8);
        r.push(((self.dst / 0x100) % 256) as u8);
        r.push((self.dst % 256) as u8);
        proof {
            assert(r@ =~= spec_encode_ip(*self));
        }
        r
    }

    /// The byte offset of the transport header within the frame, computed
    /// from the header-length field and clamped to the plausible range.
    pub fn transport_offset(&self) -> (r: usize)
        ensures
            r == spec_transport_offset(self.ver_ihl),
            20 <= r <= 60,
    {
        let vi = self.ver_ihl;
        let words = vi & 0x0F;
        assert(words <= 15) by (bit_vector)
            requires words == vi & 0x0F;
        if 5 <= words {
            (words as usize) * 4
        } else {
            20
        }
    }
}

/// Re-encoding the header decoded from a valid buffer reproduces the first
/// 20 bytes of that buffer, field for field.
pub proof fn lemma_ip_round_trip(b: Seq<u8>)
    requires
        b.len() >= 20,
    ensures
        spec_encode_ip(spec_decode_ip(b)) == b.subrange(0, 20),
{
    lemma_be16_split(b[2], b[3]);
    lemma_be16_split(b[4], b[5]);
    lemma_be16_split(b[6], b[7]);
    lemma_be16_split(b[10], b[11]);
    lemma_be32_split(b[12], b[13], b[14], b[15]);
    lemma_be32_split(b[16], b[17], b[18], b[19]);
    assert(spec_encode_ip(spec_decode_ip(b)) =~= b.subrange(0, 20));
}

/// A decoded TCP header. The flag field is read as the 16 bits at offsets
/// 13 and 14: the reserved and control byte on top, the ACK/PSH/RST/SYN/FIN
/// flag byte below. The fixed header therefore spans 21 bytes of input.
pub struct TCP {
    pub source_port: u16,
    pub destination_port: u16,
    pub sequence_number: u32,
    pub acknowledgment_number: u32,
    pub data_offset: u8,
    pub reserved: u8,
    pub flags: u16,
    pub window_size: u16,
    pub checksum: u16,
    pub urgent_pointer: u16,
}

/// The TCP header that the first 21 bytes of `b` denote.
pub open spec fn spec_decode_tcp(b: Seq<u8>) -> TCP
    recommends
        b.len() >= 21,
{
    TCP {
        source_port: spec_be16(b[0], b[1]),
        destination_port: spec_be16(b[2], b[3]),
        sequence_number: spec_be32(b[4], b[5], b[6], b[7]),
        acknowledgment_number: spec_be32(b[8], b[9], b[10], b[11]),
        data_offset: ((b[12] >> 4) * 4) as u8,
        reserved: b[12] & 0x0F,
        flags: spec_be16(b[13], b[14]),
        window_size: spec_be16(b[15], b[16]),
        checksum: spec_be16(b[17], b[18]),
        urgent_pointer: spec_be16(b[19], b[20]),
    }
}

impl TCP {
    /// Decodes the fixed TCP header fields from the front of a buffer.
    /// Callers must pre-validate the length.
    pub fn new(buffer: &[u8]) -> (r: TCP)
        requires
            buffer@.len() >= 21,
        ensures
            r == spec_decode_tcp(buffer@),
    {
        let b12 = buffer[12];
        let nibble = b12 >> 4;
        assert(nibble <= 15) by (bit_vector)
            requires nibble == b12 >> 4;
        TCP {
            source_port: be16(buffer[0], buffer[1]),
            destination_port: be16(buffer[2], buffer[3]),
            sequence_number: be32(buffer[4], buffer[5], buffer[6], buffer[7]),
            acknowledgment_number: be32(buffer[8], buffer[9], buffer[10], buffer[11]),
            data_offset: nibble * 4,
            reserved: b12 & 0x0F,
            flags: be16(buffer[13], buffer[14]),
            window_size: be16(buffer[15], buffer[16]),
            checksum: be16(buffer[17], buffer[18]),
            urgent_pointer: be16(buffer[19], buffer[20]),
        }
    }
}

/// A decoded UDP header: the fixed 8-byte prefix of the transport payload.
pub struct UDP {
    pub source_port: u16,
    pub destination_port: u16,
    pub length: u16,
    pub checksum: u16,
}

/// The UDP header that the first 8 bytes of `b` denote.
pub open spec fn spec_decode_udp(b: Seq<u8>) -> UDP
    recommends
        b.len() >= 8,
{
    UDP {
        source_port: spec_be16(b[0], b[1]),
        destination_port: spec_be16(b[2], b[3]),
        length: spec_be16(b[4], b[5]),
        checksum: spec_be16(b[6], b[7]),
    }
}

impl UDP {
    /// Decodes the UDP header fields from the front of a buffer.
    /// Callers must pre-validate the length.
    pub fn new(buffer: &[u8]) -> (r: UDP)
        requires
            buffer@.len() >= 8,
        ensures
            r == spec_decode_udp(buffer@),
    {
        UDP {
            source_port: be16(buffer[0], buffer[1]),
            destination_port: be16(buffer[2], buffer[3]),
            length: be16(buffer[4], buffer[5]),
            checksum: be16(buffer[6], buffer[7]),
        }
    }
}

/// A decoded ICMP header: the fixed 8-byte prefix of the transport payload.
pub struct ICMP {
    pub type_: u8,
    pub code: u8,
    pub sum: u16,
    pub id: u16,
    pub seq: u16,
}

/// The ICMP header that the first 8 bytes of `b` denote.
pub open spec fn spec_decode_icmp(b: Seq<u8>) -> ICMP
    recommends
        b.len() >= 8,
{
    ICMP {
        type_: b[0],
        code: b[1],
        sum: spec_be16(b[2], b[3]),
        id: spec_be16(b[4], b[5]),
        seq: spec_be16(b[6], b[7]),
    }
}

impl ICMP {
    /// Decodes the ICMP header fields from the front of a buffer.
    /// Callers must pre-validate the length.
    pub fn new(buff: &[u8]) -> (r: ICMP)
        requires
            buff@.len() >= 8,
        ensures
            r == spec_decode_icmp(buff@),
    {
        ICMP {
            type_: buff[0],
            code: buff[1],
            sum: be16(buff[2], buff[3]),
            id: be16(buff[4], buff[5]),
            seq: be16(buff[6], buff[7]),
        }
    }
}

} // verus!
