//! The protocol classifier: maps an IP protocol number to its registry
//! name, and an ICMP type/code pair to a readable reason.
//!
//! `protocol_name` matches the registry table exactly, with named ranges for
//! the unassigned, experimental and reserved blocks; any number no arm lists
//! falls back to its decimal string, so the classifier is total. The ICMP
//! table is an ordered first-match scan: an entry matches when its type
//! equals the queried type and its code either equals the queried code or is
//! the wildcard 255. Every entry in this table carries a specific code, so
//! the wildcard alternative never fires; the scan is written out entry by
//! entry in table order, specific entries first.

use vstd::prelude::*;
use vstd::string::StringExecFns;

use crate::headers::IP;
use crate::text::{dec_u64, spec_dec};

verus! {

/// The registry name of a protocol number, or its decimal string where the
/// table has no entry.
pub open spec fn spec_protocol_name(num: u8) -> Seq<char> {
    match num {
        0 => "HOPOPT"@,
        1 => "ICMP"@,
        2 => "IGMP"@,
        3 => "GGP"@,
        4 => "IPv4"@,
        5 => "ST"@,
        6 => "TCP"@,
        7 => "CBT"@,
        8 => "EGP"@,
        9 => "IGP"@,
        10 => "BBN-RCC-MON"@,
        11 => "NVP-II"@,
        12 => "PUP"@,
        13 => "ARGUS"@,
        14 => "EMCON"@,
        15 => "XNET"@,
        16 => "CHAOS"@,
        17 => "UDP"@,
        18 => "MUX"@,
        19 => "DCN-MEAS"@,
        20 => "HMP"@,
        21 => "PRM"@,
        22 => "XNS-IDP"@,
        23 => "TRUNK-1"@,
        24 => "TRUNK-2"@,
        25 => "LEAF-1"@,
        26 => "LEAF-2"@,
        27 => "RDP"@,
        28 => "IRTP"@,
        29 => "ISO-TP4"@,
        30 => "NETBLT"@,
        31 => "MFE-NSP"@,
        32 => "MERIT-INP"@,
        33 => "DCCP"@,
        34 => "3PC"@,
        35 => "IDPR"@,
        36 => "XTP"@,
        37 => "DDP"@,
        38 => "IDPR-CMTP"@,
        39 => "TP++"@,
        40 => "IL"@,
        41 => "IPv6"@,
        42 => "SDRP"@,
        43 => "IPv6-Route"@,
        44 => "IPv6-Frag"@,
        45 => "IDRP"@,
        46 => "RSVP"@,
        47 => "GRE"@,
        48 => "DSR"@,
        49 => "BNA"@,
        50 => "ESP"@,
        51 => "AH"@,
        52 => "I-NLSP"@,
        53 => "SWIPE (deprecated)"@,
        54 => "NARP"@,
        55 => "MOBILE"@,
        56 => "TLSP"@,
        57 => "SKIP"@,
        58 => "IPv6-ICMP"@,
        59 => "IPv6-NoNxt"@,
        60 => "IPv6-Opts"@,
        61 => "any host internal protocol"@,
        62 => "CFTP"@,
        63 => "any local network"@,
        64 => "SAT-EXPAK"@,
        65 => "KRYPTOLAN"@,
        66 => "RVD"@,
        67 => "IPPC"@,
        68 => "any distributed file system"@,
        69 => "SAT-MON"@,
        70 => "VISA"@,
        71 => "IPCV"@,
        72 => "CPNX"@,
        73 => "CPHB"@,
        74 => "WSN"@,
        75 => "PVP"@,
        76 => "BR-SAT-MON"@,
        77 => "SUN-ND"@,
        78 => "WB-MON"@,
        79 => "WB-EXPAK"@,
        80 => "ISO-IP"@,
        81 => "VMTP"@,
        82 => "SECURE-VMTP"@,
        83 => "VINES"@,
        84 => "IPTM"@,
        85 => "NSFNET-IGP"@,
        86 => "DGP"@,
        87 => "TCF"@,
        88 => "EIGRP"@,
        89 => "OSPFIGP"@,
        90 => "Sprite-RPC"@,
        91 => "LARP"@,
        92 => "MTP"@,
        93 => "AX.25"@,
        94 => "IPIP"@,
        95 => "MICP (deprecated)"@,
        96 => "SCC-SP"@,
        97 => "ETHERIP"@,
        98 => "ENCAP"@,
        100 => "GMTP"@,
        101 => "IFMP"@,
        102 => "PNNI"@,
        103 => "PIM"@,
        104 => "ARIS"@,
        105 => "SCPS"@,
        106 => "QNX"@,
        107 => "A/N"@,
        108 => "IPComp"@,
        109 => "SNP"@,
        110 => "Compaq-Peer"@,
        111 => "IPX-in-IP"@,
        112 => "VRRP"@,
        113 => "PGM"@,
        114 => "any 0-hop protocol"@,
        115 => "L2TP"@,
        116 => "DDX"@,
        117 => "IATP"@,
        118 => "STP"@,
        119 => "SRP"@,
        120 => "UTI"@,
        121 => "SMP"@,
        122 => "SM (deprecated)"@,
        123 => "PTP"@,
        124 => "ISIS over IPv4"@,
        125 => "FIRE"@,
        126 => "CRTP"@,
        127 => "CRUDP"@,
        128 => "SSCOPMCE"@,
        129 => "IPLT"@,
        130 => "SPS"@,
        131 => "PIPE"@,
        132 => "SCTP"@,
        133 => "FC"@,
        134 => "RSVP-E2E-IGNORE"@,
        135 => "Mobility Header"@,
        136 => "UDPLite"@,
        137 => "MPLS-in-IP"@,
        138 => "manet"@,
        139 => "HIP"@,
        140 => "Shim6"@,
        141 => "WESP"@,
        142 => "ROHC"@,
        143 => "Ethernet"@,
        144 => "AGGFRAG"@,
        145 => "NSH"@,
        253 => "Use for experimentation and testing"@,
        254 => "Use for experimentation and testing"@,
        255 => "Reserved"@,
        _ => if 146 <= num && num <= 252 {
            "Unassigned"@
        } else {
            spec_dec(num as nat)
        },
    }
}

/// Maps a protocol number to its registry name; numbers the table does not
/// list come back as their decimal string.
pub fn protocol_name(num: u8) -> (r: String)
    ensures
        r@ == spec_protocol_name(num),
{
    match num {
        0 => "HOPOPT".to_owned(),
        1 => "ICMP".to_owned(),
        2 => "IGMP".to_owned(),
        3 => "GGP".to_owned(),
        4 => "IPv4".to_owned(),
        5 => "ST".to_owned(),
        6 => "TCP".to_owned(),
        7 => "CBT".to_owned(),
        8 => "EGP".to_owned(),
        9 => "IGP".to_owned(),
        10 => "BBN-RCC-MON".to_owned(),
        11 => "NVP-II".to_owned(),
        12 => "PUP".to_owned(),
        13 => "ARGUS".to_owned(),
        14 => "EMCON".to_owned(),
        15 => "XNET".to_owned(),
        16 => "CHAOS".to_owned(),
        17 => "UDP".to_owned(),
        18 => "MUX".to_owned(),
        19 => "DCN-MEAS".to_owned(),
        20 => "HMP".to_owned(),
        21 => "PRM".to_owned(),
        22 => "XNS-IDP".to_owned(),
        23 => "TRUNK-1".to_owned(),
        24 => "TRUNK-2".to_owned(),
        25 => "LEAF-1".to_owned(),
        26 => "LEAF-2".to_owned(),
        27 => "RDP".to_owned(),
        28 => "IRTP".to_owned(),
        29 => "ISO-TP4".to_owned(),
        30 => "NETBLT".to_owned(),
        31 => "MFE-NSP".to_owned(),
        32 => "MERIT-INP".to_owned(),
        33 => "DCCP".to_owned(),
        34 => "3PC".to_owned(),
        35 => "IDPR".to_owned(),
        36 => "XTP".to_owned(),
        37 => "DDP".to_owned(),
        38 => "IDPR-CMTP".to_owned(),
        39 => "TP++".to_owned(),
        40 => "IL".to_owned(),
        41 => "IPv6".to_owned(),
        42 => "SDRP".to_owned(),
        43 => "IPv6-Route".to_owned(),
        44 => "IPv6-Frag".to_owned(),
        45 => "IDRP".to_owned(),
        46 => "RSVP".to_owned(),
        47 => "GRE".to_owned(),
        48 => "DSR".to_owned(),
        49 => "BNA".to_owned(),
        50 => "ESP".to_owned(),
        51 => "AH".to_owned(),
        52 => "I-NLSP".to_owned(),
        53 => "SWIPE (deprecated)".to_owned(),
        54 => "NARP".to_owned(),
        55 => "MOBILE".to_owned(),
        56 => "TLSP".to_owned(),
        57 => "SKIP".to_owned(),
        58 => "IPv6-ICMP".to_owned(),
        59 => "IPv6-NoNxt".to_owned(),
        60 => "IPv6-Opts".to_owned(),
        61 => "any host internal protocol".to_owned(),
        62 => "CFTP".to_owned(),
        63 => "any local network".to_owned(),
        64 => "SAT-EXPAK".to_owned(),
        65 => "KRYPTOLAN".to_owned(),
        66 => "RVD".to_owned(),
        67 => "IPPC".to_owned(),
        68 => "any distributed file system".to_owned(),
        69 => "SAT-MON".to_owned(),
        70 => "VISA".to_owned(),
        71 => "IPCV".to_owned(),
        72 => "CPNX".to_owned(),
        73 => "CPHB".to_owned(),
        74 => "WSN".to_owned(),
        75 => "PVP".to_owned(),
        76 => "BR-SAT-MON".to_owned(),
        77 => "SUN-ND".to_owned(),
        78 => "WB-MON".to_owned(),
        79 => "WB-EXPAK".to_owned(),
        80 => "ISO-IP".to_owned(),
        81 => "VMTP".to_owned(),
        82 => "SECURE-VMTP".to_owned(),
        83 => "VINES".to_owned(),
        84 => "IPTM".to_owned(),
        85 => "NSFNET-IGP".to_owned(),
        86 => "DGP".to_owned(),
        87 => "TCF".to_owned(),
        88 => "EIGRP".to_owned(),
        89 => "OSPFIGP".to_owned(),
        90 => "Sprite-RPC".to_owned(),
        91 => "LARP".to_owned(),
        92 => "MTP".to_owned(),
        93 => "AX.25".to_owned(),
        94 => "IPIP".to_owned(),
        95 => "MICP (deprecated)".to_owned(),
        96 => "SCC-SP".to_owned(),
        97 => "ETHERIP".to_owned(),
        98 => "ENCAP".to_owned(),
        100 => "GMTP".to_owned(),
        101 => "IFMP".to_owned(),
        102 => "PNNI".to_owned(),
        103 => "PIM".to_owned(),
        104 => "ARIS".to_owned(),
        105 => "SCPS".to_owned(),
        106 => "QNX".to_owned(),
        107 => "A/N".to_owned(),
        108 => "IPComp".to_owned(),
        109 => "SNP".to_owned(),
        110 => "Compaq-Peer".to_owned(),
        111 => "IPX-in-IP".to_owned(),
        112 => "VRRP".to_owned(),
        113 => "PGM".to_owned(),
        114 => "any 0-hop protocol".to_owned(),
        115 => "L2TP".to_owned(),
        116 => "DDX".to_owned(),
        117 => "IATP".to_owned(),
        118 => "STP".to_owned(),
        119 => "SRP".to_owned(),
        120 => "UTI".to_owned(),
        121 => "SMP".to_owned(),
        122 => "SM (deprecated)".to_owned(),
        123 => "PTP".to_owned(),
        124 => "ISIS over IPv4".to_owned(),
        125 => "FIRE".to_owned(),
        126 => "CRTP".to_owned(),
        127 => "CRUDP".to_owned(),
        128 => "SSCOPMCE".to_owned(),
        129 => "IPLT".to_owned(),
        130 => "SPS".to_owned(),
        131 => "PIPE".to_owned(),
        132 => "SCTP".to_owned(),
        133 => "FC".to_owned(),
        134 => "RSVP-E2E-IGNORE".to_owned(),
        135 => "Mobility Header".to_owned(),
        136 => "UDPLite".to_owned(),
        137 => "MPLS-in-IP".to_owned(),
        138 => "manet".to_owned(),
        139 => "HIP".to_owned(),
        140 => "Shim6".to_owned(),
        141 => "WESP".to_owned(),
        142 => "ROHC".to_owned(),
        143 => "Ethernet".to_owned(),
        144 => "AGGFRAG".to_owned(),
        145 => "NSH".to_owned(),
        253 => "Use for experimentation and testing".to_owned(),
        254 => "Use for experimentation and testing".to_owned(),
        255 => "Reserved".to_owned(),
        _ => if 146 <= num && num <= 252 {
            "Unassigned".to_owned()
        } else {
            dec_u64(num as u64)
        },
    }
}

impl IP {
    /// The registry name of this header's protocol number.
    pub fn protocol(&self) -> (r: String)
        ensures
            r@ == spec_protocol_name(self.protocol_num),
    {
        protocol_name(self.protocol_num)
    }
}

/// Protocol numbers in the unassigned block are all named alike.
pub proof fn lemma_unassigned_range(num: u8)
    requires
        146 <= num <= 252,
    ensures
        spec_protocol_name(num) == "Unassigned"@,
{
}

/// The one protocol number that no arm of the table lists comes back as its
/// decimal string.
pub proof fn lemma_unlisted_is_decimal(num: u8)
    requires
        num == 99,
    ensures
        spec_protocol_name(num) == spec_dec(num as nat),
{
}

/// The reason text for an ICMP type/code pair: the first matching entry of
/// the table, or the generic fallback naming both numbers.
pub open spec fn spec_icmp_reason(t: u8, c: u8) -> Seq<char> {
    if t == 0 && c == 0 {
        "Echo Reply"@
    } else if t == 3 && c == 0 {
        "Destination Unreachable - Net is unreachable"@
    } else if t == 3 && c == 1 {
        "Destination Unreachable - Host is unreachable"@
    } else if t == 3 && c == 2 {
        "Destination Unreachable - Protocol is unreachable"@
    } else if t == 3 && c == 3 {
        "Destination Unreachable - Port is unreachable"@
    } else if t == 3 && c == 4 {
        "Destination Unreachable - Fragmentation is needed and Don't Fragment was set"@
    } else if t == 3 && c == 5 {
        "Destination Unreachable - Source route failed"@
    } else if t == 3 && c == 6 {
        "Destination Unreachable - Destination network is unknown"@
    } else if t == 3 && c == 7 {
        "Destination Unreachable - Destination host is unknown"@
    } else if t == 3 && c == 8 {
        "Destination Unreachable - Source host is isolated"@
    } else if t == 3 && c == 9 {
        "Destination Unreachable - Communication with destination network is administratively prohibited"@
    } else if t == 3 && c == 10 {
        "Destination Unreachable - Communication with destination host is administratively prohibited"@
    } else if t == 3 && c == 11 {
        "Destination Unreachable - Destination network is unreachable for type of service"@
    } else if t == 3 && c == 12 {
        "Destination Unreachable - Destination host is unreachable for type of service"@
    } else if t == 3 && c == 13 {
        "Destination Unreachable - Communication is administratively prohibited"@
    } else if t == 3 && c == 14 {
        "Destination Unreachable - Host precedence violation"@
    } else if t == 3 && c == 15 {
        "Destination Unreachable - Precedence cutoff is in effect"@
    } else if t == 4 && c == 0 {
        "Source Quench"@
    } else if t == 5 && c == 0 {
        "Redirect"@
    } else if t == 8 && c == 0 {
        "Echo"@
    } else if t == 9 && c == 0 {
        "Router Advertisement"@
    } else if t == 10 && c == 0 {
        "Router Selection"@
    } else if t == 11 && c == 0 {
        "Time Exceeded"@
    } else if t == 12 && c == 0 {
        "Parameter Problem"@
    } else if t == 13 && c == 0 {
        "Timestamp"@
    } else if t == 14 && c == 0 {
        "Timestamp Reply"@
    } else if t == 15 && c == 0 {
        "Information Request"@
    } else if t == 16 && c == 0 {
        "Information Reply"@
    } else if t == 17 && c == 0 {
        "Address Mask Request"@
    } else if t == 18 && c == 0 {
        "Address Mask Reply"@
    } else if t == 30 && c == 0 {
        "Traceroute"@
    } else if t == 40 && c == 0 {
        "Photuris"@
    } else if t == 41 && c == 0 {
        "ICMP for IPv6"@
    } else if t == 42 && c == 0 {
        "No Next Header for IPv6"@
    } else if t == 43 && c == 0 {
        "Destination Unreachable for IPv6"@
    } else if t == 44 && c == 0 {
        "Packet Too Big for IPv6"@
    } else if t == 45 && c == 0 {
        "Time Exceeded for IPv6"@
    } else if t == 46 && c == 0 {
        "Parameter Problem for IPv6"@
    } else if t == 47 && c == 0 {
        "Echo Request for IPv6"@
    } else if t == 48 && c == 0 {
        "Echo Reply for IPv6"@
    } else if t == 49 && c == 0 {
        "Multicast Listener Query for IPv6"@
    } else if t == 50 && c == 0 {
        "Multicast Listener Report for IPv6"@
    } else if t == 51 && c == 0 {
        "Multicast Listener Done for IPv6"@
    } else if t == 58 && c == 0 {
        "Router Solicitation for IPv6"@
    } else if t == 59 && c == 0 {
        "Router Advertisement for IPv6"@
    } else if t == 60 && c == 0 {
        "Neighbor Solicitation for IPv6"@
    } else if t == 61 && c == 0 {
        "Neighbor Advertisement for IPv6"@
    } else if t == 62 && c == 0 {
        "Redirect Message for IPv6"@
    } else {
        "Type: "@ + spec_dec(t as nat) + ", Code: "@ + spec_dec(c as nat)
    }
}

/// The readable reason for an ICMP type and code, by ordered scan of the
/// table; pairs the table does not list come back as the generic fallback.
pub fn icmp_type_name(type_: u8, code: u8) -> (r: String)
    ensures
        r@ == spec_icmp_reason(type_, code),
{
    if type_ == 0 && code == 0 {
        "Echo Reply".to_owned()
    } else if type_ == 3 && code == 0 {
        "Destination Unreachable - Net is unreachable".to_owned()
    } else if type_ == 3 && code == 1 {
        "Destination Unreachable - Host is unreachable".to_owned()
    } else if type_ == 3 && code == 2 {
        "Destination Unreachable - Protocol is unreachable".to_owned()
    } else if type_ == 3 && code == 3 {
        "Destination Unreachable - Port is unreachable".to_owned()
    } else if type_ == 3 && code == 4 {
        "Destination Unreachable - Fragmentation is needed and Don't Fragment was set".to_owned()
    } else if type_ == 3 && code == 5 {
        "Destination Unreachable - Source route failed".to_owned()
    } else if type_ == 3 && code == 6 {
        "Destination Unreachable - Destination network is unknown".to_owned()
    } else if type_ == 3 && code == 7 {
        "Destination Unreachable - Destination host is unknown".to_owned()
    } else if type_ == 3 && code == 8 {
        "Destination Unreachable - Source host is isolated".to_owned()
    } else if type_ == 3 && code == 9 {
        "Destination Unreachable - Communication with destination network is administratively prohibited".to_owned()
    } else if type_ == 3 && code == 10 {
        "Destination Unreachable - Communication with destination host is administratively prohibited".to_owned()
    } else if type_ == 3 && code == 11 {
        "Destination Unreachable - Destination network is unreachable for type of service".to_owned()
    } else if type_ == 3 && code == 12 {
        "Destination Unreachable - Destination host is unreachable for type of service".to_owned()
    } else if type_ == 3 && code == 13 {
        "Destination Unreachable - Communication is administratively prohibited".to_owned()
    } else if type_ == 3 && code == 14 {
        "Destination Unreachable - Host precedence violation".to_owned()
    } else if type_ == 3 && code == 15 {
        "Destination Unreachable - Precedence cutoff is in effect".to_owned()
    } else if type_ == 4 && code == 0 {
        "Source Quench".to_owned()
    } else if type_ == 5 && code == 0 {
        "Redirect".to_owned()
    } else if type_ == 8 && code == 0 {
        "Echo".to_owned()
    } else if type_ == 9 && code == 0 {
        "Router Advertisement".to_owned()
    } else if type_ == 10 && code == 0 {
        "Router Selection".to_owned()
    } else if type_ == 11 && code == 0 {
        "Time Exceeded".to_owned()
    } else if type_ == 12 && code == 0 {
        "Parameter Problem".to_owned()
    } else if type_ == 13 && code == 0 {
        "Timestamp".to_owned()
    } else if type_ == 14 && code == 0 {
        "Timestamp Reply".to_owned()
    } else if type_ == 15 && code == 0 {
        "Information Request".to_owned()
    } else if type_ == 16 && code == 0 {
        "Information Reply".to_owned()
    } else if type_ == 17 && code == 0 {
        "Address Mask Request".to_owned()
    } else if type_ == 18 && code == 0 {
        "Address Mask Reply".to_owned()
    } else if type_ == 30 && code == 0 {
        "Traceroute".to_owned()
    } else if type_ == 40 && code == 0 {
        "Photuris".to_owned()
    } else if type_ == 41 && code == 0 {
        "ICMP for IPv6".to_owned()
    } else if type_ == 42 && code == 0 {
        "No Next Header for IPv6".to_owned()
    } else if type_ == 43 && code == 0 {
        "Destination Unreachable for IPv6".to_owned()
    } else if type_ == 44 && code == 0 {
        "Packet Too Big for IPv6".to_owned()
    } else if type_ == 45 && code == 0 {
        "Time Exceeded for IPv6".to_owned()
    } else if type_ == 46 && code == 0 {
        "Parameter Problem for IPv6".to_owned()
    } else if type_ == 47 && code == 0 {
        "Echo Request for IPv6".to_owned()
    } else if type_ == 48 && code == 0 {
        "Echo Reply for IPv6".to_owned()
    } else if type_ == 49 && code == 0 {
        "Multicast Listener Query for IPv6".to_owned()
    } else if type_ == 50 && code == 0 {
        "Multicast Listener Report for IPv6".to_owned()
    } else if type_ == 51 && code == 0 {
        "Multicast Listener Done for IPv6".to_owned()
    } else if type_ == 58 && code == 0 {
        "Router Solicitation for IPv6".to_owned()
    } else if type_ == 59 && code == 0 {
        "Router Advertisement for IPv6".to_owned()
    } else if type_ == 60 && code == 0 {
        "Neighbor Solicitation for IPv6".to_owned()
    } else if type_ == 61 && code == 0 {
        "Neighbor Advertisement for IPv6".to_owned()
    } else if type_ == 62 && code == 0 {
        "Redirect Message for IPv6".to_owned()
    } else {
        let mut r = "Type: ".to_owned();
        let t_text = dec_u64(type_ as u64);
        r.append(t_text.as_str());
        r.append(", Code: ");
        let c_text = dec_u64(code as u64);
        r.append(c_text.as_str());
        r
    }
}

} // verus!
