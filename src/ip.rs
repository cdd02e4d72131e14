use vstd::prelude::*;

use crate::inet::{be16, be32, read_be16, read_be32};

verus! {

/// Direction-independent identity of a flow: the smaller and larger address,
/// and the smaller and larger port.
#[derive(Clone, Copy, Debug, PartialEq, Eq, Hash, Structural)]
pub struct StreamID {
    pub min_ip: u32,
    pub max_ip: u32,
    pub min_port: u16,
    pub max_port: u16,
}

pub open spec fn min_u32(a: u32, b: u32) -> u32 {
    if a <= b { a } else { b }
}

pub open spec fn max_u32(a: u32, b: u32) -> u32 {
    if a <= b { b } else { a }
}

pub open spec fn min_u16(a: u16, b: u16) -> u16 {
    if a <= b { a } else { b }
}

pub open spec fn max_u16(a: u16, b: u16) -> u16 {
    if a <= b { b } else { a }
}

/// The key of the flow that a packet from `(ip_a, port_a)` to `(ip_b, port_b)` belongs to.
pub open spec fn stream_id_of(ip_a: u32, ip_b: u32, port_a: u16, port_b: u16) -> StreamID {
    StreamID {
        min_ip: min_u32(ip_a, ip_b),
        max_ip: max_u32(ip_a, ip_b),
        min_port: min_u16(port_a, port_b),
        max_port: max_u16(port_a, port_b),
    }
}

impl StreamID {
    pub fn new(client_ip: u32, server_ip: u32, client_port: u16, server_port: u16) -> (r: StreamID)
        ensures
            r == stream_id_of(client_ip, server_ip, client_port, server_port),
    {
        StreamID {
            min_ip: if client_ip <= server_ip { client_ip } else { server_ip },
            max_ip: if client_ip <= server_ip { server_ip } else { client_ip },
            min_port: if client_port <= server_port { client_port } else { server_port },
            max_port: if client_port <= server_port { server_port } else { client_port },
        }
    }
}

/// A flow's key is the same whichever end sent the packet.
pub proof fn lemma_stream_id_symmetric(src_ip: u32, dst_ip: u32, src_port: u16, dst_port: u16)
    ensures
        stream_id_of(src_ip, dst_ip, src_port, dst_port) == stream_id_of(dst_ip, src_ip, dst_port, src_port),
{
}

} // verus!

verus! {

/// The protocol field of an IPv4 header.
#[derive(Clone, Copy, Debug, PartialEq, Eq, Structural)]
pub struct IPProto(pub u8);

/// The short name of an IP protocol number.
pub open spec fn ip_proto_name(p: u8) -> Seq<char> {
    if p == 0 {
        "IP"@
    } else if p == 1 {
        "ICMP"@
    } else if p == 2 {
        "IGMP"@
    } else if p == 4 {
        "IPIP"@
    } else if p == 6 {
        "TCP"@
    } else if p == 8 {
        "EGP"@
    } else if p == 12 {
        "PUP"@
    } else if p == 17 {
        "UDP"@
    } else if p == 22 {
        "IDP"@
    } else if p == 29 {
        "TP"@
    } else if p == 33 {
        "DCCP"@
    } else if p == 41 {
        "IPV6"@
    } else if p == 46 {
        "RSVP"@
    } else if p == 47 {
        "GRE"@
    } else if p == 50 {
        "ESP"@
    } else if p == 51 {
        "AH"@
    } else if p == 92 {
        "MTP"@
    } else if p == 94 {
        "BEETPH"@
    } else if p == 98 {
        "ENCAP"@
    } else if p == 103 {
        "PIM "@
    } else if p == 108 {
        "COMP"@
    } else if p == 132 {
        "SCTP"@
    } else if p == 136 {
        "UDPLITE"@
    } else if p == 255 {
        "RAW"@
    } else {
        "Unknown"@
    }
}

impl IPProto {
    pub const IP: u8 = 0;
    pub const ICMP: u8 = 1;
    pub const IGMP: u8 = 2;
    pub const IPIP: u8 = 4;
    pub const TCP: u8 = 6;
    pub const EGP: u8 = 8;
    pub const PUP: u8 = 12;
    pub const UDP: u8 = 17;
    pub const IDP: u8 = 22;
    pub const TP: u8 = 29;
    pub const DCCP: u8 = 33;
    pub const IPV6: u8 = 41;
    pub const RSVP: u8 = 46;
    pub const GRE: u8 = 47;
    pub const ESP: u8 = 50;
    pub const AH: u8 = 51;
    pub const MTP: u8 = 92;
    pub const BEETPH: u8 = 94;
    pub const ENCAP: u8 = 98;
    pub const PIM: u8 = 103;
    pub const COMP: u8 = 108;
    pub const SCTP: u8 = 132;
    pub const UDPLITE: u8 = 136;
    pub const RAW: u8 = 255;

    pub fn to_string(self) -> (r: &'static str)
        ensures
            r@ == ip_proto_name(self.0),
    {
        let p = self.0;
        if p == 0 {
            "IP"
        } else if p == 1 {
            "ICMP"
        } else if p == 2 {
            "IGMP"
        } else if p == 4 {
            "IPIP"
        } else if p == 6 {
            "TCP"
        } else if p == 8 {
            "EGP"
        } else if p == 12 {
            "PUP"
        } else if p == 17 {
            "UDP"
        } else if p == 22 {
            "IDP"
        } else if p == 29 {
            "TP"
        } else if p == 33 {
            "DCCP"
        } else if p == 41 {
            "IPV6"
        } else if p == 46 {
            "RSVP"
        } else if p == 47 {
            "GRE"
        } else if p == 50 {
            "ESP"
        } else if p == 51 {
            "AH"
        } else if p == 92 {
            "MTP"
        } else if p == 94 {
            "BEETPH"
        } else if p == 98 {
            "ENCAP"
        } else if p == 103 {
            "PIM "
        } else if p == 108 {
            "COMP"
        } else if p == 132 {
            "SCTP"
        } else if p == 136 {
            "UDPLITE"
        } else if p == 255 {
            "RAW"
        } else {
            "Unknown"
        }
    }
}

/// The fixed part of an IPv4 header, multi-byte fields in host order.
pub struct IPV4Header {
    /// version in the high four bits, header length in 32-bit words in the low four
    pub version_length: u8,
    pub tos: u8,
    /// including header and data
    pub len: u16,
    pub id: u16,
    pub flag_offset: u16,
    pub ttl: u8,
    pub proto: u8,
    pub checksum: u16,
    pub src: u32,
    pub dst: u32,
}

impl IPV4Header {
    /// The header at `off` in a frame.
    pub fn read(d: &[u8], off: usize) -> (h: IPV4Header)
        requires
            off + 20 <= d@.len(),
        ensures
            h.version_length == d@[off as int],
            h.len == be16(d@, off + 2),
            h.proto == d@[off + 9],
            h.src == be32(d@, off + 12),
            h.dst == be32(d@, off + 16),
    {
        let _len = d.len();
        IPV4Header {
            version_length: d[off],
            tos: d[off + 1],
            len: read_be16(d, off + 2),
            id: read_be16(d, off + 4),
            flag_offset: read_be16(d, off + 6),
            ttl: d[off + 8],
            proto: d[off + 9],
            checksum: read_be16(d, off + 10),
            src: read_be32(d, off + 12),
            dst: read_be32(d, off + 16),
        }
    }

    pub fn version(&self) -> (r: u8)
        ensures
            r == self.version_length / 16,
    {
        let v = self.version_length;
        assert((v & 0xF0) >> 4 == v / 16) by (bit_vector);
        (v & 0xF0) >> 4
    }

    /// Header length in bytes.
    pub fn header_len(&self) -> (r: u8)
        ensures
            r == (self.version_length % 16) * 4,
    {
        let v = self.version_length;
        assert((v & 0x0F) << 2 == (v % 16) * 4) by (bit_vector);
        (v & 0x0F) << 2
    }

    pub fn total_length(&self) -> (r: u16)
        ensures
            r == self.len,
    {
        self.len
    }
}

} // verus!
