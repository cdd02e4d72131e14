use vstd::prelude::*;

use crate::inet::{be16, be32, read_be16, read_be32};

verus! {

/// The fixed part of a TCP header, multi-byte fields in host order.
pub struct TCPHeader {
    pub sport: u16,
    pub dport: u16,
    pub seq: u32,
    pub ack: u32,
    /// data offset in 32-bit words in the high four bits
    pub off: u8,
    pub flags: u8,
    pub win: u16,
    pub checksum: u16,
    pub urp: u16,
}

impl TCPHeader {
    pub const FIN: u8 = 1;
    pub const SYN: u8 = 2;
    pub const RST: u8 = 4;
    pub const PUSH: u8 = 8;
    pub const ACK: u8 = 16;
    pub const URG: u8 = 32;

    /// The header at `off` in a frame.
    pub fn read(d: &[u8], off: usize) -> (h: TCPHeader)
        requires
            off + 20 <= d@.len(),
        ensures
            h.sport == be16(d@, off as int),
            h.dport == be16(d@, off + 2),
            h.seq == be32(d@, off + 4),
            h.off == d@[off + 12],
            h.flags == d@[off + 13],
    {
        let _len = d.len();
        TCPHeader {
            sport: read_be16(d, off),
            dport: read_be16(d, off + 2),
            seq: read_be32(d, off + 4),
            ack: read_be32(d, off + 8),
            off: d[off + 12],
            flags: d[off + 13],
            win: read_be16(d, off + 14),
            checksum: read_be16(d, off + 16),
            urp: read_be16(d, off + 18),
        }
    }

    /// Header length in bytes.
    pub fn header_len(&self) -> (r: u8)
        ensures
            r == (self.off / 16) * 4,
    {
        let o = self.off;
        assert((o & 0xf0) >> 2 == (o / 16) * 4) by (bit_vector);
        (o & 0xf0) >> 2
    }
}

/// A UDP header, fields in host order.
pub struct UDPHeader {
    pub src_port: u16,
    pub dst_port: u16,
    pub len: u16,
    pub checksum: u16,
}

impl UDPHeader {
    /// The header at `off` in a frame.
    pub fn read(d: &[u8], off: usize) -> (h: UDPHeader)
        requires
            off + 8 <= d@.len(),
        ensures
            h.src_port == be16(d@, off as int),
            h.dst_port == be16(d@, off + 2),
            h.len == be16(d@, off + 4),
    {
        let _len = d.len();
        UDPHeader {
            src_port: read_be16(d, off),
            dst_port: read_be16(d, off + 2),
            len: read_be16(d, off + 4),
            checksum: read_be16(d, off + 6),
        }
    }
}

} // verus!
