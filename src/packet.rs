use vstd::prelude::*;

use std::sync::Arc;

use crate::ethernet::{mac_text, EthernetHeader, EthernetType};
use crate::inet::{be16, be32, dotted_quad, ip_to_string, read_be16};
use crate::ip::{IPProto, IPV4Header};
use crate::tcp::{TCPHeader, UDPHeader};

verus! {

pub const STATE_NONE: u32 = 0;
pub const BAD_PACKET: u32 = 1;
pub const STATE_IPV4: u32 = 2;
pub const STATE_IPV6: u32 = 4;
pub const STATE_ARP: u32 = 8;
pub const STATE_ICMP: u32 = 16;
pub const STATE_TCP: u32 = 32;
pub const STATE_UDP: u32 = 64;
pub const STATE_PAYLOAD: u32 = 128;

pub const ETHERNET_HEADER_LEN: usize = 14;
pub const VLAN_HEADER_LEN: usize = 4;
pub const IPV4_HEADER_LEN: usize = 20;
pub const TCP_HEADER_LEN: usize = 20;
pub const UDP_HEADER_LEN: usize = 8;

/// What decoding finds in a frame: the layer flags and the values cached from the headers.
/// Offsets count bytes from the start of the frame.
#[derive(Clone, Copy, Debug, PartialEq, Eq, Structural)]
pub struct PacketLayers {
    pub state: u32,
    pub src_ip: u32,
    pub dst_ip: u32,
    pub src_port: u16,
    pub dst_port: u16,
    pub ipv4: usize,
    pub ip_layer_len: usize,
    pub tcp_seq: u32,
    pub tcp_flags: u8,
    pub payload: usize,
    pub payload_len: usize,
}

pub open spec fn no_layers(state: u32) -> PacketLayers {
    PacketLayers {
        state,
        src_ip: 0,
        dst_ip: 0,
        src_port: 0,
        dst_port: 0,
        ipv4: 0,
        ip_layer_len: 0,
        tcp_seq: 0,
        tcp_flags: 0,
        payload: 0,
        payload_len: 0,
    }
}

pub open spec fn with_state(l: PacketLayers, state: u32) -> PacketLayers {
    PacketLayers { state, ..l }
}

/// TCP segment of `left` bytes at `off`, below the network layer described by `base`.
pub open spec fn decode_tcp_spec(d: Seq<u8>, off: int, left: int, base: PacketLayers) -> PacketLayers {
    if left < TCP_HEADER_LEN {
        with_state(base, base.state | BAD_PACKET)
    } else {
        let hl = (d[off + 12] / 16) * 4;
        let l = PacketLayers {
            src_port: be16(d, off) as u16,
            dst_port: be16(d, off + 2) as u16,
            tcp_seq: be32(d, off + 4) as u32,
            tcp_flags: d[off + 13],
            ..base
        };
        if left < hl {
            with_state(l, l.state | BAD_PACKET)
        } else if left - hl > 0 {
            PacketLayers {
                state: l.state | STATE_PAYLOAD,
                payload: (off + hl) as usize,
                payload_len: (left - hl) as usize,
                ..l
            }
        } else {
            l
        }
    }
}

/// UDP datagram of `left` bytes at `off`, below the network layer described by `base`.
pub open spec fn decode_udp_spec(d: Seq<u8>, off: int, left: int, base: PacketLayers) -> PacketLayers {
    if left < UDP_HEADER_LEN {
        with_state(base, base.state | BAD_PACKET)
    } else {
        let l = PacketLayers {
            src_port: be16(d, off) as u16,
            dst_port: be16(d, off + 2) as u16,
            ..base
        };
        if left < be16(d, off + 4) {
            with_state(l, l.state | BAD_PACKET)
        } else if left - UDP_HEADER_LEN > 0 {
            PacketLayers {
                state: l.state | STATE_PAYLOAD,
                payload: (off + UDP_HEADER_LEN) as usize,
                payload_len: (left - UDP_HEADER_LEN) as usize,
                ..l
            }
        } else {
            l
        }
    }
}

/// IPv4 header at `off`, with `left` bytes of the frame from there on.
pub open spec fn decode_ipv4_spec(d: Seq<u8>, off: int) -> PacketLayers {
    let left = d.len() - off;
    let state = STATE_IPV4;
    if left < IPV4_HEADER_LEN {
        no_layers(state | BAD_PACKET)
    } else {
        let addrs = PacketLayers {
            src_ip: be32(d, off + 12) as u32,
            dst_ip: be32(d, off + 16) as u32,
            ipv4: off as usize,
            ..no_layers(state)
        };
        let version = d[off] / 16;
        let hl = (d[off] % 16) * 4;
        let total = be16(d, off + 2);
        if version != 4 {
            with_state(addrs, state | BAD_PACKET)
        } else {
            let l = PacketLayers { ip_layer_len: total as usize, ..addrs };
            if left < total || total < hl {
                with_state(l, state | BAD_PACKET)
            } else if d[off + 9] == 6 {
                decode_tcp_spec(d, off + hl, total - hl, with_state(l, state | STATE_TCP))
            } else if d[off + 9] == 17 {
                decode_udp_spec(d, off + hl, total - hl, with_state(l, state | STATE_UDP))
            } else {
                l
            }
        }
    }
}

/// The layers of an Ethernet frame, one VLAN tag unwrapped.
pub open spec fn decode(d: Seq<u8>) -> PacketLayers {
    if d.len() < ETHERNET_HEADER_LEN {
        no_layers(BAD_PACKET)
    } else {
        let t = be16(d, 12);
        if t == 0x0800 {
            decode_ipv4_spec(d, ETHERNET_HEADER_LEN as int)
        } else if t == 0x8100 || t == 0x9100 {
            if d.len() < ETHERNET_HEADER_LEN + VLAN_HEADER_LEN {
                no_layers(BAD_PACKET)
            } else if be16(d, 16) == 0x0800 {
                decode_ipv4_spec(d, (ETHERNET_HEADER_LEN + VLAN_HEADER_LEN) as int)
            } else {
                no_layers(STATE_NONE)
            }
        } else {
            no_layers(STATE_NONE)
        }
    }
}

pub open spec fn is_valid_state(state: u32) -> bool {
    state & BAD_PACKET == 0
}

/// The payload lies inside the frame, and an IPv4 total length bounds its size.
pub proof fn lemma_decode_payload_bounds(d: Seq<u8>)
    ensures
        decode(d).payload + decode(d).payload_len <= d.len(),
        decode(d).payload_len < 0x10000,
{
    if d.len() >= ETHERNET_HEADER_LEN {
        lemma_ipv4_payload_bounds(d, ETHERNET_HEADER_LEN as int);
        if d.len() >= ETHERNET_HEADER_LEN + VLAN_HEADER_LEN {
            lemma_ipv4_payload_bounds(d, (ETHERNET_HEADER_LEN + VLAN_HEADER_LEN) as int);
        }
    }
}

proof fn lemma_ipv4_payload_bounds(d: Seq<u8>, off: int)
    requires
        0 <= off <= d.len(),
    ensures
        decode_ipv4_spec(d, off).payload + decode_ipv4_spec(d, off).payload_len <= d.len(),
        decode_ipv4_spec(d, off).payload_len < 0x10000,
{
    let left = d.len() - off;
    if left >= IPV4_HEADER_LEN {
        let hl = (d[off] % 16) * 4;
        let total = be16(d, off + 2);
        assert(0 <= total < 0x10000);
        assert(0 <= hl);
    }
}

fn decode_tcp(d: &[u8], off: usize, left: usize, base: PacketLayers) -> (r: PacketLayers)
    requires
        off + left <= d@.len(),
    ensures
        r == decode_tcp_spec(d@, off as int, left as int, base),
{
    let _len = d.len();
    if left < TCP_HEADER_LEN {
        return PacketLayers { state: base.state | BAD_PACKET, ..base };
    }
    let tcp = TCPHeader::read(d, off);
    let hl = tcp.header_len() as usize;
    let l = PacketLayers { src_port: tcp.sport, dst_port: tcp.dport, tcp_seq: tcp.seq, tcp_flags: tcp.flags, ..base };
    if left < hl {
        PacketLayers { state: l.state | BAD_PACKET, ..l }
    } else if left - hl > 0 {
        PacketLayers {
            state: l.state | STATE_PAYLOAD,
            payload: off + hl,
            payload_len: left - hl,
            ..l
        }
    } else {
        l
    }
}

fn decode_udp(d: &[u8], off: usize, left: usize, base: PacketLayers) -> (r: PacketLayers)
    requires
        off + left <= d@.len(),
    ensures
        r == decode_udp_spec(d@, off as int, left as int, base),
{
    let _len = d.len();
    if left < UDP_HEADER_LEN {
        return PacketLayers { state: base.state | BAD_PACKET, ..base };
    }
    let udp = UDPHeader::read(d, off);
    let l = PacketLayers { src_port: udp.src_port, dst_port: udp.dst_port, ..base };
    let total_len = udp.len as usize;
    if left < total_len {
        PacketLayers { state: l.state | BAD_PACKET, ..l }
    } else if left - UDP_HEADER_LEN > 0 {
        PacketLayers {
            state: l.state | STATE_PAYLOAD,
            payload: off + UDP_HEADER_LEN,
            payload_len: left - UDP_HEADER_LEN,
            ..l
        }
    } else {
        l
    }
}

fn decode_ipv4(d: &[u8], off: usize) -> (r: PacketLayers)
    requires
        off <= d@.len(),
    ensures
        r == decode_ipv4_spec(d@, off as int),
{
    let left = d.len() - off;
    let state = STATE_IPV4;
    let none = PacketLayers {
        state,
        src_ip: 0,
        dst_ip: 0,
        src_port: 0,
        dst_port: 0,
        ipv4: 0,
        ip_layer_len: 0,
        tcp_seq: 0,
        tcp_flags: 0,
        payload: 0,
        payload_len: 0,
    };
    if left < IPV4_HEADER_LEN {
        return PacketLayers { state: state | BAD_PACKET, ..none };
    }
    let ip = IPV4Header::read(d, off);
    let addrs = PacketLayers { src_ip: ip.src, dst_ip: ip.dst, ipv4: off, ..none };
    let header_len = ip.header_len() as usize;
    let total = ip.total_length() as usize;
    if ip.version() != 4 {
        return PacketLayers { state: state | BAD_PACKET, ..addrs };
    }
    let l = PacketLayers { ip_layer_len: total, ..addrs };
    if left < total || total < header_len {
        return PacketLayers { state: state | BAD_PACKET, ..l };
    }
    let proto = IPProto(ip.proto);
    if proto.0 == IPProto::TCP {
        decode_tcp(d, off + header_len, total - header_len, PacketLayers { state: state | STATE_TCP, ..l })
    } else if proto.0 == IPProto::UDP {
        decode_udp(d, off + header_len, total - header_len, PacketLayers { state: state | STATE_UDP, ..l })
    } else {
        l
    }
}

/// Decodes the layers of a raw Ethernet frame. Never fails: a violated bound sets
/// `BAD_PACKET` and stops.
pub fn decode_layers(d: &[u8]) -> (r: PacketLayers)
    ensures
        r == decode(d@),
{
    let none = PacketLayers {
        state: STATE_NONE,
        src_ip: 0,
        dst_ip: 0,
        src_port: 0,
        dst_port: 0,
        ipv4: 0,
        ip_layer_len: 0,
        tcp_seq: 0,
        tcp_flags: 0,
        payload: 0,
        payload_len: 0,
    };
    if d.len() < ETHERNET_HEADER_LEN {
        return PacketLayers { state: BAD_PACKET, ..none };
    }
    let eth_type = EthernetType(EthernetHeader::read(d).eth_type);
    if eth_type.0 == EthernetType::IP {
        decode_ipv4(d, ETHERNET_HEADER_LEN)
    } else if eth_type.0 == EthernetType::VLAN || eth_type.0 == EthernetType::T8021QINQ {
        if d.len() < ETHERNET_HEADER_LEN + VLAN_HEADER_LEN {
            return PacketLayers { state: BAD_PACKET, ..none };
        }
        let inner = EthernetType(read_be16(d, ETHERNET_HEADER_LEN + 2));
        if inner.0 == EthernetType::IP {
            decode_ipv4(d, ETHERNET_HEADER_LEN + VLAN_HEADER_LEN)
        } else {
            none
        }
    } else {
        none
    }
}

/// A captured frame with its decoded layers. Built once by `Packet::new` and never
/// changed afterwards.
pub struct Packet {
    pub state: u32,
    pub timestamp: u64,
    pub data: Vec<u8>,
    /// host order
    pub src_port: u16,
    pub dst_port: u16,
    /// host order
    pub src_ip: u32,
    pub dst_ip: u32,
    /// offset of the IPv4 header
    pub ipv4: usize,
    pub ip_layer_len: usize,
    pub tcp_seq: u32,
    pub tcp_flags: u8,
    pub payload: usize,
    pub payload_len: usize,
}

impl Packet {
    pub open spec fn layers(&self) -> PacketLayers {
        PacketLayers {
            state: self.state,
            src_ip: self.src_ip,
            dst_ip: self.dst_ip,
            src_port: self.src_port,
            dst_port: self.dst_port,
            ipv4: self.ipv4,
            ip_layer_len: self.ip_layer_len,
            tcp_seq: self.tcp_seq,
            tcp_flags: self.tcp_flags,
            payload: self.payload,
            payload_len: self.payload_len,
        }
    }

    /// The layers agree with the bytes they were decoded from.
    pub open spec fn wf(&self) -> bool {
        self.layers() == decode(self.data@)
    }

    /// The application bytes the frame carries (empty when there are none).
    pub open spec fn payload_view(&self) -> Seq<u8> {
        self.data@.subrange(self.payload as int, self.payload + self.payload_len)
    }

    /// The application bytes the frame carries (empty when there are none).
    pub fn payload_slice(&self) -> (r: &[u8])
        requires
            self.wf(),
        ensures
            r@ == self.payload_view(),
    {
        proof {
            lemma_decode_payload_bounds(self.data@);
        }
        let d = self.data.as_slice();
        &d[self.payload..self.payload + self.payload_len]
    }

    pub fn new(timestamp: u64, data: &[u8]) -> (r: Arc<Packet>)
        ensures
            r.data@ == data@,
            r.timestamp == timestamp,
            r.wf(),
    {
        let l = decode_layers(data);
        Arc::new(Packet {
            state: l.state,
            timestamp,
            data: vstd::slice::slice_to_vec(data),
            src_port: l.src_port,
            dst_port: l.dst_port,
            src_ip: l.src_ip,
            dst_ip: l.dst_ip,
            ipv4: l.ipv4,
            ip_layer_len: l.ip_layer_len,
            tcp_seq: l.tcp_seq,
            tcp_flags: l.tcp_flags,
            payload: l.payload,
            payload_len: l.payload_len,
        })
    }

    pub fn src_ip_str(&self) -> (r: String)
        ensures
            r@ == dotted_quad(self.src_ip),
    {
        ip_to_string(self.src_ip)
    }

    pub fn dst_ip_str(&self) -> (r: String)
        ensures
            r@ == dotted_quad(self.dst_ip),
    {
        ip_to_string(self.dst_ip)
    }

    /// The sender's hardware address; the frame must hold an Ethernet header.
    pub fn src_mac(&self) -> (r: String)
        requires
            self.data@.len() >= ETHERNET_HEADER_LEN,
        ensures
            r@ == mac_text(self.data@.subrange(6, 12)),
    {
        EthernetHeader::read(self.data.as_slice()).src_mac()
    }

    /// The receiver's hardware address; the frame must hold an Ethernet header.
    pub fn dst_mac(&self) -> (r: String)
        requires
            self.data@.len() >= ETHERNET_HEADER_LEN,
        ensures
            r@ == mac_text(self.data@.subrange(0, 6)),
    {
        EthernetHeader::read(self.data.as_slice()).dst_mac()
    }

    pub fn valid(&self) -> (r: bool)
        ensures
            r == is_valid_state(self.state),
    {
        self.state & BAD_PACKET == 0
    }
}

} // verus!
