use vstd::prelude::*;

use vstd::string::StringExecFns;

use crate::inet::{append_hex_byte, be16, hex_byte, read_be16};

verus! {

/// The type field of an Ethernet header.
#[derive(Clone, Copy, Debug, PartialEq, Eq, Structural)]
pub struct EthernetType(pub u16);

/// The short name of an Ethernet type.
pub open spec fn ethernet_type_name(t: u16) -> Seq<char> {
    if t == 0x0200 {
        "PUP"@
    } else if t == 0x0800 {
        "IP"@
    } else if t == 0x0806 {
        "ARP"@
    } else if t == 0x6558 {
        "BRIDGE"@
    } else if t == 0x8035 {
        "REVARP"@
    } else if t == 0x888e {
        "EAPOL"@
    } else if t == 0x86dd {
        "IPV6"@
    } else if t == 0x8137 {
        "IPX"@
    } else if t == 0x8863 {
        "DISC"@
    } else if t == 0x8864 {
        "SESS"@
    } else if t == 0x88a8 {
        "8021AD"@
    } else if t == 0x88e7 {
        "8021AH"@
    } else if t == 0x8100 {
        "VLAN"@
    } else if t == 0x9000 {
        "LOOP"@
    } else if t == 0x9100 {
        "8021QINQ"@
    } else if t == 0x88be {
        "ERSPAN"@
    } else if t == 0x8903 {
        "DCE"@
    } else {
        "Unknown"@
    }
}

impl EthernetType {
    pub const PUP: u16 = 0x0200;
    pub const IP: u16 = 0x0800;
    pub const ARP: u16 = 0x0806;
    pub const BRIDGE: u16 = 0x6558;
    pub const REVARP: u16 = 0x8035;
    pub const EAPOL: u16 = 0x888e;
    pub const IPV6: u16 = 0x86dd;
    pub const IPX: u16 = 0x8137;
    pub const PPPOE_DISC: u16 = 0x8863;
    pub const PPPOE_SESS: u16 = 0x8864;
    pub const T8021AD: u16 = 0x88a8;
    pub const T8021AH: u16 = 0x88e7;
    pub const VLAN: u16 = 0x8100;
    pub const LOOP: u16 = 0x9000;
    pub const T8021QINQ: u16 = 0x9100;
    pub const ERSPAN: u16 = 0x88be;
    pub const DCE: u16 = 0x8903;

    pub fn ethernet_type_string(value: EthernetType) -> (r: &'static str)
        ensures
            r@ == ethernet_type_name(value.0),
    {
        let t = value.0;
        if t == 0x0200 {
            "PUP"
        } else if t == 0x0800 {
            "IP"
        } else if t == 0x0806 {
            "ARP"
        } else if t == 0x6558 {
            "BRIDGE"
        } else if t == 0x8035 {
            "REVARP"
        } else if t == 0x888e {
            "EAPOL"
        } else if t == 0x86dd {
            "IPV6"
        } else if t == 0x8137 {
            "IPX"
        } else if t == 0x8863 {
            "DISC"
        } else if t == 0x8864 {
            "SESS"
        } else if t == 0x88a8 {
            "8021AD"
        } else if t == 0x88e7 {
            "8021AH"
        } else if t == 0x8100 {
            "VLAN"
        } else if t == 0x9000 {
            "LOOP"
        } else if t == 0x9100 {
            "8021QINQ"
        } else if t == 0x88be {
            "ERSPAN"
        } else if t == 0x8903 {
            "DCE"
        } else {
            "Unknown"
        }
    }
}

/// Six bytes as colon-separated pairs of lower-case hexadecimal digits.
pub open spec fn mac_text(m: Seq<u8>) -> Seq<char> {
    hex_byte(m[0]) + seq![':'] + hex_byte(m[1]) + seq![':'] + hex_byte(m[2]) + seq![':'] + hex_byte(m[3])
        + seq![':'] + hex_byte(m[4]) + seq![':'] + hex_byte(m[5])
}

pub fn mac_to_string(m: &[u8; 6]) -> (r: String)
    ensures
        r@ == mac_text(m@),
{
    proof {
        reveal_strlit(":");
    }
    let mut s = String::new();
    append_hex_byte(&mut s, m[0]);
    s.append(":");
    append_hex_byte(&mut s, m[1]);
    s.append(":");
    append_hex_byte(&mut s, m[2]);
    s.append(":");
    append_hex_byte(&mut s, m[3]);
    s.append(":");
    append_hex_byte(&mut s, m[4]);
    s.append(":");
    append_hex_byte(&mut s, m[5]);
    assert(s@ =~= mac_text(m@));
    s
}

/// An Ethernet header as it lies in a frame.
pub struct EthernetHeader {
    pub eth_dst: [u8; 6],
    pub eth_src: [u8; 6],
    pub eth_type: u16,
}

impl EthernetHeader {
    /// The header at the start of a frame.
    pub fn read(d: &[u8]) -> (h: EthernetHeader)
        requires
            14 <= d@.len(),
        ensures
            h.eth_dst@ == d@.subrange(0, 6),
            h.eth_src@ == d@.subrange(6, 12),
            h.eth_type == be16(d@, 12),
    {
        let h = EthernetHeader {
            eth_dst: [d[0], d[1], d[2], d[3], d[4], d[5]],
            eth_src: [d[6], d[7], d[8], d[9], d[10], d[11]],
            eth_type: read_be16(d, 12),
        };
        assert(h.eth_dst@ =~= d@.subrange(0, 6));
        assert(h.eth_src@ =~= d@.subrange(6, 12));
        h
    }

    pub fn src_mac(&self) -> (r: String)
        ensures
            r@ == mac_text(self.eth_src@),
    {
        mac_to_string(&self.eth_src)
    }

    pub fn dst_mac(&self) -> (r: String)
        ensures
            r@ == mac_text(self.eth_dst@),
    {
        mac_to_string(&self.eth_dst)
    }
}

} // verus!
