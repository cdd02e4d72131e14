use layers::ethernet::{EthernetHeader, EthernetType};
use layers::inet::ip_to_string;
use layers::ip::{IPProto, IPV4Header};
use layers::packet::Packet;
use layers::stream_state::{state_to_string, STATE_PROTOCOL_DETECTING, STATE_PROTOCOL_FAILED, STATE_STREAM_FINISHED, STATE_STREAM_SKIP};
use layers::tcp::TCPHeader;

#[test]
fn ethernet_type_names() {
    assert_eq!(EthernetType::ethernet_type_string(EthernetType(EthernetType::IP)), "IP");
    assert_eq!(EthernetType::ethernet_type_string(EthernetType(0x8863)), "DISC");
    assert_eq!(EthernetType::ethernet_type_string(EthernetType(0x9100)), "8021QINQ");
    assert_eq!(EthernetType::ethernet_type_string(EthernetType(0x1234)), "Unknown");
}

#[test]
fn ip_proto_names() {
    assert_eq!(IPProto(IPProto::TCP).to_string(), "TCP");
    assert_eq!(IPProto(17).to_string(), "UDP");
    assert_eq!(IPProto(103).to_string(), "PIM ");
    assert_eq!(IPProto(200).to_string(), "Unknown");
}

#[test]
fn state_names() {
    assert_eq!(state_to_string(0), "none");
    assert_eq!(state_to_string(STATE_PROTOCOL_DETECTING), "detecting");
    assert_eq!(state_to_string(STATE_PROTOCOL_DETECTING | STATE_STREAM_FINISHED), "detecting,finished");
    assert_eq!(state_to_string(STATE_PROTOCOL_FAILED | STATE_STREAM_SKIP), "detect_failed,skip");
    assert_eq!(state_to_string(31), "detecting,detect_success,detect_failed,finished,skip");
    assert_eq!(state_to_string(64), "none");
}

#[test]
fn dotted_quad() {
    assert_eq!(ip_to_string(0x0a000001), "10.0.0.1");
    assert_eq!(ip_to_string(0xc0a8ff09), "192.168.255.9");
    assert_eq!(ip_to_string(0), "0.0.0.0");
    assert_eq!(ip_to_string(0xffffffff), "255.255.255.255");
}

#[test]
fn mac_addresses() {
    let h = EthernetHeader { eth_dst: [0, 0x11, 0x22, 0x33, 0x44, 0x55], eth_src: [0xde, 0xad, 0xbe, 0xef, 0x0a, 0xff], eth_type: 0x0800 };
    assert_eq!(h.src_mac(), "de:ad:be:ef:0a:ff");
    assert_eq!(h.dst_mac(), "00:11:22:33:44:55");
    let mut f = vec![1, 2, 3, 4, 5, 6, 0xa0, 0xb1, 0xc2, 0xd3, 0xe4, 0xf5, 0x86, 0xdd];
    f.extend_from_slice(&[0; 4]);
    let p = Packet::new(1, &f);
    assert_eq!(p.dst_mac(), "01:02:03:04:05:06");
    assert_eq!(p.src_mac(), "a0:b1:c2:d3:e4:f5");
}

#[test]
fn packet_address_text() {
    let mut f = vec![0u8; 12];
    f.extend_from_slice(&[0x08, 0x00, 0x45, 0, 0, 20, 0, 0, 0, 0, 64, 1, 0, 0, 192, 168, 1, 2, 8, 8, 4, 4]);
    let p = Packet::new(1, &f);
    assert!(p.valid());
    assert_eq!(p.src_ip_str(), "192.168.1.2");
    assert_eq!(p.dst_ip_str(), "8.8.4.4");
}

#[test]
fn header_fields() {
    let ip = IPV4Header { version_length: 0x46, tos: 0, len: 1500, id: 0, flag_offset: 0, ttl: 64, proto: 6, checksum: 0, src: 1, dst: 2 };
    assert_eq!(ip.version(), 4);
    assert_eq!(ip.header_len(), 24);
    assert_eq!(ip.total_length(), 1500);
    let t = TCPHeader { sport: 1, dport: 2, seq: 3, ack: 4, off: 0x80, flags: TCPHeader::SYN, win: 0, checksum: 0, urp: 0 };
    assert_eq!(t.header_len(), 32);
}
