use std::sync::Arc;

use layers::config::Configure;
use layers::detector::{Detection, Proto, State, Verdict};
use layers::dispatcher::{dispatch_index, route, Route};
use layers::dissector::{DefaultDissector, DissectorKind, TCPDissector, TCPDissectorAllocator, UDPDissectorAllocator};
use layers::ip::StreamID;
use layers::packet::{Packet, BAD_PACKET, STATE_IPV4, STATE_PAYLOAD, STATE_TCP, STATE_UDP};
use layers::tcp_flow::{seq_compare, TcpFlow};
use layers::tcp_stream::StreamAction;
use layers::flow_table::{Flow, STREAM_CLEANUP_DURATION};
use layers::tcp_tracker::TCPTracker;
use layers::udp_dissector::{DNSDissector, UDPDissector};
use layers::udp_tracker::UDPTracker;

const SYN: u8 = 0x02;
const FIN: u8 = 0x01;
const ACK: u8 = 0x10;

fn ethernet(ether_type: u16) -> Vec<u8> {
    let mut f = vec![0x00, 0x11, 0x22, 0x33, 0x44, 0x55, 0x66, 0x77, 0x88, 0x99, 0xaa, 0xbb];
    f.extend_from_slice(&ether_type.to_be_bytes());
    f
}

fn ipv4(proto: u8, src: [u8; 4], dst: [u8; 4], body_len: usize) -> Vec<u8> {
    let total = (20 + body_len) as u16;
    let mut h = vec![0x45, 0];
    h.extend_from_slice(&total.to_be_bytes());
    h.extend_from_slice(&[0, 1, 0, 0, 64, proto, 0, 0]);
    h.extend_from_slice(&src);
    h.extend_from_slice(&dst);
    h
}

fn tcp_frame(src: [u8; 4], sport: u16, dst: [u8; 4], dport: u16, seq: u32, flags: u8, payload: &[u8]) -> Vec<u8> {
    let mut f = ethernet(0x0800);
    f.extend(ipv4(6, src, dst, 20 + payload.len()));
    f.extend_from_slice(&sport.to_be_bytes());
    f.extend_from_slice(&dport.to_be_bytes());
    f.extend_from_slice(&seq.to_be_bytes());
    f.extend_from_slice(&0u32.to_be_bytes());
    f.extend_from_slice(&[0x50, flags, 0x72, 0x10, 0, 0, 0, 0]);
    f.extend_from_slice(payload);
    f
}

fn udp_frame(src: [u8; 4], sport: u16, dst: [u8; 4], dport: u16, payload: &[u8]) -> Vec<u8> {
    let mut f = ethernet(0x0800);
    f.extend(ipv4(17, src, dst, 8 + payload.len()));
    f.extend_from_slice(&sport.to_be_bytes());
    f.extend_from_slice(&dport.to_be_bytes());
    f.extend_from_slice(&((8 + payload.len()) as u16).to_be_bytes());
    f.extend_from_slice(&[0, 0]);
    f.extend_from_slice(payload);
    f
}

const CLIENT: [u8; 4] = [10, 0, 0, 1];
const SERVER: [u8; 4] = [10, 0, 0, 2];

fn packet(ts: u64, frame: Vec<u8>) -> Arc<Packet> {
    Packet::new(ts, &frame)
}

fn config(dissectors: &[&str]) -> Configure {
    Configure {
        interface: "eth0".to_string(),
        workspace: "/tmp".to_string(),
        worker_thread: 2,
        dissectors: dissectors.iter().map(|s| s.to_string()).collect(),
    }
}

/// An inspector that keeps what it is given.
struct Recorder {
    kind: DissectorKind,
    chunks: Vec<(bool, Vec<u8>)>,
}

impl TCPDissector for Recorder {
    fn create(kind: DissectorKind) -> Recorder {
        Recorder { kind, chunks: Vec::new() }
    }

    fn on_client_data(&mut self, data: &[u8]) -> Result<(), ()> {
        self.chunks.push((true, data.to_vec()));
        if self.kind == DissectorKind::Default { Err(()) } else { Ok(()) }
    }

    fn on_server_data(&mut self, data: &[u8]) -> Result<(), ()> {
        self.chunks.push((false, data.to_vec()));
        if self.kind == DissectorKind::Default { Err(()) } else { Ok(()) }
    }
}

fn unknown() -> Proto {
    Proto::new()
}

fn http() -> Proto {
    Proto { master_id: 0, app_id: Proto::HTTP, category: 0 }
}

/// Hands a packet to the table and answers a detection request with `verdict`.
fn feed(t: &mut TCPTracker<Recorder>, p: Arc<Packet>, verdict: Proto) -> (StreamID, StreamAction) {
    let (id, action) = t.on_packet(p);
    match action {
        StreamAction::Detect { .. } => (id, t.on_detect(id, verdict)),
        other => (id, other),
    }
}

#[test]
fn key_is_symmetric() {
    let a = StreamID::new(0x0a000001, 0x0a000002, 1234, 80);
    let b = StreamID::new(0x0a000002, 0x0a000001, 80, 1234);
    assert_eq!(a, b);
    assert_eq!(a.min_ip, 0x0a000001);
    assert_eq!(a.max_ip, 0x0a000002);
    assert_eq!(a.min_port, 80);
    assert_eq!(a.max_port, 1234);
}

#[test]
fn dispatch_keeps_flow_on_one_worker() {
    let out = packet(1, tcp_frame(CLIENT, 1234, SERVER, 80, 1, ACK, b"x"));
    let back = packet(2, tcp_frame(SERVER, 80, CLIENT, 1234, 9, ACK, b"y"));
    let id = StreamID::new(out.src_ip, out.dst_ip, out.src_port, out.dst_port);
    for n in 1u8..=16 {
        let w = dispatch_index(&out, n);
        assert!(w < n as usize);
        assert_eq!(w, dispatch_index(&out, n));
        assert_eq!(w, dispatch_index(&back, n));
        assert_eq!(w, id.worker_index(n));
    }
    // 0x0a000001 + 1234 + 0x0a000002 + 80 = 0x140000517
    assert_eq!(dispatch_index(&out, 7), (0x1400_0517u64 % 7) as usize);
}

#[test]
fn dispatch_hash_wraps_around() {
    let p = packet(1, tcp_frame([255, 255, 255, 255], 2, [0, 0, 0, 1], 3, 1, ACK, b""));
    // 0xffffffff + 2 + 1 + 3 wraps to 5
    assert_eq!(dispatch_index(&p, 200), 5);
}

#[test]
fn reassembly_drops_duplicates_and_out_of_order() {
    let mut flow = TcpFlow { next_seq: 100 };
    assert!(flow.handle_segment(100, 50));
    assert_eq!(flow.next_seq, 150);
    assert!(!flow.handle_segment(100, 50));
    assert!(!flow.handle_segment(200, 50));
    assert_eq!(flow.next_seq, 150);
    assert!(flow.handle_segment(150, 50));
    assert_eq!(flow.next_seq, 200);
    assert!(!flow.handle_segment(200, 0));
}

#[test]
fn reassembly_wraps_sequence_space() {
    let mut flow = TcpFlow { next_seq: 0xffff_fff0 };
    assert!(flow.handle_segment(0xffff_fff0, 0x20));
    assert_eq!(flow.next_seq, 0x10);
    assert!(!flow.handle_segment(0xffff_fff0, 0x20));
}

#[test]
fn serial_comparison() {
    assert_eq!(seq_compare(5, 5), 0);
    assert_eq!(seq_compare(1, 2), -1);
    assert_eq!(seq_compare(2, 1), 1);
    assert_eq!(seq_compare(0xffff_fff0, 5), -1);
    assert_eq!(seq_compare(5, 0xffff_fff0), 1);
    assert_eq!(seq_compare(0, 0x8000_0000), 1);
    assert_eq!(seq_compare(0x8000_0000, 0), 1);
}

#[test]
fn give_up_fires_once_after_max_failures() {
    let mut d = Detection::new();
    for _ in 0..10 {
        assert!(d.on_packet());
        assert_eq!(d.on_detect(unknown()), Verdict::Pending);
    }
    assert!(d.on_packet());
    assert_eq!(d.on_detect(unknown()), Verdict::GiveUp);
    assert_eq!(d.detect_times, 11);
    assert_eq!(d.on_give_up(unknown()), Verdict::Guess);
    assert_eq!(d.on_guess(unknown()), Verdict::Failed);
    assert_eq!(d.state, State::DetectError);
    assert!(!d.close());
    assert!(!d.on_packet());
}

#[test]
fn give_up_not_repeated_when_unanswered() {
    let mut d = Detection::new();
    let mut give_ups = 0;
    for _ in 0..30 {
        d.on_packet();
        if d.on_detect(unknown()) == Verdict::GiveUp {
            give_ups += 1;
        }
    }
    assert_eq!(give_ups, 1);
    assert!(!d.close());
}

#[test]
fn close_forces_give_up_once() {
    let mut d = Detection::new();
    assert!(d.close());
    assert!(!d.close());
    assert_eq!(d.on_give_up(http()), Verdict::Detected);
    assert_eq!(d.state, State::DetectSuccess);
    assert!(!d.close());
}

#[test]
fn idle_flow_kept_before_timeout() {
    let t0: u64 = 100_000_000;
    let mut table: TCPTracker<Recorder> = TCPTracker::new(TCPDissectorAllocator::new(&config(&["http"])));
    feed(&mut table, packet(t0, tcp_frame(CLIENT, 1234, SERVER, 80, 1, SYN, b"")), unknown());
    let gone = table.cleanup_stream(t0 + STREAM_CLEANUP_DURATION - 1);
    assert_eq!(gone.len(), 0);
    assert_eq!(table.table.streams.len(), 1);
    assert_eq!(table.table.last_cleanup, t0 + STREAM_CLEANUP_DURATION - 1);
}

#[test]
fn idle_flow_dropped_after_timeout() {
    let t0: u64 = 100_000_000;
    let mut table: TCPTracker<Recorder> = TCPTracker::new(TCPDissectorAllocator::new(&config(&["http"])));
    feed(&mut table, packet(t0, tcp_frame(CLIENT, 1234, SERVER, 80, 1, SYN, b"")), unknown());
    let mut gone = table.cleanup_stream(t0 + STREAM_CLEANUP_DURATION + 1);
    assert_eq!(gone.len(), 1);
    assert_eq!(table.table.streams.len(), 0);
    assert_eq!(gone[0].close(), StreamAction::GiveUp);
}

#[test]
fn sweep_waits_a_full_period() {
    let t0: u64 = 100_000_000;
    let mut table: TCPTracker<Recorder> = TCPTracker::new(TCPDissectorAllocator::new(&config(&["http"])));
    table.table.last_cleanup = t0;
    feed(&mut table, packet(1, tcp_frame(CLIENT, 1234, SERVER, 80, 1, SYN, b"")), unknown());
    assert_eq!(table.cleanup_stream(t0 + STREAM_CLEANUP_DURATION - 1).len(), 0);
    assert_eq!(table.table.streams.len(), 1);
    assert_eq!(table.table.last_cleanup, t0);
    assert_eq!(table.cleanup_stream(t0 + STREAM_CLEANUP_DURATION).len(), 1);
    assert_eq!(table.table.streams.len(), 0);
}

#[test]
fn buffered_packets_replayed_in_order_on_detection() {
    let mut table: TCPTracker<Recorder> = TCPTracker::new(TCPDissectorAllocator::new(&config(&["http"])));
    let (id, a) = feed(&mut table, packet(1, tcp_frame(CLIENT, 1234, SERVER, 80, 1000, SYN, b"")), unknown());
    assert_eq!(a, StreamAction::Nothing);
    feed(&mut table, packet(2, tcp_frame(CLIENT, 1234, SERVER, 80, 1001, ACK, b"GET ")), unknown());
    feed(&mut table, packet(3, tcp_frame(CLIENT, 1234, SERVER, 80, 1005, ACK, b"/ HT")), unknown());
    assert!(table.table.streams[0].dissector.is_none());
    assert_eq!(table.table.streams[0].pending_packets.len(), 3);
    let (id3, _) = feed(&mut table, packet(4, tcp_frame(CLIENT, 1234, SERVER, 80, 1009, ACK, b"TP/1.1")), http());
    assert_eq!(id, id3);
    let s = &table.table.streams[0];
    assert_eq!(s.kind, Some(DissectorKind::Http));
    assert_eq!(s.pending_packets.len(), 0);
    let d = s.dissector.as_ref().unwrap();
    assert_eq!(d.kind, DissectorKind::Http);
    assert_eq!(
        d.chunks,
        vec![(true, b"GET ".to_vec()), (true, b"/ HT".to_vec()), (true, b"TP/1.1".to_vec())]
    );
    feed(&mut table, packet(5, tcp_frame(SERVER, 80, CLIENT, 1234, 5000, SYN | ACK, b"")), unknown());
    feed(&mut table, packet(6, tcp_frame(SERVER, 80, CLIENT, 1234, 5001, ACK, b"HTTP/1.1 200")), unknown());
    feed(&mut table, packet(7, tcp_frame(CLIENT, 1234, SERVER, 80, 1015, ACK, b"\r\n")), unknown());
    let d = table.table.streams[0].dissector.as_ref().unwrap();
    assert_eq!(d.chunks.len(), 5);
    assert_eq!(d.chunks[3], (false, b"HTTP/1.1 200".to_vec()));
    assert_eq!(d.chunks[4], (true, b"\r\n".to_vec()));
    assert_eq!(table.table.streams.len(), 1);
}

#[test]
fn fin_finishes_and_removes_flow() {
    let mut table: TCPTracker<Recorder> = TCPTracker::new(TCPDissectorAllocator::new(&config(&["http"])));
    let (id, _) = feed(&mut table, packet(1, tcp_frame(CLIENT, 1234, SERVER, 80, 1000, SYN, b"")), http());
    assert!(table.end_packet(id, 1).is_empty());
    assert_eq!(table.table.streams[0].detection.state, State::DetectSuccess);
    let (id2, a) = feed(&mut table, packet(2, tcp_frame(SERVER, 80, CLIENT, 1234, 7000, FIN | ACK, b"")), unknown());
    assert_eq!(id, id2);
    assert_eq!(a, StreamAction::Nothing);
    assert!(table.table.streams[0].is_finished());
    let mut gone = table.end_packet(id, 2);
    assert_eq!(gone.len(), 1);
    assert_eq!(table.table.streams.len(), 0);
    assert_eq!(gone[0].close(), StreamAction::Nothing);
}

#[test]
fn inspector_error_skips_flow() {
    let mut table: TCPTracker<Recorder> = TCPTracker::new(TCPDissectorAllocator::new(&config(&[])));
    feed(&mut table, packet(1, tcp_frame(CLIENT, 1234, SERVER, 80, 1000, SYN, b"")), unknown());
    feed(&mut table, packet(2, tcp_frame(CLIENT, 1234, SERVER, 80, 1001, ACK, b"abc")), http());
    assert_eq!(table.table.streams[0].kind, Some(DissectorKind::Default));
    assert!(table.table.streams[0].skip);
    feed(&mut table, packet(3, tcp_frame(CLIENT, 1234, SERVER, 80, 1004, ACK, b"def")), unknown());
    let s = &table.table.streams[0];
    assert_eq!(s.dissector.as_ref().unwrap().chunks, vec![(true, b"abc".to_vec())]);
    assert_eq!(s.client_flow.unwrap().next_seq, 1007);
}

#[test]
fn detection_failure_drops_buffer() {
    let mut table: TCPTracker<Recorder> = TCPTracker::new(TCPDissectorAllocator::new(&config(&["http"])));
    let mut id = StreamID::new(0, 0, 0, 0);
    let mut last = StreamAction::Nothing;
    for i in 0..11u32 {
        let (k, a) = feed(&mut table, packet(i as u64, tcp_frame(CLIENT, 1234, SERVER, 80, 1 + i, ACK, b"")), unknown());
        id = k;
        last = a;
    }
    assert_eq!(last, StreamAction::GiveUp);
    let guess = table.on_give_up(id, unknown());
    assert_eq!(
        guess,
        StreamAction::Guess { client_ip: 0x0a000001, client_port: 1234, server_ip: 0x0a000002, server_port: 80 }
    );
    assert_eq!(table.on_guess(id, unknown()), StreamAction::Nothing);
    let s = &table.table.streams[0];
    assert_eq!(s.detection.state, State::DetectError);
    assert_eq!(s.pending_packets.len(), 0);
    assert!(s.dissector.is_none());
}

#[test]
fn registry_falls_back_to_master_then_default() {
    let reg = TCPDissectorAllocator::new(&config(&["http"]));
    assert_eq!(reg.alloc_dissector(&Proto { master_id: 0, app_id: Proto::HTTP_PROXY, category: 0 }), DissectorKind::Http);
    assert_eq!(reg.alloc_dissector(&Proto { master_id: Proto::HTTP, app_id: 999, category: 0 }), DissectorKind::Http);
    assert_eq!(reg.alloc_dissector(&Proto { master_id: 1, app_id: 2, category: 0 }), DissectorKind::Default);
    let off = TCPDissectorAllocator::new(&config(&["dns"]));
    assert_eq!(off.alloc_dissector(&http()), DissectorKind::Default);
    let udp = UDPDissectorAllocator::new(&config(&["dns"]));
    assert_eq!(udp.alloc_dissector(&Proto { master_id: Proto::DNS, app_id: 0, category: 0 }), DissectorKind::Dns);
    assert!(config(&["http", "dns"]).is_dissector_enable("dns"));
    assert!(!config(&["http"]).is_dissector_enable("dns"));
}

#[test]
fn default_dissector_refuses_data() {
    let mut d = DefaultDissector::new();
    assert_eq!(d.on_client_data(b"a"), Err(()));
    assert_eq!(d.on_server_data(b"a"), Err(()));
}

#[test]
fn decode_tcp_frame() {
    let p = packet(7, tcp_frame(CLIENT, 1234, SERVER, 80, 42, SYN | ACK, b"hello"));
    assert!(p.valid());
    assert_eq!(p.state, STATE_IPV4 | STATE_TCP | STATE_PAYLOAD);
    assert_eq!(p.timestamp, 7);
    assert_eq!(p.src_ip, 0x0a000001);
    assert_eq!(p.dst_ip, 0x0a000002);
    assert_eq!((p.src_port, p.dst_port), (1234, 80));
    assert_eq!(p.tcp_seq, 42);
    assert_eq!(p.tcp_flags, SYN | ACK);
    assert_eq!(p.ipv4, 14);
    assert_eq!(p.ip_layer_len, 45);
    assert_eq!(p.payload_slice(), b"hello");
    assert_eq!(route(&p), Route::Tcp);
}

#[test]
fn decode_udp_frame() {
    let p = packet(1, udp_frame(CLIENT, 5353, SERVER, 53, b"q"));
    assert_eq!(p.state, STATE_IPV4 | STATE_UDP | STATE_PAYLOAD);
    assert_eq!((p.src_port, p.dst_port), (5353, 53));
    assert_eq!(p.payload_slice(), b"q");
    assert_eq!(route(&p), Route::Udp);
}

#[test]
fn decode_vlan_frame() {
    let inner = tcp_frame(CLIENT, 1, SERVER, 2, 3, ACK, b"");
    let mut f = ethernet(0x8100);
    f.extend_from_slice(&[0x00, 0x05, 0x08, 0x00]);
    f.extend_from_slice(&inner[14..]);
    let p = packet(1, f);
    assert_eq!(p.state, STATE_IPV4 | STATE_TCP);
    assert_eq!(p.ipv4, 18);
    assert_eq!(p.payload_slice(), b"");
}

#[test]
fn decode_rejects_short_and_bad_frames() {
    let p = packet(1, vec![0u8; 10]);
    assert!(!p.valid());
    assert_eq!(p.state, BAD_PACKET);
    assert_eq!(route(&p), Route::Ignore);

    let mut f = tcp_frame(CLIENT, 1, SERVER, 2, 3, ACK, b"");
    f[14] = 0x65;
    let p = packet(1, f);
    assert_eq!(p.state, STATE_IPV4 | BAD_PACKET);

    let mut f = tcp_frame(CLIENT, 1, SERVER, 2, 3, ACK, b"");
    f[17] = 200;
    let p = packet(1, f);
    assert_eq!(p.state, STATE_IPV4 | BAD_PACKET);

    let mut f = tcp_frame(CLIENT, 1, SERVER, 2, 3, ACK, b"");
    f[46] = 0xf0;
    let p = packet(1, f);
    assert_eq!(p.state, STATE_IPV4 | STATE_TCP | BAD_PACKET);

    let p = packet(1, ethernet(0x86dd));
    assert_eq!(p.state, 0);
    assert!(p.valid());
}

#[test]
fn udp_flow_detects_and_hands_datagrams_on() {
    let mut table: UDPTracker<DNSDissector> = UDPTracker::new(UDPDissectorAllocator::new(&config(&["dns"])));
    let (id, a) = table.on_packet(packet(1, udp_frame(CLIENT, 5353, SERVER, 53, b"query")));
    assert_eq!(a, StreamAction::Detect { from_client: true });
    assert_eq!(table.on_detect(id, unknown()), StreamAction::Nothing);
    let (id2, a) = table.on_packet(packet(2, udp_frame(SERVER, 53, CLIENT, 5353, b"answer")));
    assert_eq!(id, id2);
    assert_eq!(a, StreamAction::Detect { from_client: false });
    let dns = Proto { master_id: Proto::DNS, app_id: 0, category: 0 };
    assert_eq!(table.on_detect(id, dns), StreamAction::Nothing);
    let s = &table.table.streams[0];
    assert_eq!(s.kind, Some(DissectorKind::Dns));
    assert_eq!(s.pending_packets.len(), 0);
    // the server's answer makes the DNS inspector stop
    assert!(s.skip);
    assert!(!s.is_finished());
    assert_eq!(table.cleanup_stream(2 + STREAM_CLEANUP_DURATION).len(), 1);
    assert_eq!(table.table.len(), 0);
}

#[test]
fn udp_inspectors() {
    let p = packet(1, udp_frame(CLIENT, 1, SERVER, 2, b"x"));
    let mut dns = DNSDissector::new();
    assert_eq!(dns.on_client_packet(&p), Ok(()));
    assert_eq!(dns.on_server_packet(&p), Err(()));
    let mut d = layers::udp_dissector::DefaultDissector::default();
    assert_eq!(d.on_client_packet(&p), Err(()));
}

#[test]
fn reassembly_in_order_arrival_delivers_all_once() {
    let mut flow = TcpFlow { next_seq: 100 };
    let delivered: Vec<bool> = [(100, 50), (100, 50), (150, 50), (200, 50)]
        .iter()
        .map(|&(seq, len)| flow.handle_segment(seq, len))
        .collect();
    assert_eq!(delivered, vec![true, false, true, true]);
    assert_eq!(flow.next_seq, 250);
}

#[test]
fn session_hands_contiguous_bytes_to_inspector() {
    let mut table: TCPTracker<Recorder> = TCPTracker::new(TCPDissectorAllocator::new(&config(&["http"])));
    feed(&mut table, packet(1, tcp_frame(CLIENT, 1234, SERVER, 80, 99, SYN, b"")), http());
    let a = [b'a'; 50];
    let b = [b'b'; 50];
    let c = [b'c'; 50];
    feed(&mut table, packet(2, tcp_frame(CLIENT, 1234, SERVER, 80, 100, ACK, &a)), unknown());
    feed(&mut table, packet(3, tcp_frame(CLIENT, 1234, SERVER, 80, 100, ACK, &a)), unknown());
    feed(&mut table, packet(4, tcp_frame(CLIENT, 1234, SERVER, 80, 200, ACK, &c)), unknown());
    feed(&mut table, packet(5, tcp_frame(CLIENT, 1234, SERVER, 80, 150, ACK, &b)), unknown());
    let s = &table.table.streams[0];
    let d = s.dissector.as_ref().unwrap();
    assert_eq!(d.chunks, vec![(true, a.to_vec()), (true, b.to_vec())]);
    assert_eq!(s.client_flow.unwrap().next_seq, 200);
    assert!(s.server_flow.is_none());
}
