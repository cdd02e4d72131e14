use vstd::prelude::*;

use std::sync::Arc;

use crate::detector::{after_close, after_detect, after_give_up, after_guess, after_packet, fresh_detection, Detection, Proto, State, Verdict};
use crate::dissector::{dissector_for, DissectorKind, TCPDissector, TCPDissectorAllocator};
use crate::flow_table::Flow;
use crate::ip::{stream_id_of, StreamID};
use crate::packet::{lemma_decode_payload_bounds, Packet};
use crate::tcp::TCPHeader;
use crate::tcp_flow::{reassemble, seq_add, segment_accepted, TcpFlow};

verus! {

/// What the owner of a stream is to do next on its behalf.
#[derive(Clone, Copy, Debug, PartialEq, Eq, Structural)]
pub enum StreamAction {
    Nothing,
    /// Classify the packet just handed in; `from_client` tells which of the flow's two
    /// identifiers is the source.
    Detect { from_client: bool },
    /// Ask the classifier for its give-up verdict.
    GiveUp,
    /// Ask the classifier to guess from the addresses alone.
    Guess { client_ip: u32, client_port: u16, server_ip: u32, server_port: u16 },
}

/// Byte ranges that the reassemblers let through, in order, each tagged with whether it
/// travelled from the client.
pub type Released = Seq<(bool, Seq<u8>)>;

/// The next expected sequence of the client and of the server direction (none before the
/// first packet of that direction), and what has been released so far.
pub type Flows = (Option<u32>, Option<u32>, Released);

pub open spec fn fin_or_rst(flags: u8) -> bool {
    flags & (TCPHeader::FIN | TCPHeader::RST) != 0
}

pub open spec fn from_endpoint(p: Packet, ip: u32, port: u16) -> bool {
    p.src_port == port && p.src_ip == ip
}

/// One direction takes a packet: a direction seen for the first time starts after the
/// packet's own sequence number. Gives the new expected sequence and whether the payload
/// is released.
pub open spec fn direction_step(next: Option<u32>, p: Packet) -> (u32, bool) {
    let n = match next {
        Some(n) => n,
        None => seq_add(p.tcp_seq, 1),
    };
    let accepted = segment_accepted(n, p.tcp_seq, p.payload_len as nat);
    (if accepted { seq_add(p.tcp_seq, p.payload_len as int) } else { n }, accepted)
}

/// A packet of an established flow goes to the reassembler of its direction.
pub open spec fn dispatch_spec(f: Flows, client_ip: u32, client_port: u16, p: Packet) -> Flows {
    if from_endpoint(p, client_ip, client_port) {
        let (n, acc) = direction_step(f.0, p);
        (Some(n), f.1, if acc { f.2.push((true, p.payload_view())) } else { f.2 })
    } else {
        let (n, acc) = direction_step(f.1, p);
        (f.0, Some(n), if acc { f.2.push((false, p.payload_view())) } else { f.2 })
    }
}

/// Packets dispatched one after another, in the given order.
pub open spec fn replay_spec(f: Flows, client_ip: u32, client_port: u16, ps: Seq<Arc<Packet>>) -> Flows
    decreases ps.len(),
{
    if ps.len() == 0 {
        f
    } else {
        dispatch_spec(replay_spec(f, client_ip, client_port, ps.drop_last()), client_ip, client_port, *ps.last())
    }
}

/// The `(start, length)` of each packet's TCP segment.
pub open spec fn segments(ps: Seq<Arc<Packet>>) -> Seq<(u32, nat)> {
    ps.map_values(|p: Arc<Packet>| (p.tcp_seq, p.payload_len as nat))
}

/// Packets from the client of an established flow release exactly the segments that
/// the reassembler accepts, in order and with their lengths, and leave the server side
/// alone; so what reaches the inspector from the client is contiguous.
pub proof fn lemma_client_stream_reassembled(f: Flows, client_ip: u32, client_port: u16, ps: Seq<Arc<Packet>>, n: u32)
    requires
        f.0 == Some(n),
        forall|i: int| 0 <= i < ps.len() ==> from_endpoint(*#[trigger] ps[i], client_ip, client_port),
        forall|i: int| 0 <= i < ps.len() ==> (#[trigger] ps[i]).wf(),
    ensures
        ({
            let g = replay_spec(f, client_ip, client_port, ps);
            let (m, acc) = reassemble(n, segments(ps));
            &&& g.0 == Some(m)
            &&& g.1 == f.1
            &&& g.2.len() == f.2.len() + acc.len()
            &&& g.2.subrange(0, f.2.len() as int) == f.2
            &&& forall|k: int| 0 <= k < acc.len() ==> (#[trigger] g.2[f.2.len() + k]).0
                && g.2[f.2.len() + k].1.len() == acc[k].1
        }),
    decreases ps.len(),
{
    if ps.len() > 0 {
        let init = ps.drop_last();
        assert(segments(init) =~= segments(ps).drop_last());
        lemma_client_stream_reassembled(f, client_ip, client_port, init, n);
        let p = *ps.last();
        assert(from_endpoint(p, client_ip, client_port));
        lemma_decode_payload_bounds(p.data@);
        let g0 = replay_spec(f, client_ip, client_port, init);
        let g = replay_spec(f, client_ip, client_port, ps);
        assert(segments(ps).last() == (p.tcp_seq, p.payload_len as nat));
        assert(g.2.subrange(0, f.2.len() as int) =~= g0.2.subrange(0, f.2.len() as int));
    } else {
        assert(f.2.subrange(0, f.2.len() as int) =~= f.2);
    }
}

/// `a` is an initial part of `b`.
pub open spec fn is_prefix<A>(a: Seq<A>, b: Seq<A>) -> bool {
    a.len() <= b.len() && a == b.subrange(0, a.len() as int)
}

pub proof fn lemma_prefix_push<A>(a: Seq<A>, b: Seq<A>, c: A)
    requires
        is_prefix(a, b),
    ensures
        is_prefix(a, b.push(c)),
        a == b ==> is_prefix(a.push(c), b.push(c)),
{
    assert(b.push(c).subrange(0, a.len() as int) =~= b.subrange(0, a.len() as int));
    assert(b.push(c).subrange(0, b.len() + 1int) =~= b.push(c));
}

pub proof fn lemma_prefix_refl<A>(a: Seq<A>)
    ensures
        is_prefix(a, a),
{
    assert(a.subrange(0, a.len() as int) =~= a);
}

/// The tracking state of one TCP flow: protocol detection, the packets buffered while it
/// is undecided, a reassembler per direction and the bound content inspector.
pub struct TCPStream<D> {
    pub id: StreamID,
    pub skip: bool,
    pub finished: bool,
    pub last_timestamp: u64,
    /// the end that sent the first packet; host order
    pub client: u32,
    pub client_port: u16,
    pub server: u32,
    pub server_port: u16,
    pub detection: Detection,
    pub pending_packets: Vec<Arc<Packet>>,
    pub client_flow: Option<TcpFlow>,
    pub server_flow: Option<TcpFlow>,
    pub dissector: Option<D>,
    /// the inspector chosen for the detected protocol
    pub kind: Option<DissectorKind>,
    /// what the reassemblers let through
    pub released: Ghost<Released>,
    /// what was handed to the inspector
    pub delivered: Ghost<Released>,
}

impl<D: TCPDissector> TCPStream<D> {
    pub open spec fn flows(&self) -> Flows {
        (
            match self.client_flow {
                Some(f) => Some(f.next_seq),
                None => None,
            },
            match self.server_flow {
                Some(f) => Some(f.next_seq),
                None => None,
            },
            self.released@,
        )
    }

    pub open spec fn is_client(&self, p: Packet) -> bool {
        from_endpoint(p, self.client, self.client_port)
    }

    pub open spec fn wf(&self) -> bool {
        &&& self.wf_core()
        &&& (self.dissector is Some <==> self.detection.state == State::DetectSuccess)
        &&& self.detection.state != State::DetectTrying ==> self.pending_packets@.len() == 0
    }

    pub open spec fn wf_core(&self) -> bool {
        &&& self.id == stream_id_of(self.client, self.server, self.client_port, self.server_port)
        &&& forall|i: int| 0 <= i < self.pending_packets@.len() ==> (#[trigger] self.pending_packets@[i]).wf()
        &&& is_prefix(self.delivered@, self.released@)
        &&& !self.skip ==> self.delivered@ == self.released@
    }

    /// A stream for the flow that `packet` opens; its sender becomes the client.
    pub fn new(packet: &Packet) -> (r: TCPStream<D>)
        ensures
            r.wf(),
            r.client == packet.src_ip && r.client_port == packet.src_port,
            r.server == packet.dst_ip && r.server_port == packet.dst_port,
            r.last_timestamp == packet.timestamp,
            r.detection == fresh_detection(),
            r.pending_packets@.len() == 0,
            r.flows() == (None::<u32>, None::<u32>, Seq::<(bool, Seq<u8>)>::empty()),
            r.delivered@.len() == 0,
            !r.finished && !r.skip,
    {
        proof {
            lemma_prefix_refl(Seq::<(bool, Seq<u8>)>::empty());
        }
        TCPStream {
            id: StreamID::new(packet.src_ip, packet.dst_ip, packet.src_port, packet.dst_port),
            skip: false,
            finished: false,
            last_timestamp: packet.timestamp,
            client: packet.src_ip,
            client_port: packet.src_port,
            server: packet.dst_ip,
            server_port: packet.dst_port,
            detection: Detection::new(),
            pending_packets: Vec::new(),
            client_flow: None,
            server_flow: None,
            dissector: None,
            kind: None,
            released: Ghost(Seq::empty()),
            delivered: Ghost(Seq::empty()),
        }
    }

    /// The parts of a stream that its verdict handlers leave alone.
    pub open spec fn same_flow(&self, other: &Self) -> bool {
        &&& other.id == self.id
        &&& other.client == self.client && other.client_port == self.client_port
        &&& other.server == self.server && other.server_port == self.server_port
        &&& other.last_timestamp == self.last_timestamp
        &&& other.finished == self.finished
        &&& self.skip ==> other.skip
    }

    /// What a verdict does to the buffered packets and the reassemblers: on detection the
    /// chosen inspector is bound and the buffered packets are replayed in arrival order; on
    /// failure they are dropped; otherwise nothing moves.
    pub open spec fn verdict_effect(&self, other: &Self, registry: Map<u16, DissectorKind>, v: Verdict) -> bool {
        if v == Verdict::Detected {
            &&& other.kind == Some(dissector_for(registry, other.detection.proto))
            &&& other.flows() == replay_spec(self.flows(), self.client, self.client_port, self.pending_packets@)
            &&& other.pending_packets@.len() == 0
        } else if v == Verdict::Failed {
            &&& other.pending_packets@.len() == 0
            &&& other.flows() == self.flows()
            &&& other.delivered@ == self.delivered@
            &&& other.kind == self.kind
        } else {
            &&& other.pending_packets@ == self.pending_packets@
            &&& other.flows() == self.flows()
            &&& other.delivered@ == self.delivered@
            &&& other.kind == self.kind
        }
    }

    /// Binds the inspector for the detected protocol and replays the buffered packets to
    /// it in arrival order.
    fn on_detect_success(&mut self, registry: &TCPDissectorAllocator)
        requires
            old(self).wf_core(),
            old(self).detection.state == State::DetectSuccess,
        ensures
            final(self).wf(),
            old(self).same_flow(&*final(self)),
            final(self).detection == old(self).detection,
            old(self).verdict_effect(&*final(self), registry.view(), Verdict::Detected),
    {
        let kind = registry.alloc_dissector(&self.detection.proto);
        self.kind = Some(kind);
        self.dissector = Some(D::create(kind));
        let mut pending: Vec<Arc<Packet>> = Vec::new();
        std::mem::swap(&mut pending, &mut self.pending_packets);
        let ghost start = self.flows();
        let mut i: usize = 0;
        while i < pending.len()
            invariant
                self.wf(),
                old(self).same_flow(&*self),
                self.detection == old(self).detection,
                self.detection.state == State::DetectSuccess,
                self.kind == Some(dissector_for(registry.view(), self.detection.proto)),
                self.pending_packets@.len() == 0,
                pending@ == old(self).pending_packets@,
                start == old(self).flows(),
                0 <= i <= pending@.len(),
                forall|j: int| 0 <= j < pending@.len() ==> (#[trigger] pending@[j]).wf(),
                self.flows() == replay_spec(start, self.client, self.client_port, pending@.subrange(0, i as int)),
            decreases pending@.len() - i,
        {
            proof {
                assert(pending@.subrange(0, i + 1).drop_last() =~= pending@.subrange(0, i as int));
            }
            self.dispatch_packet(&pending[i]);
            i = i + 1;
        }
        proof {
            assert(pending@.subrange(0, i as int) =~= pending@);
        }
    }

    /// The classifier's answer to `Detect`.
    pub fn on_detect(&mut self, proto: Proto, registry: &TCPDissectorAllocator) -> (r: StreamAction)
        requires
            old(self).wf(),
        ensures
            final(self).wf(),
            old(self).same_flow(&*final(self)),
            final(self).detection == after_detect(old(self).detection, proto).0,
            old(self).verdict_effect(&*final(self), registry.view(), after_detect(old(self).detection, proto).1),
            r == (if after_detect(old(self).detection, proto).1 == Verdict::GiveUp {
                StreamAction::GiveUp
            } else {
                StreamAction::Nothing
            }),
    {
        let verdict = self.detection.on_detect(proto);
        match verdict {
            Verdict::Detected => {
                self.on_detect_success(registry);
                StreamAction::Nothing
            },
            Verdict::GiveUp => StreamAction::GiveUp,
            _ => StreamAction::Nothing,
        }
    }

    /// The classifier's answer to `GiveUp`.
    pub fn on_give_up(&mut self, proto: Proto, registry: &TCPDissectorAllocator) -> (r: StreamAction)
        requires
            old(self).wf(),
        ensures
            final(self).wf(),
            old(self).same_flow(&*final(self)),
            final(self).detection == after_give_up(old(self).detection, proto).0,
            old(self).verdict_effect(&*final(self), registry.view(), after_give_up(old(self).detection, proto).1),
            r == (if after_give_up(old(self).detection, proto).1 == Verdict::Guess {
                StreamAction::Guess {
                    client_ip: old(self).client,
                    client_port: old(self).client_port,
                    server_ip: old(self).server,
                    server_port: old(self).server_port,
                }
            } else {
                StreamAction::Nothing
            }),
    {
        let verdict = self.detection.on_give_up(proto);
        match verdict {
            Verdict::Detected => {
                self.on_detect_success(registry);
                StreamAction::Nothing
            },
            Verdict::Guess => StreamAction::Guess {
                client_ip: self.client,
                client_port: self.client_port,
                server_ip: self.server,
                server_port: self.server_port,
            },
            _ => StreamAction::Nothing,
        }
    }

    /// The classifier's answer to `Guess`; when it finds nothing either, detection has
    /// failed and the buffered packets are dropped.
    pub fn on_guess(&mut self, proto: Proto, registry: &TCPDissectorAllocator) -> (r: StreamAction)
        requires
            old(self).wf(),
        ensures
            final(self).wf(),
            old(self).same_flow(&*final(self)),
            final(self).detection == after_guess(old(self).detection, proto).0,
            old(self).verdict_effect(&*final(self), registry.view(), after_guess(old(self).detection, proto).1),
            r == StreamAction::Nothing,
    {
        let verdict = self.detection.on_guess(proto);
        match verdict {
            Verdict::Detected => {
                self.on_detect_success(registry);
            },
            Verdict::Failed => {
                self.pending_packets.clear();
            },
            _ => {},
        }
        StreamAction::Nothing
    }

    /// The flow is going away: a detection still undecided goes through the give-up path,
    /// at most once over the life of the stream.
    pub fn close(&mut self) -> (r: StreamAction)
        requires
            old(self).wf(),
        ensures
            final(self).wf(),
            old(self).same_flow(&*final(self)),
            final(self).detection == after_close(old(self).detection).0,
            old(self).verdict_effect(&*final(self), Map::empty(), Verdict::Pending),
            r == (if after_close(old(self).detection).1 {
                StreamAction::GiveUp
            } else {
                StreamAction::Nothing
            }),
    {
        if self.detection.close() {
            StreamAction::GiveUp
        } else {
            StreamAction::Nothing
        }
    }

    fn is_client_flow(&self, packet: &Packet) -> (r: bool)
        ensures
            r == self.is_client(*packet),
    {
        packet.src_port == self.client_port && packet.src_ip == self.client
    }

    /// What one packet does to a stream, and what the stream asks for in return.
    pub open spec fn packet_effect(&self, other: &Self, packet: Arc<Packet>, r: StreamAction) -> bool {
        &&& other.id == self.id
        &&& other.client == self.client && other.client_port == self.client_port
        &&& other.server == self.server && other.server_port == self.server_port
        &&& other.last_timestamp == packet.timestamp
        &&& other.finished == (self.finished || fin_or_rst(packet.tcp_flags))
        &&& other.detection == after_packet(self.detection)
        &&& other.kind == self.kind
        &&& self.skip ==> other.skip
        &&& r == if self.detection.state == State::DetectTrying {
            StreamAction::Detect { from_client: self.is_client(*packet) }
        } else {
            StreamAction::Nothing
        }
        &&& self.detection.state == State::DetectTrying ==> {
            &&& other.pending_packets@ == self.pending_packets@.push(packet)
            &&& other.flows() == self.flows()
            &&& other.delivered@ == self.delivered@
        }
        &&& self.detection.state == State::DetectSuccess ==> {
            &&& other.pending_packets@ == self.pending_packets@
            &&& other.flows() == dispatch_spec(self.flows(), self.client, self.client_port, *packet)
        }
        &&& self.detection.state == State::DetectError ==> {
            &&& other.pending_packets@ == self.pending_packets@
            &&& other.flows() == self.flows()
            &&& other.delivered@ == self.delivered@
        }
    }

    /// Takes the next packet of the flow. While detecting, the packet is buffered and the
    /// classifier is to look at it; once a protocol is known it goes to the reassembler of
    /// its direction; after a failed detection it is dropped. FIN or RST finishes the flow.
    pub fn handle_packet(&mut self, packet: Arc<Packet>) -> (r: StreamAction)
        requires
            old(self).wf(),
            packet.wf(),
        ensures
            final(self).wf(),
            old(self).packet_effect(&*final(self), packet, r),
    {
        self.last_timestamp = packet.timestamp;
        let is_client = self.is_client_flow(&packet);
        let fin = packet.tcp_flags & (TCPHeader::FIN | TCPHeader::RST) != 0;
        let action = if self.detection.state == State::DetectTrying {
            self.detection.on_packet();
            self.pending_packets.push(packet);
            StreamAction::Detect { from_client: is_client }
        } else if self.detection.state == State::DetectSuccess {
            self.dispatch_packet(&packet);
            StreamAction::Nothing
        } else {
            StreamAction::Nothing
        };
        if fin {
            self.finished = true;
        }
        action
    }

    /// Hands the packet's payload to the reassembler of its direction, and what that lets
    /// through to the inspector unless the flow is skipped.
    fn dispatch_packet(&mut self, packet: &Packet)
        requires
            old(self).wf(),
            old(self).detection.state == State::DetectSuccess,
            packet.wf(),
        ensures
            final(self).wf(),
            final(self).id == old(self).id,
            final(self).client == old(self).client && final(self).client_port == old(self).client_port,
            final(self).server == old(self).server && final(self).server_port == old(self).server_port,
            final(self).last_timestamp == old(self).last_timestamp,
            final(self).finished == old(self).finished,
            final(self).detection == old(self).detection,
            final(self).pending_packets@ == old(self).pending_packets@,
            final(self).kind == old(self).kind,
            old(self).skip ==> final(self).skip,
            final(self).flows() == dispatch_spec(old(self).flows(), old(self).client, old(self).client_port, *packet),
    {
        proof {
            lemma_decode_payload_bounds(packet.data@);
        }
        let is_client = self.is_client_flow(packet);
        let mut flow = if is_client {
            match self.client_flow {
                Some(f) => f,
                None => TcpFlow::new(packet),
            }
        } else {
            match self.server_flow {
                Some(f) => f,
                None => TcpFlow::new(packet),
            }
        };
        let accepted = flow.handle_packet(packet);
        if is_client {
            self.client_flow = Some(flow);
        } else {
            self.server_flow = Some(flow);
        }
        if accepted {
            let data = packet.payload_slice();
            let ghost chunk = (is_client, data@);
            proof {
                lemma_prefix_push(self.delivered@, self.released@, chunk);
                self.released@ = self.released@.push(chunk);
            }
            if !self.skip {
                let result = match &mut self.dissector {
                    Some(d) => if is_client {
                        d.on_client_data(data)
                    } else {
                        d.on_server_data(data)
                    },
                    None => Ok(()),
                };
                proof {
                    self.delivered@ = self.delivered@.push(chunk);
                }
                if result.is_err() {
                    self.skip = true;
                }
            }
        }
    }
}

impl<D: TCPDissector> Flow for TCPStream<D> {
    open spec fn key(&self) -> StreamID {
        self.id
    }

    open spec fn inv(&self) -> bool {
        self.wf()
    }

    open spec fn last_active(&self) -> u64 {
        self.last_timestamp
    }

    open spec fn done(&self) -> bool {
        self.finished
    }

    fn flow_key(&self) -> (r: StreamID) {
        self.id
    }

    fn last_seen(&self) -> (r: u64) {
        self.last_timestamp
    }

    fn is_finished(&self) -> (r: bool) {
        self.finished
    }
}

} // verus!
