use vstd::prelude::*;

use std::sync::Arc;

use crate::detector::{after_close, after_detect, after_give_up, after_guess, after_packet, fresh_detection, Detection, Proto, State, Verdict};
use crate::dissector::{dissector_for, DissectorKind, UDPDissectorAllocator};
use crate::flow_table::Flow;
use crate::ip::{stream_id_of, StreamID};
use crate::packet::Packet;
use crate::tcp_stream::{from_endpoint, is_prefix, lemma_prefix_push, lemma_prefix_refl, StreamAction};
use crate::udp_dissector::UDPDissector;

verus! {

/// Datagrams handed on, in order, each tagged with whether it came from the client.
pub type Datagrams = Seq<(bool, Arc<Packet>)>;

/// The datagrams tagged with their direction.
pub open spec fn tagged(ps: Seq<Arc<Packet>>, client_ip: u32, client_port: u16) -> Datagrams
    decreases ps.len(),
{
    if ps.len() == 0 {
        Seq::empty()
    } else {
        tagged(ps.drop_last(), client_ip, client_port).push(
            (from_endpoint(*ps.last(), client_ip, client_port), ps.last()),
        )
    }
}

/// The tracking state of one UDP flow: protocol detection, the datagrams buffered while it
/// is undecided and the bound content inspector.
pub struct UDPStream<D> {
    pub id: StreamID,
    pub skip: bool,
    pub last_timestamp: u64,
    /// the end that sent the first datagram; host order
    pub client: u32,
    pub client_port: u16,
    pub server: u32,
    pub server_port: u16,
    pub detection: Detection,
    pub pending_packets: Vec<Arc<Packet>>,
    pub dissector: Option<D>,
    /// the inspector chosen for the detected protocol
    pub kind: Option<DissectorKind>,
    /// every datagram of the detected flow, in order
    pub released: Ghost<Datagrams>,
    /// what was handed to the inspector
    pub delivered: Ghost<Datagrams>,
}

impl<D: UDPDissector> UDPStream<D> {
    pub open spec fn wf_core(&self) -> bool {
        &&& self.id == stream_id_of(self.client, self.server, self.client_port, self.server_port)
        &&& is_prefix(self.delivered@, self.released@)
        &&& !self.skip ==> self.delivered@ == self.released@
    }

    pub open spec fn wf(&self) -> bool {
        &&& self.wf_core()
        &&& (self.dissector is Some <==> self.detection.state == State::DetectSuccess)
        &&& self.detection.state != State::DetectTrying ==> self.pending_packets@.len() == 0
    }

    pub open spec fn same_flow(&self, other: &Self) -> bool {
        &&& other.id == self.id
        &&& other.client == self.client && other.client_port == self.client_port
        &&& other.server == self.server && other.server_port == self.server_port
        &&& other.last_timestamp == self.last_timestamp
        &&& self.skip ==> other.skip
    }

    /// As for TCP flows, but a detected flow hands the buffered datagrams on whole.
    pub open spec fn verdict_effect(&self, other: &Self, registry: Map<u16, DissectorKind>, v: Verdict) -> bool {
        if v == Verdict::Detected {
            &&& other.kind == Some(dissector_for(registry, other.detection.proto))
            &&& other.released@ == self.released@ + tagged(self.pending_packets@, self.client, self.client_port)
            &&& other.pending_packets@.len() == 0
        } else if v == Verdict::Failed {
            &&& other.pending_packets@.len() == 0
            &&& other.released@ == self.released@
            &&& other.delivered@ == self.delivered@
            &&& other.kind == self.kind
        } else {
            &&& other.pending_packets@ == self.pending_packets@
            &&& other.released@ == self.released@
            &&& other.delivered@ == self.delivered@
            &&& other.kind == self.kind
        }
    }

    /// A stream for the flow that `packet` opens; its sender becomes the client.
    pub fn new(packet: &Packet) -> (r: UDPStream<D>)
        ensures
            r.wf(),
            r.client == packet.src_ip && r.client_port == packet.src_port,
            r.server == packet.dst_ip && r.server_port == packet.dst_port,
            r.last_timestamp == packet.timestamp,
            r.detection == fresh_detection(),
            r.pending_packets@.len() == 0,
            r.released@.len() == 0,
            !r.skip,
    {
        proof {
            lemma_prefix_refl(Seq::<(bool, Arc<Packet>)>::empty());
        }
        UDPStream {
            id: StreamID::new(packet.src_ip, packet.dst_ip, packet.src_port, packet.dst_port),
            skip: false,
            last_timestamp: packet.timestamp,
            client: packet.src_ip,
            client_port: packet.src_port,
            server: packet.dst_ip,
            server_port: packet.dst_port,
            detection: Detection::new(),
            pending_packets: Vec::new(),
            dissector: None,
            kind: None,
            released: Ghost(Seq::empty()),
            delivered: Ghost(Seq::empty()),
        }
    }

    fn is_client_flow(&self, packet: &Packet) -> (r: bool)
        ensures
            r == from_endpoint(*packet, self.client, self.client_port),
    {
        packet.src_port == self.client_port && packet.src_ip == self.client
    }

    /// What one datagram does to a stream, and what the stream asks for in return.
    pub open spec fn packet_effect(&self, other: &Self, packet: Arc<Packet>, r: StreamAction) -> bool {
        &&& other.id == self.id
        &&& other.client == self.client && other.client_port == self.client_port
        &&& other.server == self.server && other.server_port == self.server_port
        &&& other.last_timestamp == packet.timestamp
        &&& other.detection == after_packet(self.detection)
        &&& other.kind == self.kind
        &&& self.skip ==> other.skip
        &&& r == if self.detection.state == State::DetectTrying {
            StreamAction::Detect { from_client: from_endpoint(*packet, self.client, self.client_port) }
        } else {
            StreamAction::Nothing
        }
        &&& self.detection.state == State::DetectTrying ==> {
            &&& other.pending_packets@ == self.pending_packets@.push(packet)
            &&& other.released@ == self.released@
            &&& other.delivered@ == self.delivered@
        }
        &&& self.detection.state == State::DetectSuccess ==> {
            &&& other.pending_packets@ == self.pending_packets@
            &&& other.released@ == self.released@.push((from_endpoint(*packet, self.client, self.client_port), packet))
        }
        &&& self.detection.state == State::DetectError ==> {
            &&& other.pending_packets@ == self.pending_packets@
            &&& other.released@ == self.released@
            &&& other.delivered@ == self.delivered@
        }
    }

    /// Takes the next datagram of the flow: buffered for detection while undecided, handed
    /// to the inspector once a protocol is known (unless skipped), dropped after a failed
    /// detection.
    pub fn handle_packet(&mut self, packet: Arc<Packet>) -> (r: StreamAction)
        requires
            old(self).wf(),
        ensures
            final(self).wf(),
            old(self).packet_effect(&*final(self), packet, r),
    {
        self.last_timestamp = packet.timestamp;
        let is_client = self.is_client_flow(&packet);
        if self.detection.state == State::DetectTrying {
            self.detection.on_packet();
            self.pending_packets.push(packet);
            StreamAction::Detect { from_client: is_client }
        } else if self.detection.state == State::DetectSuccess {
            self.dispatch_packet(packet);
            StreamAction::Nothing
        } else {
            StreamAction::Nothing
        }
    }

    fn dispatch_packet(&mut self, packet: Arc<Packet>)
        requires
            old(self).wf(),
            old(self).detection.state == State::DetectSuccess,
        ensures
            final(self).wf(),
            old(self).same_flow(&*final(self)),
            final(self).detection == old(self).detection,
            final(self).pending_packets@ == old(self).pending_packets@,
            final(self).kind == old(self).kind,
            final(self).released@ == old(self).released@.push(
                (from_endpoint(*packet, old(self).client, old(self).client_port), packet),
            ),
    {
        let is_client = self.is_client_flow(&packet);
        let ghost item = (is_client, packet);
        proof {
            lemma_prefix_push(self.delivered@, self.released@, item);
            self.released@ = self.released@.push(item);
        }
        if !self.skip {
            let result = match &mut self.dissector {
                Some(d) => if is_client {
                    d.on_client_packet(&packet)
                } else {
                    d.on_server_packet(&packet)
                },
                None => Ok(()),
            };
            proof {
                self.delivered@ = self.delivered@.push(item);
            }
            if result.is_err() {
                self.skip = true;
            }
        }
    }

    fn on_detect_success(&mut self, registry: &UDPDissectorAllocator)
        requires
            old(self).wf_core(),
            old(self).detection.state == State::DetectSuccess,
        ensures
            final(self).wf(),
            old(self).same_flow(&*final(self)),
            final(self).detection == old(self).detection,
            old(self).verdict_effect(&*final(self), registry.view(), Verdict::Detected),
    {
        let kind = registry.alloc_dissector(&self.detection.proto);
        self.kind = Some(kind);
        self.dissector = Some(D::create(kind));
        let mut pending: Vec<Arc<Packet>> = Vec::new();
        std::mem::swap(&mut pending, &mut self.pending_packets);
        let ghost start = self.released@;
        let mut i: usize = 0;
        while i < pending.len()
            invariant
                self.wf(),
                old(self).same_flow(&*self),
                self.detection == old(self).detection,
                self.detection.state == State::DetectSuccess,
                self.kind == Some(dissector_for(registry.view(), self.detection.proto)),
                self.pending_packets@.len() == 0,
                pending@ == old(self).pending_packets@,
                start == old(self).released@,
                0 <= i <= pending@.len(),
                self.released@ == start + tagged(pending@.subrange(0, i as int), self.client, self.client_port),
            decreases pending@.len() - i,
        {
            proof {
                assert(pending@.subrange(0, i + 1).drop_last() =~= pending@.subrange(0, i as int));
            }
            let p = pending[i].clone();
            self.dispatch_packet(p);
            proof {
                assert(self.released@ =~= start + tagged(pending@.subrange(0, i + 1), self.client, self.client_port));
            }
            i = i + 1;
        }
        proof {
            assert(pending@.subrange(0, i as int) =~= pending@);
        }
    }

    /// The classifier's answer to `Detect`.
    pub fn on_detect(&mut self, proto: Proto, registry: &UDPDissectorAllocator) -> (r: StreamAction)
        requires
            old(self).wf(),
        ensures
            final(self).wf(),
            old(self).same_flow(&*final(self)),
            final(self).detection == after_detect(old(self).detection, proto).0,
            old(self).verdict_effect(&*final(self), registry.view(), after_detect(old(self).detection, proto).1),
            r == (if after_detect(old(self).detection, proto).1 == Verdict::GiveUp {
                StreamAction::GiveUp
            } else {
                StreamAction::Nothing
            }),
    {
        let verdict = self.detection.on_detect(proto);
        match verdict {
            Verdict::Detected => {
                self.on_detect_success(registry);
                StreamAction::Nothing
            },
            Verdict::GiveUp => StreamAction::GiveUp,
            _ => StreamAction::Nothing,
        }
    }

    /// The classifier's answer to `GiveUp`.
    pub fn on_give_up(&mut self, proto: Proto, registry: &UDPDissectorAllocator) -> (r: StreamAction)
        requires
            old(self).wf(),
        ensures
            final(self).wf(),
            old(self).same_flow(&*final(self)),
            final(self).detection == after_give_up(old(self).detection, proto).0,
            old(self).verdict_effect(&*final(self), registry.view(), after_give_up(old(self).detection, proto).1),
            r == (if after_give_up(old(self).detection, proto).1 == Verdict::Guess {
                StreamAction::Guess {
                    client_ip: old(self).client,
                    client_port: old(self).client_port,
                    server_ip: old(self).server,
                    server_port: old(self).server_port,
                }
            } else {
                StreamAction::Nothing
            }),
    {
        let verdict = self.detection.on_give_up(proto);
        match verdict {
            Verdict::Detected => {
                self.on_detect_success(registry);
                StreamAction::Nothing
            },
            Verdict::Guess => StreamAction::Guess {
                client_ip: self.client,
                client_port: self.client_port,
                server_ip: self.server,
                server_port: self.server_port,
            },
            _ => StreamAction::Nothing,
        }
    }

    /// The classifier's answer to `Guess`; when it finds nothing either, the buffered
    /// datagrams are dropped.
    pub fn on_guess(&mut self, proto: Proto, registry: &UDPDissectorAllocator) -> (r: StreamAction)
        requires
            old(self).wf(),
        ensures
            final(self).wf(),
            old(self).same_flow(&*final(self)),
            final(self).detection == after_guess(old(self).detection, proto).0,
            old(self).verdict_effect(&*final(self), registry.view(), after_guess(old(self).detection, proto).1),
            r == StreamAction::Nothing,
    {
        let verdict = self.detection.on_guess(proto);
        match verdict {
            Verdict::Detected => {
                self.on_detect_success(registry);
            },
            Verdict::Failed => {
                self.pending_packets.clear();
            },
            _ => {},
        }
        StreamAction::Nothing
    }

    /// The flow is going away: a detection still undecided goes through the give-up path,
    /// at most once over the life of the stream.
    pub fn close(&mut self) -> (r: StreamAction)
        requires
            old(self).wf(),
        ensures
            final(self).wf(),
            old(self).same_flow(&*final(self)),
            final(self).detection == after_close(old(self).detection).0,
            old(self).verdict_effect(&*final(self), Map::empty(), Verdict::Pending),
            r == (if after_close(old(self).detection).1 {
                StreamAction::GiveUp
            } else {
                StreamAction::Nothing
            }),
    {
        if self.detection.close() {
            StreamAction::GiveUp
        } else {
            StreamAction::Nothing
        }
    }
}

impl<D: UDPDissector> Flow for UDPStream<D> {
    open spec fn key(&self) -> StreamID {
        self.id
    }

    open spec fn inv(&self) -> bool {
        self.wf()
    }

    open spec fn last_active(&self) -> u64 {
        self.last_timestamp
    }

    /// A UDP flow ends only by going idle.
    open spec fn done(&self) -> bool {
        false
    }

    fn flow_key(&self) -> (r: StreamID) {
        self.id
    }

    fn last_seen(&self) -> (r: u64) {
        self.last_timestamp
    }

    fn is_finished(&self) -> (r: bool) {
        false
    }
}

} // verus!
