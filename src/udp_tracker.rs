use vstd::prelude::*;

use std::sync::Arc;

use crate::detector::{after_detect, after_give_up, after_guess, after_packet, fresh_detection, Proto, Verdict};
use crate::dissector::UDPDissectorAllocator;
use crate::udp_dissector::UDPDissector;
use crate::flow_table::{keeps, FlowTable};
use crate::ip::{stream_id_of, StreamID};
use crate::packet::Packet;
use crate::tcp_stream::StreamAction;
use crate::udp_stream::UDPStream;

verus! {

/// The UDP flows of one worker and the inspector registry they bind from.
pub struct UDPTracker<D> {
    pub table: FlowTable<UDPStream<D>>,
    pub registry: UDPDissectorAllocator,
}

impl<D: UDPDissector> UDPTracker<D> {
    pub open spec fn wf(&self) -> bool {
        self.table.wf()
    }

    pub open spec fn contains(&self, id: StreamID) -> bool {
        self.table.contains(id)
    }

    /// The flow stored under `id`.
    pub open spec fn stream(&self, id: StreamID) -> UDPStream<D> {
        self.table.stream(id)
    }

    pub fn new(registry: UDPDissectorAllocator) -> (r: UDPTracker<D>)
        ensures
            r.wf(),
            r.registry == registry,
            r.table.last_cleanup == 0,
            forall|id: StreamID| !r.contains(id),
    {
        UDPTracker { table: FlowTable::new(), registry }
    }

    /// Hands a packet to its flow, which is created when the packet is the first of it.
    /// Returns the flow's key and what the flow asks for.
    pub fn on_packet(&mut self, packet: Arc<Packet>) -> (r: (StreamID, StreamAction))
        requires
            old(self).wf(),
        ensures
            final(self).wf(),
            final(self).registry == old(self).registry,
            final(self).table.last_cleanup == old(self).table.last_cleanup,
            r.0 == stream_id_of(packet.src_ip, packet.dst_ip, packet.src_port, packet.dst_port),
            final(self).contains(r.0),
            forall|id: StreamID| #[trigger] final(self).contains(id) <==> old(self).contains(id) || id == r.0,
            forall|id: StreamID| id != r.0 && old(self).contains(id) ==> #[trigger] final(self).stream(id) == old(self).stream(id),
            final(self).stream(r.0).last_timestamp == packet.timestamp,
            old(self).contains(r.0) ==> old(self).stream(r.0).packet_effect(&final(self).stream(r.0), packet, r.1),
            !old(self).contains(r.0) ==> {
                &&& final(self).stream(r.0).detection == after_packet(fresh_detection())
                &&& final(self).stream(r.0).client == packet.src_ip
                &&& final(self).stream(r.0).client_port == packet.src_port
                &&& final(self).stream(r.0).pending_packets@ == seq![packet]
                &&& r.1 == StreamAction::Detect { from_client: true }
            },
    {
        let id = StreamID::new(packet.src_ip, packet.dst_ip, packet.src_port, packet.dst_port);
        let i = match self.table.find(id) {
            Some(i) => i,
            None => self.table.insert(UDPStream::new(&packet)),
        };
        let ghost before = self.table;
        let action = self.table.streams[i].handle_packet(packet);
        proof {
            FlowTable::lemma_updated(&before, &self.table, i as int);
            before.lemma_stream_at(i as int);
            if old(self).contains(id) {
                let k = choose|k: int| 0 <= k < old(self).table.streams@.len() && (#[trigger] old(self).table.streams@[k]).id == id;
                old(self).table.lemma_stream_at(k);
            }
        }
        (id, action)
    }

    /// What the forwarding of a verdict to flow `id` leaves as it was: the table's keys,
    /// its settings and every other flow.
    pub open spec fn forwarded(&self, other: &Self, id: StreamID) -> bool {
        &&& other.wf()
        &&& other.registry == self.registry
        &&& other.table.last_cleanup == self.table.last_cleanup
        &&& forall|x: StreamID| #[trigger] other.contains(x) <==> self.contains(x)
        &&& forall|x: StreamID| x != id && self.contains(x) ==> #[trigger] other.stream(x) == self.stream(x)
        &&& self.contains(id) ==> self.stream(id).same_flow(&other.stream(id))
        &&& !self.contains(id) ==> other.table.streams@ == self.table.streams@
    }

    /// Hands the classifier's answer to `Detect` to flow `id`.
    pub fn on_detect(&mut self, id: StreamID, proto: Proto) -> (r: StreamAction)
        requires
            old(self).wf(),
        ensures
            old(self).forwarded(&*final(self), id),
            !old(self).contains(id) ==> r == StreamAction::Nothing,
            old(self).contains(id) ==> {
                let (d, v) = after_detect(old(self).stream(id).detection, proto);
                &&& final(self).stream(id).detection == d
                &&& old(self).stream(id).verdict_effect(&final(self).stream(id), old(self).registry.view(), v)
                &&& r == if v == Verdict::GiveUp {
                    StreamAction::GiveUp
                } else {
                    StreamAction::Nothing
                }
            },
    {
        match self.table.find(id) {
            None => StreamAction::Nothing,
            Some(i) => {
                let ghost before = self.table;
                let r = self.table.streams[i].on_detect(proto, &self.registry);
                proof {
                    FlowTable::lemma_updated(&before, &self.table, i as int);
                }
                r
            },
        }
    }

    /// Hands the classifier's answer to `GiveUp` to flow `id`.
    pub fn on_give_up(&mut self, id: StreamID, proto: Proto) -> (r: StreamAction)
        requires
            old(self).wf(),
        ensures
            old(self).forwarded(&*final(self), id),
            !old(self).contains(id) ==> r == StreamAction::Nothing,
            old(self).contains(id) ==> {
                let (d, v) = after_give_up(old(self).stream(id).detection, proto);
                let s = old(self).stream(id);
                &&& final(self).stream(id).detection == d
                &&& s.verdict_effect(&final(self).stream(id), old(self).registry.view(), v)
                &&& r == if v == Verdict::Guess {
                    StreamAction::Guess {
                        client_ip: s.client,
                        client_port: s.client_port,
                        server_ip: s.server,
                        server_port: s.server_port,
                    }
                } else {
                    StreamAction::Nothing
                }
            },
    {
        match self.table.find(id) {
            None => StreamAction::Nothing,
            Some(i) => {
                let ghost before = self.table;
                let r = self.table.streams[i].on_give_up(proto, &self.registry);
                proof {
                    FlowTable::lemma_updated(&before, &self.table, i as int);
                }
                r
            },
        }
    }

    /// Hands the classifier's answer to `Guess` to flow `id`.
    pub fn on_guess(&mut self, id: StreamID, proto: Proto) -> (r: StreamAction)
        requires
            old(self).wf(),
        ensures
            old(self).forwarded(&*final(self), id),
            r == StreamAction::Nothing,
            old(self).contains(id) ==> {
                let (d, v) = after_guess(old(self).stream(id).detection, proto);
                &&& final(self).stream(id).detection == d
                &&& old(self).stream(id).verdict_effect(&final(self).stream(id), old(self).registry.view(), v)
            },
    {
        match self.table.find(id) {
            None => StreamAction::Nothing,
            Some(i) => {
                let ghost before = self.table;
                let r = self.table.streams[i].on_guess(proto, &self.registry);
                proof {
                    FlowTable::lemma_updated(&before, &self.table, i as int);
                }
                r
            },
        }
    }

    /// Drops the flows idle for a full period, when a period has passed since the last
    /// sweep. Returns the dropped flows; their owner is to `close` them.
    pub fn cleanup_stream(&mut self, now: u64) -> (r: Vec<UDPStream<D>>)
        requires
            old(self).wf(),
        ensures
            old(self).table.swept(&final(self).table, now),
            final(self).registry == old(self).registry,
            forall|k: int| 0 <= k < r@.len() ==> (#[trigger] r@[k]).wf() && !keeps(r@[k].last_timestamp, now),
    {
        self.table.cleanup_stream(now)
    }
}

} // verus!
