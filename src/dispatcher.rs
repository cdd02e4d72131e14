use vstd::prelude::*;

use crate::ip::{stream_id_of, StreamID};
use crate::packet::{Packet, BAD_PACKET, STATE_TCP, STATE_UDP};

verus! {

/// The four fields of a flow added with 32-bit wraparound.
pub open spec fn flow_hash(ip_a: u32, ip_b: u32, port_a: u16, port_b: u16) -> int {
    (ip_a + port_a + ip_b + port_b) % 0x1_0000_0000
}

/// The worker, out of `n`, that handles packets from `(ip_a, port_a)` to `(ip_b, port_b)`.
pub open spec fn worker_of(ip_a: u32, ip_b: u32, port_a: u16, port_b: u16, n: u8) -> int {
    flow_hash(ip_a, ip_b, port_a, port_b) % (n as int)
}

/// Picks the worker for a packet: the hash of its addresses and ports modulo the number of
/// workers.
pub fn dispatch_index(packet: &Packet, n_threads: u8) -> (r: usize)
    requires
        n_threads > 0,
    ensures
        r < n_threads,
        r == worker_of(packet.src_ip, packet.dst_ip, packet.src_port, packet.dst_port, n_threads),
{
    let sum = packet.src_ip as u64 + packet.src_port as u64 + packet.dst_ip as u64 + packet.dst_port as u64;
    let hash = sum % 0x1_0000_0000;
    (hash % (n_threads as u64)) as usize
}

impl StreamID {
    /// The worker, out of `n`, that owns the flow: the hash of the key's fields.
    pub open spec fn worker(&self, n: u8) -> int {
        worker_of(self.min_ip, self.max_ip, self.min_port, self.max_port, n)
    }

    pub fn worker_index(&self, n_threads: u8) -> (r: usize)
        requires
            n_threads > 0,
        ensures
            r < n_threads,
            r == self.worker(n_threads),
    {
        let sum = self.min_ip as u64 + self.min_port as u64 + self.max_ip as u64 + self.max_port as u64;
        let hash = sum % 0x1_0000_0000;
        (hash % (n_threads as u64)) as usize
    }
}

/// Affinity: both directions of a flow go to the one worker that owns its key, for any
/// fixed number of workers.
pub proof fn lemma_dispatch_affinity(src_ip: u32, dst_ip: u32, src_port: u16, dst_port: u16, n: u8)
    requires
        n > 0,
    ensures
        worker_of(src_ip, dst_ip, src_port, dst_port, n) == worker_of(dst_ip, src_ip, dst_port, src_port, n),
        worker_of(src_ip, dst_ip, src_port, dst_port, n) == stream_id_of(src_ip, dst_ip, src_port, dst_port).worker(n),
        0 <= worker_of(src_ip, dst_ip, src_port, dst_port, n) < n,
{
}

/// Which flow table a decoded packet belongs to; a malformed one goes to none.
#[derive(Clone, Copy, Debug, PartialEq, Eq, Structural)]
pub enum Route {
    Tcp,
    Udp,
    Ignore,
}

pub fn route(packet: &Packet) -> (r: Route)
    ensures
        r == if packet.state & BAD_PACKET != 0 {
            Route::Ignore
        } else if packet.state & STATE_TCP != 0 {
            Route::Tcp
        } else if packet.state & STATE_UDP != 0 {
            Route::Udp
        } else {
            Route::Ignore
        },
{
    if packet.state & BAD_PACKET != 0 {
        Route::Ignore
    } else if packet.state & STATE_TCP != 0 {
        Route::Tcp
    } else if packet.state & STATE_UDP != 0 {
        Route::Udp
    } else {
        Route::Ignore
    }
}

} // verus!
