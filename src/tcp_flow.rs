use vstd::prelude::*;

use crate::packet::{lemma_decode_payload_bounds, Packet};

verus! {

/// Half the sequence space: the wrap threshold of serial number arithmetic (RFC 1982).
pub const SEQ_NUMBER_DIFF: u32 = 2147483648;

/// How far `b` lies ahead of `a` on the 32-bit sequence circle.
pub open spec fn seq_distance(a: u32, b: u32) -> int {
    (b as int - a as int) % 0x1_0000_0000
}

/// Serial comparison: 0 when equal, -1 when `a` comes before `b` (b lies less than half
/// the circle ahead), 1 otherwise.
pub open spec fn seq_order(a: u32, b: u32) -> i8 {
    if a == b {
        0
    } else if 0 < seq_distance(a, b) < SEQ_NUMBER_DIFF {
        -1i8
    } else {
        1
    }
}

/// `a + n` on the sequence circle.
pub open spec fn seq_add(a: u32, n: int) -> u32 {
    ((a as int + n) % 0x1_0000_0000) as u32
}

pub fn seq_compare(seq1: u32, seq2: u32) -> (r: i8)
    ensures
        r == seq_order(seq1, seq2),
{
    if seq1 == seq2 {
        return 0;
    }
    if seq1 < seq2 {
        if seq2 - seq1 < SEQ_NUMBER_DIFF {
            -1
        } else {
            1
        }
    } else {
        if seq1 - seq2 > SEQ_NUMBER_DIFF {
            -1
        } else {
            1
        }
    }
}

/// Whether a segment of `len` bytes at `seq` is handed on when `next` is expected: it must
/// carry data, end after `next`, and start exactly at `next`.
pub open spec fn segment_accepted(next: u32, seq: u32, len: nat) -> bool {
    len > 0 && seq_order(seq_add(seq, len as int), next) > 0 && seq == next
}

/// In-order delivery of one direction of a TCP connection.
#[derive(Clone, Copy, Debug, PartialEq, Eq, Structural)]
pub struct TcpFlow {
    pub next_seq: u32,
}

impl TcpFlow {
    /// Starts after the segment `packet` carries: a SYN consumes one sequence number.
    pub fn new(packet: &Packet) -> (r: TcpFlow)
        ensures
            r.next_seq == seq_add(packet.tcp_seq, 1),
    {
        TcpFlow { next_seq: packet.tcp_seq.wrapping_add(1) }
    }

    /// Takes the payload of a decoded TCP packet.
    pub fn handle_packet(&mut self, packet: &Packet) -> (r: bool)
        requires
            packet.wf(),
        ensures
            r == segment_accepted(old(self).next_seq, packet.tcp_seq, packet.payload_len as nat),
            final(self).next_seq == if r {
                seq_add(packet.tcp_seq, packet.payload_len as int)
            } else {
                old(self).next_seq
            },
    {
        proof {
            lemma_decode_payload_bounds(packet.data@);
        }
        self.handle_segment(packet.tcp_seq, packet.payload_len as u32)
    }

    /// Takes a segment of `len` bytes starting at `seq`; returns whether it is the next
    /// piece of the stream, in which case the expected sequence moves past it.
    pub fn handle_segment(&mut self, seq: u32, len: u32) -> (r: bool)
        ensures
            r == segment_accepted(old(self).next_seq, seq, len as nat),
            final(self).next_seq == if r {
                seq_add(seq, len as int)
            } else {
                old(self).next_seq
            },
    {
        if len == 0 {
            return false;
        }
        let end = seq.wrapping_add(len);
        if seq_compare(end, self.next_seq) <= 0 {
            return false;
        }
        if seq == self.next_seq {
            self.next_seq = end;
            true
        } else {
            false
        }
    }
}

/// The segments, each `(start, length)`, that a reassembler expecting `next` lets through
/// when they arrive in the given order, and the sequence it expects afterwards.
pub open spec fn reassemble(next: u32, segs: Seq<(u32, nat)>) -> (u32, Seq<(u32, nat)>)
    decreases segs.len(),
{
    if segs.len() == 0 {
        (next, Seq::empty())
    } else {
        let (n, out) = reassemble(next, segs.drop_last());
        let (s, l) = segs.last();
        if segment_accepted(n, s, l) {
            (seq_add(s, l as int), out.push((s, l)))
        } else {
            (n, out)
        }
    }
}

/// In-order delivery: whatever the arrival order, the segments let through are non-empty,
/// the first starts at the initially expected sequence and each next one starts exactly
/// where the one before ended, so no byte is delivered twice or skipped; the expected
/// sequence is the end of the last one.
pub proof fn lemma_reassembly_contiguous(next: u32, segs: Seq<(u32, nat)>)
    ensures
        forall|k: int| 0 <= k < reassemble(next, segs).1.len() ==> (#[trigger] reassemble(next, segs).1[k]).1 > 0,
        reassemble(next, segs).1.len() > 0 ==> reassemble(next, segs).1[0].0 == next,
        forall|k: int| 0 < k < reassemble(next, segs).1.len() ==>
            (#[trigger] reassemble(next, segs).1[k]).0 == seq_add(reassemble(next, segs).1[k - 1].0, reassemble(next, segs).1[k - 1].1 as int),
        reassemble(next, segs).0 == if reassemble(next, segs).1.len() == 0 {
            next
        } else {
            seq_add(reassemble(next, segs).1.last().0, reassemble(next, segs).1.last().1 as int)
        },
    decreases segs.len(),
{
    if segs.len() > 0 {
        lemma_reassembly_contiguous(next, segs.drop_last());
    }
}

} // verus!
