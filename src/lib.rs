//! Flow tracking for captured network traffic: frame decoding, direction-independent flow
//! keys, worker selection, per-flow protocol detection with give-up and guess fallbacks,
//! in-order TCP reassembly, content-inspector binding and idle eviction.
//!
//! The classifier engine and the content inspectors are collaborators: a flow asks for a
//! classifier verdict through a `StreamAction` and is handed the answer, and it feeds
//! inspectors through the `TCPDissector` and `UDPDissector` traits.
use vstd::prelude::*;

pub mod config;
pub mod detector;
pub mod dispatcher;
pub mod dissector;
pub mod ethernet;
pub mod flow_table;
pub mod inet;
pub mod ip;
pub mod packet;
pub mod stream_state;
pub mod tcp;
pub mod tcp_flow;
pub mod tcp_stream;
pub mod tcp_tracker;
pub mod udp_dissector;
pub mod udp_stream;
pub mod udp_tracker;

verus! {

} // verus!
