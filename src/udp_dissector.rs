use vstd::prelude::*;

use crate::dissector::DissectorKind;
use crate::packet::Packet;

verus! {

/// A content inspector of UDP datagrams. An `Err` asks not to be called again for this
/// flow.
pub trait UDPDissector: Sized {
    fn create(kind: DissectorKind) -> Self;

    fn on_client_packet(&mut self, packet: &Packet) -> Result<(), ()>;

    fn on_server_packet(&mut self, packet: &Packet) -> Result<(), ()>;
}

/// The inspector bound when no other is registered: it accepts nothing.
pub struct DefaultDissector {}

impl DefaultDissector {
    pub fn default() -> DefaultDissector {
        DefaultDissector {  }
    }
}

impl UDPDissector for DefaultDissector {
    fn create(kind: DissectorKind) -> DefaultDissector {
        DefaultDissector {  }
    }

    fn on_client_packet(&mut self, packet: &Packet) -> Result<(), ()> {
        Err(())
    }

    fn on_server_packet(&mut self, packet: &Packet) -> Result<(), ()> {
        Err(())
    }
}

/// The DNS inspector: it takes queries and stops at the first answer.
pub struct DNSDissector {}

impl DNSDissector {
    pub fn new() -> DNSDissector {
        DNSDissector {  }
    }
}

impl UDPDissector for DNSDissector {
    fn create(kind: DissectorKind) -> DNSDissector {
        DNSDissector {  }
    }

    fn on_client_packet(&mut self, packet: &Packet) -> Result<(), ()> {
        Ok(())
    }

    fn on_server_packet(&mut self, packet: &Packet) -> Result<(), ()> {
        Err(())
    }
}

} // verus!
