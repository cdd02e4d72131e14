use vstd::prelude::*;

use std::collections::HashMap;

use crate::config::Configure;
use crate::detector::Proto;
use crate::udp_dissector;

verus! {

broadcast use vstd::std_specs::hash::group_hash_axioms;

/// Which content inspector a detected protocol is handed to.
#[derive(Clone, Copy, Debug, PartialEq, Eq, Structural)]
pub enum DissectorKind {
    /// reports failure on every call, so the flow is skipped at once
    Default,
    Http,
    Dns,
}

/// A content inspector of reassembled TCP payload. An `Err` asks not to be called again
/// for this flow.
pub trait TCPDissector: Sized {
    fn create(kind: DissectorKind) -> Self;

    fn on_client_data(&mut self, data: &[u8]) -> Result<(), ()>;

    fn on_server_data(&mut self, data: &[u8]) -> Result<(), ()>;
}

/// The inspector bound when no other is registered: it accepts nothing.
pub struct DefaultDissector {}

impl DefaultDissector {
    pub fn new() -> DefaultDissector {
        DefaultDissector {  }
    }
}

impl TCPDissector for DefaultDissector {
    fn create(kind: DissectorKind) -> DefaultDissector {
        DefaultDissector {  }
    }

    fn on_client_data(&mut self, data: &[u8]) -> Result<(), ()> {
        Err(())
    }

    fn on_server_data(&mut self, data: &[u8]) -> Result<(), ()> {
        Err(())
    }
}

/// The inspector chosen for a detected protocol: the one registered under its application
/// identifier, else the one under its master identifier, else the default one.
pub open spec fn dissector_for(m: Map<u16, DissectorKind>, proto: Proto) -> DissectorKind {
    if m.contains_key(proto.app_id) {
        m[proto.app_id]
    } else if m.contains_key(proto.master_id) {
        m[proto.master_id]
    } else {
        DissectorKind::Default
    }
}

fn lookup(protocol: &HashMap<u16, DissectorKind>, proto: &Proto) -> (r: DissectorKind)
    ensures
        r == dissector_for(protocol@, *proto),
{
    match protocol.get(&proto.app_id) {
        Some(kind) => *kind,
        None => match protocol.get(&proto.master_id) {
            Some(kind) => *kind,
            None => DissectorKind::Default,
        },
    }
}

/// The protocol identifiers that the HTTP inspector owns.
pub open spec fn is_http_id(id: u16) -> bool {
    id == Proto::HTTP || id == Proto::HTTP_ACTIVESYNC || id == Proto::HTTP_CONNECT || id
        == Proto::HTTP_DOWNLOAD || id == Proto::HTTP_PROXY
}

/// Maps detected protocol identifiers to TCP content inspectors.
pub struct TCPDissectorAllocator {
    pub protocol: HashMap<u16, DissectorKind>,
}

impl TCPDissectorAllocator {
    pub open spec fn view(&self) -> Map<u16, DissectorKind> {
        self.protocol@
    }

    /// Registers the HTTP inspector under each of its identifiers when "http" is enabled.
    pub fn new(conf: &Configure) -> (r: TCPDissectorAllocator)
        ensures
            forall|id: u16| #[trigger]
                r.view().contains_key(id) <==> conf.enables("http"@) && is_http_id(id),
            forall|id: u16| #[trigger] r.view().contains_key(id) ==> r.view()[id] == DissectorKind::Http,
    {
        let mut protocol: HashMap<u16, DissectorKind> = HashMap::new();
        if conf.is_dissector_enable("http") {
            protocol.insert(Proto::HTTP, DissectorKind::Http);
            protocol.insert(Proto::HTTP_ACTIVESYNC, DissectorKind::Http);
            protocol.insert(Proto::HTTP_CONNECT, DissectorKind::Http);
            protocol.insert(Proto::HTTP_DOWNLOAD, DissectorKind::Http);
            protocol.insert(Proto::HTTP_PROXY, DissectorKind::Http);
        }
        TCPDissectorAllocator { protocol }
    }

    /// The inspector a flow has before any protocol is known.
    pub fn default() -> DefaultDissector {
        DefaultDissector::new()
    }

    pub fn alloc_dissector(&self, proto: &Proto) -> (r: DissectorKind)
        ensures
            r == dissector_for(self.view(), *proto),
    {
        lookup(&self.protocol, proto)
    }
}

/// Maps detected protocol identifiers to UDP content inspectors.
pub struct UDPDissectorAllocator {
    pub protocol: HashMap<u16, DissectorKind>,
}

impl UDPDissectorAllocator {
    pub open spec fn view(&self) -> Map<u16, DissectorKind> {
        self.protocol@
    }

    /// Registers the DNS inspector when "dns" is enabled.
    pub fn new(conf: &Configure) -> (r: UDPDissectorAllocator)
        ensures
            forall|id: u16| #[trigger]
                r.view().contains_key(id) <==> conf.enables("dns"@) && id == Proto::DNS,
            forall|id: u16| #[trigger] r.view().contains_key(id) ==> r.view()[id] == DissectorKind::Dns,
    {
        let mut protocol: HashMap<u16, DissectorKind> = HashMap::new();
        if conf.is_dissector_enable("dns") {
            protocol.insert(Proto::DNS, DissectorKind::Dns);
        }
        UDPDissectorAllocator { protocol }
    }

    /// The inspector a flow has before any protocol is known.
    pub fn default() -> udp_dissector::DefaultDissector {
        udp_dissector::DefaultDissector::default()
    }

    pub fn alloc_dissector(&self, proto: &Proto) -> (r: DissectorKind)
        ensures
            r == dissector_for(self.view(), *proto),
    {
        lookup(&self.protocol, proto)
    }
}

} // verus!
