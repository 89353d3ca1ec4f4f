//! The protocol layers the dissection cascade can produce.

use vstd::prelude::*;

/// The Ethernet header and its dissector.
pub mod ethernet;
/// The IPv4 header and its dissector.
pub mod ipv4;
/// The dissection cascade.
pub mod parse;
/// The TCP header shape, reserved for a transport-layer stage.
pub mod tcp;

verus! {

/// One dissected protocol header: the link layer or the network layer.
#[derive(Debug, Clone, PartialEq, Eq)]
pub enum Protocol {
    Ethernet(ethernet::Header),
    IPv4(ipv4::Header),
}

/// The mathematical content of one dissected protocol header.
#[verifier::ext_equal]
pub ghost enum ProtocolModel {
    Ethernet(ethernet::HeaderModel),
    IPv4(ipv4::HeaderModel),
}

impl View for Protocol {
    type V = ProtocolModel;

    open spec fn view(&self) -> ProtocolModel {
        match self {
            Protocol::Ethernet(h) => ProtocolModel::Ethernet(h@),
            Protocol::IPv4(h) => ProtocolModel::IPv4(h@),
        }
    }
}

/// The models of a sequence of dissected headers, in order.
pub open spec fn spec_protocols_view(s: Seq<Protocol>) -> Seq<ProtocolModel> {
    s.map_values(|p: Protocol| p@)
}

} // verus!
