//! A captured record and its assembly from header, payload and dissected
//! protocol stack.

use vstd::prelude::*;

use crate::error::ParseError;
use crate::pcap::global_header::GlobalHeader;
use crate::pcap::packet_header::PacketHeader;
use crate::protocol::parse::parse;
use crate::protocol::{spec_protocols_view, Protocol, ProtocolModel};

/// The global-header decoder.
pub mod global_header;
/// The record-header decoder and the record-body reader.
pub mod header;

verus! {

/// The mathematical content of one decoded record.
#[verifier::ext_equal]
pub ghost struct PacketModel {
    pub header: PacketHeader,
    pub data: Seq<u8>,
    pub protocols: Seq<ProtocolModel>,
}

/// One captured record: its header, its raw payload of exactly
/// `header.captured_bytes` bytes, and the protocol headers dissected
/// from that payload.  Immutable once constructed.
#[derive(Debug, Clone, PartialEq, Eq)]
pub struct Packet {
    pub header: PacketHeader,
    pub data: Vec<u8>,
    pub protocols: Vec<Protocol>,
}

impl View for Packet {
    type V = PacketModel;

    open spec fn view(&self) -> PacketModel {
        PacketModel {
            header: self.header,
            data: self.data@,
            protocols: spec_protocols_view(self.protocols@),
        }
    }
}

/// What assembling a record from its decoded header and raw payload
/// yields: the record together with the payload's dissected protocol
/// stack, or the dissection cascade's hard failure for an unsupported
/// link type.
pub open spec fn spec_new_packet(
    header: PacketHeader,
    data: Seq<u8>,
    global_header: GlobalHeader,
) -> Result<PacketModel, ParseError> {
    match crate::protocol::parse::spec_parse(data, global_header) {
        Ok(protocols) => Ok(PacketModel { header, data, protocols }),
        Err(e) => Err(e),
    }
}

impl Packet {
    /// Assemble a record by dissecting its payload according to the
    /// capture's link type.
    pub fn new(header: PacketHeader, data: Vec<u8>, global_header: &GlobalHeader) -> (r: Result<
        Packet,
        ParseError,
    >)
        ensures
            r matches Ok(p) ==> (spec_new_packet(header, data@, *global_header) matches Ok(m)
                && p@ == m),
            r matches Err(e) ==> (spec_new_packet(header, data@, *global_header) matches Err(e2)
                && e == e2),
    {
        let protocols = match parse(data.as_slice(), global_header) {
            Ok(ps) => ps,
            Err(e) => {
                return Err(e);
            },
        };
        let packet = Packet { header, data, protocols };
        proof {
            assert(packet@ =~= spec_new_packet(header, packet.data@, *global_header)->Ok_0);
        }
        Ok(packet)
    }
}

} // verus!
