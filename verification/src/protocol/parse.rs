//! The protocol-dissection cascade.
//!
//! Dissection is a best-effort forward chain: each stage either appends
//! one header and consults a discriminant to pick the next stage, or
//! stops, returning the headers accumulated so far.  A malformed or
//! exotic frame therefore never aborts the record that carries it.

use vstd::prelude::*;
use vstd::slice::slice_subrange;

use crate::error::ParseError;
use crate::pcap::byte_order::ByteOrder;
use crate::pcap::global_header::GlobalHeader;
use crate::pcap::network::LinkType;
use crate::protocol::ethernet::{self, EtherType};
use crate::protocol::ipv4;
use crate::protocol::{spec_protocols_view, Protocol, ProtocolModel};

verus! {

/// The protocol stack dissected from an Ethernet frame: nothing if the
/// frame is shorter than an Ethernet header; the Ethernet header alone if
/// its EtherType selects no supported next stage or the IPv4 stage fails;
/// otherwise the Ethernet header followed by the IPv4 header.
pub open spec fn spec_ethernet_stack(b: Seq<u8>, byte_order: ByteOrder) -> Seq<ProtocolModel> {
    match ethernet::spec_parse(b, byte_order) {
        Err(_) => Seq::<ProtocolModel>::empty(),
        Ok(eh) => if eh.ether_type is IPv4 {
            match ipv4::spec_parse(b.skip(14)) {
                Err(_) => seq![ProtocolModel::Ethernet(eh)],
                Ok(ih) => seq![ProtocolModel::Ethernet(eh), ProtocolModel::IPv4(ih)],
            }
        } else {
            seq![ProtocolModel::Ethernet(eh)]
        },
    }
}

/// What dissecting a record payload yields: the Ethernet stack when the
/// capture's link type is Ethernet, and an unsupported-link-type failure
/// for any other link type, whose code is preserved in the error.
pub open spec fn spec_parse(b: Seq<u8>, global_header: GlobalHeader) -> Result<
    Seq<ProtocolModel>,
    ParseError,
> {
    match global_header.network {
        LinkType::Ethernet => Ok(spec_ethernet_stack(b, global_header.byte_order)),
        LinkType::Unsupported(code) => Err(ParseError::UnsupportedLinkType(code)),
    }
}

/// Dissect an Ethernet frame and, when its EtherType selects it, the
/// IPv4 header behind it, keeping whatever was decoded before the first
/// failure.
fn parse_ethernet(data: &[u8], byte_order: &ByteOrder) -> (protocols: Vec<Protocol>)
    ensures
        spec_protocols_view(protocols@) == spec_ethernet_stack(data@, *byte_order),
{
    let ethernet_header = match ethernet::parse(data, byte_order) {
        Ok(header) => header,
        Err(_) => {
            let empty: Vec<Protocol> = Vec::new();
            proof {
                assert(spec_protocols_view(empty@) =~= spec_ethernet_stack(data@, *byte_order));
            }
            return empty;
        },
    };

    let mut protocols: Vec<Protocol> = Vec::new();
    protocols.push(Protocol::Ethernet(ethernet_header));

    match ethernet_header.ether_type {
        EtherType::IPv4 => {
            let tail = slice_subrange(data, ethernet::Header::size(), data.len());
            proof {
                assert(tail@ =~= data@.skip(14));
            }
            match ipv4::parse(tail) {
                Ok(ip_header) => {
                    protocols.push(Protocol::IPv4(ip_header));
                },
                Err(_) => {},
            }
        },
        _ => {},
    }
    proof {
        assert(spec_protocols_view(protocols@) =~= spec_ethernet_stack(data@, *byte_order));
    }
    protocols
}

/// Dissect a record payload according to the capture's link type.
///
/// Only Ethernet framing has a dissector wired to it; any other link type
/// fails with its code preserved, a hard stop for the whole capture since
/// the global header fixes the link type of every record.
pub fn parse(data: &[u8], global_header: &GlobalHeader) -> (r: Result<Vec<Protocol>, ParseError>)
    ensures
        r matches Ok(v) ==> (spec_parse(data@, *global_header) matches Ok(m) && spec_protocols_view(
            v@,
        ) == m),
        r matches Err(e) ==> (spec_parse(data@, *global_header) matches Err(e2) && e == e2),
{
    match global_header.network {
        LinkType::Ethernet => Ok(parse_ethernet(data, &global_header.byte_order)),
        LinkType::Unsupported(code) => Err(ParseError::UnsupportedLinkType(code)),
    }
}

/// Dissection is deterministic and idempotent: the same payload bytes
/// under the same global header always yield the same protocol-header
/// sequence.  The exec dissector's contract pins its result to
/// `spec_parse`, so two runs over one record agree exactly.
pub proof fn lemma_dissection_deterministic(
    b1: Seq<u8>,
    b2: Seq<u8>,
    gh1: GlobalHeader,
    gh2: GlobalHeader,
)
    requires
        b1 == b2,
        gh1 == gh2,
    ensures
        spec_parse(b1, gh1) == spec_parse(b2, gh2),
{
}

/// An Ethernet payload of fewer than 14 bytes dissects to zero protocol
/// headers: the stage stops before appending anything, and the record
/// itself still decodes instead of failing the capture.
pub proof fn lemma_short_ethernet_payload_dissects_empty(b: Seq<u8>, global_header: GlobalHeader)
    requires
        global_header.network is Ethernet,
        b.len() < 14,
    ensures
        spec_parse(b, global_header) == Ok::<Seq<ProtocolModel>, ParseError>(
            Seq::<ProtocolModel>::empty(),
        ),
{
}

/// An Ethernet payload whose EtherType selects IPv4 but whose IPv4
/// header length is not the minimum five words yields exactly one
/// protocol header: the Ethernet header alone.
pub proof fn lemma_ipv4_bad_ihl_keeps_ethernet_only(b: Seq<u8>, global_header: GlobalHeader)
    requires
        global_header.network is Ethernet,
        b.len() >= 34,
        crate::read_bytes::spec_u16(b.subrange(12, 14), global_header.byte_order)
            == ethernet::ETHER_TYPE_IPV4,
        b[14] % 16 != 5,
    ensures
        spec_parse(b, global_header) matches Ok(stack) && stack.len() == 1 && stack[0] is Ethernet,
{
    assert(b.skip(14).len() >= 20);
    assert(b.skip(14)[0] == b[14]);
}

} // verus!
