//! The Ethernet II frame header and its dissector.

use vstd::prelude::*;
use vstd::slice::slice_index_get;

use crate::error::ParseError;
use crate::pcap::byte_order::ByteOrder;
use crate::read_bytes::spec_u16;

verus! {

/// The EtherType value that selects the IPv4 dissector.
pub const ETHER_TYPE_IPV4: u16 = 0x0800;

/// The EtherType value for IPv6, recognized but not dissected.
pub const ETHER_TYPE_IPV6: u16 = 0x86DD;

/// An Ethernet header is always 14 bytes long.
pub const ETHERNET_HEADER_SIZE: usize = 14;

/// A 6-byte Ethernet hardware address.
#[derive(Debug, Clone, Copy, PartialEq, Eq)]
pub struct MacAddress {
    pub bytes: [u8; 6],
}

impl View for MacAddress {
    type V = Seq<u8>;

    open spec fn view(&self) -> Seq<u8> {
        self.bytes@
    }
}

impl MacAddress {
    pub fn new(bytes: [u8; 6]) -> (r: MacAddress)
        ensures
            r.bytes == bytes,
    {
        MacAddress { bytes }
    }
}

/// The next-layer discriminant of an Ethernet frame: IPv4 continues the
/// dissection cascade, anything else stops it, with the raw value of an
/// unrecognized EtherType preserved.
#[derive(Debug, Clone, Copy, PartialEq, Eq)]
pub enum EtherType {
    IPv4,
    IPv6,
    Unsupported(u16),
}

/// The mathematical content of a dissected Ethernet header.
#[verifier::ext_equal]
pub ghost struct HeaderModel {
    pub destination_mac: Seq<u8>,
    pub source_mac: Seq<u8>,
    pub ether_type: EtherType,
}

/// An Ethernet II frame header: destination and source hardware
/// addresses followed by the EtherType discriminant.
#[derive(Debug, Clone, Copy, PartialEq, Eq)]
pub struct Header {
    pub destination_mac: MacAddress,
    pub source_mac: MacAddress,
    pub ether_type: EtherType,
}

impl View for Header {
    type V = HeaderModel;

    open spec fn view(&self) -> HeaderModel {
        HeaderModel {
            destination_mac: self.destination_mac@,
            source_mac: self.source_mac@,
            ether_type: self.ether_type,
        }
    }
}

impl Header {
    /// The on-wire size of an Ethernet header.
    pub fn size() -> (r: usize)
        ensures
            r == ETHERNET_HEADER_SIZE,
    {
        ETHERNET_HEADER_SIZE
    }
}

/// The EtherType variant a 16-bit discriminant selects.
pub open spec fn spec_ether_type_of(value: u16) -> EtherType {
    if value == ETHER_TYPE_IPV4 {
        EtherType::IPv4
    } else if value == ETHER_TYPE_IPV6 {
        EtherType::IPv6
    } else {
        EtherType::Unsupported(value)
    }
}

/// What dissecting an Ethernet header from `b` yields: 14 bytes are
/// required; the destination address is bytes 0..6, the source address
/// bytes 6..12, and the EtherType bytes 12..14 read in the capture's byte
/// order.
pub open spec fn spec_parse(b: Seq<u8>, byte_order: ByteOrder) -> Result<
    HeaderModel,
    ParseError,
> {
    if b.len() < 14 {
        Err(ParseError::InvalidData)
    } else {
        Ok(
            HeaderModel {
                destination_mac: b.subrange(0, 6),
                source_mac: b.subrange(6, 12),
                ether_type: spec_ether_type_of(spec_u16(b.subrange(12, 14), byte_order)),
            },
        )
    }
}

/// Dissect the 14-byte Ethernet header at the front of `data`, reading
/// the EtherType in the capture's byte order.
pub fn parse(data: &[u8], byte_order: &ByteOrder) -> (r: Result<Header, ParseError>)
    ensures
        r matches Ok(h) ==> (spec_parse(data@, *byte_order) matches Ok(m) && h@ == m),
        r matches Err(e) ==> (spec_parse(data@, *byte_order) matches Err(e2) && e == e2),
{
    if data.len() < 14 {
        return Err(ParseError::InvalidData);
    }
    let destination_mac = MacAddress::new(
        [
            *slice_index_get(data, 0),
            *slice_index_get(data, 1),
            *slice_index_get(data, 2),
            *slice_index_get(data, 3),
            *slice_index_get(data, 4),
            *slice_index_get(data, 5),
        ],
    );
    let source_mac = MacAddress::new(
        [
            *slice_index_get(data, 6),
            *slice_index_get(data, 7),
            *slice_index_get(data, 8),
            *slice_index_get(data, 9),
            *slice_index_get(data, 10),
            *slice_index_get(data, 11),
        ],
    );
    let b12 = *slice_index_get(data, 12);
    let b13 = *slice_index_get(data, 13);
    let ether_type_value: u16 = match byte_order {
        ByteOrder::BigEndian => (b12 as u16) * 0x100 + (b13 as u16),
        ByteOrder::LittleEndian => (b13 as u16) * 0x100 + (b12 as u16),
    };
    let ether_type = if ether_type_value == ETHER_TYPE_IPV4 {
        EtherType::IPv4
    } else if ether_type_value == ETHER_TYPE_IPV6 {
        EtherType::IPv6
    } else {
        EtherType::Unsupported(ether_type_value)
    };
    let header = Header { destination_mac, source_mac, ether_type };
    proof {
        assert(header.destination_mac@ =~= data@.subrange(0, 6));
        assert(header.source_mac@ =~= data@.subrange(6, 12));
        assert(data@.subrange(12, 14)[0] == b12 && data@.subrange(12, 14)[1] == b13);
        assert(header@ =~= spec_parse(data@, *byte_order)->Ok_0);
    }
    Ok(header)
}

} // verus!
