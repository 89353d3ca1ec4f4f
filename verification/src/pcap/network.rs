//! The link-layer framing of every record in a capture.

use vstd::prelude::*;

use crate::error::ParseError;
use crate::pcap::byte_order::ByteOrder;
use crate::read_bytes::{read_u32_with_byte_order, spec_u32, Reader};

verus! {

/// The link-type code registered for Ethernet framing.
pub const LINK_TYPE_ETHERNET: u32 = 1;

/// The link-layer framing of the first protocol layer in every record's
/// payload.
///
/// An open enumeration: the global header must always decode, so a code
/// without a dissector is preserved in `Unsupported`, never rejected.
#[derive(Debug, Clone, Copy, PartialEq, Eq)]
pub enum LinkType {
    Ethernet,
    Unsupported(u32),
}

impl LinkType {
    /// The raw link-type code this variant stands for.
    pub open spec fn spec_code(self) -> u32 {
        match self {
            LinkType::Ethernet => LINK_TYPE_ETHERNET,
            LinkType::Unsupported(code) => code,
        }
    }

    /// The raw link-type code this variant stands for.
    pub fn code(&self) -> (r: u32)
        ensures
            r == self.spec_code(),
    {
        match self {
            LinkType::Ethernet => LINK_TYPE_ETHERNET,
            LinkType::Unsupported(code) => *code,
        }
    }
}

/// The link type a code selects: the Ethernet code maps to its dissector,
/// every other code is preserved as unsupported.
pub open spec fn spec_link_type_of(code: u32) -> LinkType {
    if code == LINK_TYPE_ETHERNET {
        LinkType::Ethernet
    } else {
        LinkType::Unsupported(code)
    }
}

/// Read and consume the 4-byte link-type field.
pub fn parse_network(reader: &mut Reader, byte_order: &ByteOrder) -> (r: Result<
    LinkType,
    ParseError,
>)
    requires
        old(reader).wf(),
    ensures
        final(reader).wf(),
        old(reader).remaining().len() >= 4 ==> {
            &&& r matches Ok(n)
            &&& n == spec_link_type_of(spec_u32(old(reader).remaining().subrange(0, 4), *byte_order))
            &&& final(reader).remaining() == old(reader).remaining().skip(4)
        },
        old(reader).remaining().len() < 4 ==> (r matches Err(e) && e == ParseError::UnexpectedEof),
{
    let network = match read_u32_with_byte_order(reader, byte_order) {
        Ok(n) => n,
        Err(e) => {
            return Err(e);
        },
    };
    if network == LINK_TYPE_ETHERNET {
        Ok(LinkType::Ethernet)
    } else {
        Ok(LinkType::Unsupported(network))
    }
}

} // verus!
