//! The global-header decoder: the 24-byte preamble of a capture.

use vstd::prelude::*;

use crate::error::ParseError;
use crate::pcap::accuracy::{parse_accuracy, spec_accuracy_of};
use crate::pcap::byte_order::{parse_byte_order, spec_parse_byte_order, ByteOrder};
use crate::pcap::global_header::GlobalHeader;
use crate::pcap::network::{parse_network, spec_link_type_of};
use crate::pcap::time_zone::{parse_time_zone, spec_time_zone_of};
use crate::read_bytes::{
    read_u16_with_byte_order, read_u32_with_byte_order, spec_i32, spec_u16, spec_u32, Reader,
};

verus! {

/// A global header occupies the first 24 bytes of a capture.
pub const GLOBAL_HEADER_SIZE: usize = 24;

/// The fields of a global header laid out in the first 24 bytes of `b`:
/// after the magic number come the two version halves, the time-zone
/// correction, the timestamp accuracy, the snap length and the link
/// type, each read in the byte order the magic number selected.
pub open spec fn spec_global_header_fields(b: Seq<u8>, byte_order: ByteOrder) -> GlobalHeader
    recommends
        b.len() >= 24,
{
    GlobalHeader {
        byte_order,
        version_major: spec_u16(b.subrange(4, 6), byte_order),
        version_minor: spec_u16(b.subrange(6, 8), byte_order),
        time_zone: spec_time_zone_of(spec_i32(b.subrange(8, 12), byte_order)),
        accuracy: spec_accuracy_of(spec_u32(b.subrange(12, 16), byte_order)),
        max_bytes: spec_u32(b.subrange(16, 20), byte_order),
        network: spec_link_type_of(spec_u32(b.subrange(20, 24), byte_order)),
    }
}

/// What decoding the global header from `b` yields: the byte order is
/// derived from the magic number first and is the only way it is ever
/// determined; a magic number that matches neither constant is a
/// malformed preamble, and fewer than 24 bytes are a truncation.
pub open spec fn spec_parse_global_header(b: Seq<u8>) -> Result<GlobalHeader, ParseError> {
    match spec_parse_byte_order(b) {
        Err(e) => Err(e),
        Ok(byte_order) => if b.len() < 24 {
            Err(ParseError::UnexpectedEof)
        } else {
            Ok(spec_global_header_fields(b, byte_order))
        },
    }
}

/// Read and consume the 24-byte global header.  On failure no partial
/// header is returned and the whole capture is unreadable.
pub fn parse_global_header(reader: &mut Reader) -> (r: Result<GlobalHeader, ParseError>)
    requires
        old(reader).wf(),
    ensures
        final(reader).wf(),
        r == spec_parse_global_header(old(reader).remaining()),
        r is Ok ==> final(reader).remaining() == old(reader).remaining().skip(24),
{
    let ghost b = old(reader).remaining();

    // First 4 bytes are the magic number; it alone fixes the byte order.
    let byte_order = match parse_byte_order(reader) {
        Ok(o) => o,
        Err(e) => {
            return Err(e);
        },
    };
    let version_major = match read_u16_with_byte_order(reader, &byte_order) {
        Ok(v) => v,
        Err(e) => {
            return Err(e);
        },
    };
    proof {
        assert(b.skip(4).subrange(0, 2) =~= b.subrange(4, 6));
        assert(b.skip(4).skip(2) =~= b.skip(6));
    }
    let version_minor = match read_u16_with_byte_order(reader, &byte_order) {
        Ok(v) => v,
        Err(e) => {
            return Err(e);
        },
    };
    proof {
        assert(b.skip(6).subrange(0, 2) =~= b.subrange(6, 8));
        assert(b.skip(6).skip(2) =~= b.skip(8));
    }
    let time_zone = match parse_time_zone(reader, &byte_order) {
        Ok(t) => t,
        Err(e) => {
            return Err(e);
        },
    };
    proof {
        assert(b.skip(8).subrange(0, 4) =~= b.subrange(8, 12));
        assert(b.skip(8).skip(4) =~= b.skip(12));
    }
    let accuracy = match parse_accuracy(reader, &byte_order) {
        Ok(a) => a,
        Err(e) => {
            return Err(e);
        },
    };
    proof {
        assert(b.skip(12).subrange(0, 4) =~= b.subrange(12, 16));
        assert(b.skip(12).skip(4) =~= b.skip(16));
    }
    let max_bytes = match read_u32_with_byte_order(reader, &byte_order) {
        Ok(m) => m,
        Err(e) => {
            return Err(e);
        },
    };
    proof {
        assert(b.skip(16).subrange(0, 4) =~= b.subrange(16, 20));
        assert(b.skip(16).skip(4) =~= b.skip(20));
    }
    let network = match parse_network(reader, &byte_order) {
        Ok(n) => n,
        Err(e) => {
            return Err(e);
        },
    };
    proof {
        assert(b.skip(20).subrange(0, 4) =~= b.subrange(20, 24));
        assert(b.skip(20).skip(4) =~= b.skip(24));
    }

    Ok(
        GlobalHeader {
            byte_order,
            version_major,
            version_minor,
            time_zone,
            accuracy,
            max_bytes,
            network,
        },
    )
}

} // verus!
