//! The record-header decoder and the record-body reader.

use vstd::prelude::*;

use crate::error::ParseError;
use crate::pcap::byte_order::ByteOrder;
use crate::pcap::global_header::GlobalHeader;
use crate::pcap::packet::{spec_new_packet, Packet, PacketModel};
use crate::pcap::packet_header::PacketHeader;
use crate::read_bytes::{read_u32_with_byte_order, spec_u32, Reader};

verus! {

/// A record header occupies the 16 bytes in front of each payload.
pub const PACKET_HEADER_SIZE: usize = 16;

/// The fields of a record header laid out in the first 16 bytes of `b`,
/// in file order: timestamp seconds, timestamp microseconds, captured
/// length, original on-wire length.
pub open spec fn spec_packet_header_fields(b: Seq<u8>, byte_order: ByteOrder) -> PacketHeader
    recommends
        b.len() >= 16,
{
    PacketHeader {
        ts_secs: spec_u32(b.subrange(0, 4), byte_order),
        ts_micros: spec_u32(b.subrange(4, 8), byte_order),
        captured_bytes: spec_u32(b.subrange(8, 12), byte_order),
        actual_bytes: spec_u32(b.subrange(12, 16), byte_order),
    }
}

/// What decoding a record header from `b` yields.  Zero bytes where a
/// new record header is expected are the designed terminal condition of
/// the record loop and are told apart from a truncated header, which is
/// a hard error.
pub open spec fn spec_parse_packet_header(b: Seq<u8>, byte_order: ByteOrder) -> Result<
    PacketHeader,
    ParseError,
> {
    if b.len() == 0 {
        Err(ParseError::EndOfStream)
    } else if b.len() < 16 {
        Err(ParseError::UnexpectedEof)
    } else {
        Ok(spec_packet_header_fields(b, byte_order))
    }
}

/// What decoding a record body and dissecting it yields, given the
/// already-decoded record header: exactly `captured_bytes` payload bytes
/// are owed, and any shortfall is a truncation, never a clean end of
/// stream.
pub open spec fn spec_parse_packet(
    b: Seq<u8>,
    header: PacketHeader,
    global_header: GlobalHeader,
) -> Result<PacketModel, ParseError> {
    if b.len() < header.captured_bytes {
        Err(ParseError::UnexpectedEof)
    } else {
        spec_new_packet(header, b.take(header.captured_bytes as int), global_header)
    }
}

/// Read and consume the 16-byte record header, in the byte order the
/// capture's global header fixed.
pub fn parse_packet_header(reader: &mut Reader, global_header: &GlobalHeader) -> (r: Result<
    PacketHeader,
    ParseError,
>)
    requires
        old(reader).wf(),
    ensures
        final(reader).wf(),
        r == spec_parse_packet_header(old(reader).remaining(), global_header.byte_order),
        r is Ok ==> final(reader).remaining() == old(reader).remaining().skip(16),
{
    let ghost b = old(reader).remaining();

    if reader.is_empty() {
        return Err(ParseError::EndOfStream);
    }
    let ts_secs = match read_u32_with_byte_order(reader, &global_header.byte_order) {
        Ok(v) => v,
        Err(e) => {
            return Err(e);
        },
    };
    let ts_micros = match read_u32_with_byte_order(reader, &global_header.byte_order) {
        Ok(v) => v,
        Err(e) => {
            return Err(e);
        },
    };
    proof {
        assert(b.skip(4).subrange(0, 4) =~= b.subrange(4, 8));
        assert(b.skip(4).skip(4) =~= b.skip(8));
    }
    let captured_bytes = match read_u32_with_byte_order(reader, &global_header.byte_order) {
        Ok(v) => v,
        Err(e) => {
            return Err(e);
        },
    };
    proof {
        assert(b.skip(8).subrange(0, 4) =~= b.subrange(8, 12));
        assert(b.skip(8).skip(4) =~= b.skip(12));
    }
    let actual_bytes = match read_u32_with_byte_order(reader, &global_header.byte_order) {
        Ok(v) => v,
        Err(e) => {
            return Err(e);
        },
    };
    proof {
        assert(b.skip(12).subrange(0, 4) =~= b.subrange(12, 16));
        assert(b.skip(12).skip(4) =~= b.skip(16));
    }

    Ok(PacketHeader { ts_secs, ts_micros, captured_bytes, actual_bytes })
}

/// Read and consume exactly `header.captured_bytes` payload bytes and
/// assemble the record, dissecting the payload according to the
/// capture's link type.
pub fn parse_packet(reader: &mut Reader, header: PacketHeader, global_header: &GlobalHeader) -> (r:
    Result<Packet, ParseError>)
    requires
        old(reader).wf(),
    ensures
        final(reader).wf(),
        r matches Ok(p) ==> (spec_parse_packet(old(reader).remaining(), header, *global_header)
            matches Ok(m) && p@ == m && final(reader).remaining() == old(reader).remaining().skip(
            header.captured_bytes as int,
        )),
        r matches Err(e) ==> (spec_parse_packet(old(reader).remaining(), header, *global_header)
            matches Err(e2) && e == e2),
{
    let data = match reader.read_bytes(header.captured_bytes as usize) {
        Ok(d) => d,
        Err(e) => {
            return Err(e);
        },
    };
    match Packet::new(header, data, global_header) {
        Ok(p) => Ok(p),
        Err(e) => Err(e),
    }
}

} // verus!
