//! The byte order of a capture, fixed once by its magic number.

use vstd::prelude::*;

use crate::error::ParseError;
use crate::read_bytes::{read_u32_with_byte_order, spec_u32_be, Reader};

verus! {

/// The magic number of a capture whose multi-byte fields are big-endian.
pub const MAGIC_NUMBER_BIG_ENDIAN: u32 = 0xa1b2_c3d4;

/// The byte-swapped magic number: the file was written little-endian.
pub const MAGIC_NUMBER_LITTLE_ENDIAN: u32 = 0xd4c3_b2a1;

/// Order of the multi-byte fields in the file.
///
/// Derived once from the magic number and then threaded, immutable, into
/// every subsequent multi-byte read of the capture.
#[derive(Debug, Clone, Copy, PartialEq, Eq)]
pub enum ByteOrder {
    BigEndian,
    LittleEndian,
}

/// The byte order a magic number selects, if it is one of the two known
/// magic constants.
pub open spec fn spec_byte_order_of_magic(magic: u32) -> Option<ByteOrder> {
    if magic == MAGIC_NUMBER_BIG_ENDIAN {
        Some(ByteOrder::BigEndian)
    } else if magic == MAGIC_NUMBER_LITTLE_ENDIAN {
        Some(ByteOrder::LittleEndian)
    } else {
        None
    }
}

/// What decoding the byte order from the head of `b` yields: the four
/// magic bytes are read big-endian and compared against the two known
/// constants; any other value is a malformed preamble.
pub open spec fn spec_parse_byte_order(b: Seq<u8>) -> Result<ByteOrder, ParseError> {
    if b.len() < 4 {
        Err(ParseError::UnexpectedEof)
    } else {
        match spec_byte_order_of_magic(spec_u32_be(b.subrange(0, 4))) {
            Some(order) => Ok(order),
            None => Err(ParseError::InvalidMagicNumber),
        }
    }
}

/// Read and consume the 4-byte magic number and derive the byte order
/// from it.  This is the only way a capture's byte order is ever
/// determined.
pub fn parse_byte_order(reader: &mut Reader) -> (r: Result<ByteOrder, ParseError>)
    requires
        old(reader).wf(),
    ensures
        final(reader).wf(),
        r == spec_parse_byte_order(old(reader).remaining()),
        r is Ok ==> final(reader).remaining() == old(reader).remaining().skip(4),
{
    let magic_number = match read_u32_with_byte_order(reader, &ByteOrder::BigEndian) {
        Ok(m) => m,
        Err(e) => {
            return Err(e);
        },
    };
    if magic_number == MAGIC_NUMBER_BIG_ENDIAN {
        Ok(ByteOrder::BigEndian)
    } else if magic_number == MAGIC_NUMBER_LITTLE_ENDIAN {
        Ok(ByteOrder::LittleEndian)
    } else {
        Err(ParseError::InvalidMagicNumber)
    }
}

} // verus!
