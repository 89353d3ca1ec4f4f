//! The accuracy of the timestamps in a capture file.

use vstd::prelude::*;

use crate::error::ParseError;
use crate::pcap::byte_order::ByteOrder;
use crate::read_bytes::{read_u32_with_byte_order, spec_u32, Reader};

verus! {

/// How reliable the timestamps of a capture are.
///
/// A zero significant-figures field means the timestamps are accurate.  A
/// nonzero value `n` means only the leftmost `n` digits of each timestamp
/// can be relied on; the decoder records the value but never rewrites the
/// timestamps.
#[derive(Debug, Clone, Copy, PartialEq, Eq)]
pub enum Accuracy {
    Accurate,
    Inaccurate(u32),
}

/// The accuracy a significant-figures field selects: zero maps to
/// `Accurate`, anything else is preserved in `Inaccurate`.
pub open spec fn spec_accuracy_of(sigfigs: u32) -> Accuracy {
    if sigfigs == 0 {
        Accuracy::Accurate
    } else {
        Accuracy::Inaccurate(sigfigs)
    }
}

/// Read and consume the 4-byte significant-figures field.
pub fn parse_accuracy(reader: &mut Reader, byte_order: &ByteOrder) -> (r: Result<
    Accuracy,
    ParseError,
>)
    requires
        old(reader).wf(),
    ensures
        final(reader).wf(),
        old(reader).remaining().len() >= 4 ==> {
            &&& r matches Ok(a)
            &&& a == spec_accuracy_of(spec_u32(old(reader).remaining().subrange(0, 4), *byte_order))
            &&& final(reader).remaining() == old(reader).remaining().skip(4)
        },
        old(reader).remaining().len() < 4 ==> (r matches Err(e) && e == ParseError::UnexpectedEof),
{
    let sigfigs = match read_u32_with_byte_order(reader, byte_order) {
        Ok(s) => s,
        Err(e) => {
            return Err(e);
        },
    };
    if sigfigs == 0 {
        Ok(Accuracy::Accurate)
    } else {
        Ok(Accuracy::Inaccurate(sigfigs))
    }
}

} // verus!
