//! The time-zone correction of a capture's timestamps.

use vstd::prelude::*;

use crate::error::ParseError;
use crate::pcap::byte_order::ByteOrder;
use crate::read_bytes::{read_i32_with_byte_order, spec_i32, Reader};

verus! {

/// Correction in seconds between UTC and the local time zone of the
/// capture's timestamps.
///
/// A zero correction maps to `Utc`; any other value is kept in `Local`,
/// positive ahead of UTC and negative behind it.
#[derive(Debug, Clone, Copy, PartialEq, Eq)]
pub enum TimeZone {
    Utc,
    Local(i32),
}

/// The time zone a correction field selects: zero maps to `Utc`, anything
/// else is preserved in `Local`.
pub open spec fn spec_time_zone_of(thiszone: i32) -> TimeZone {
    if thiszone == 0 {
        TimeZone::Utc
    } else {
        TimeZone::Local(thiszone)
    }
}

/// Read and consume the 4-byte signed time-zone correction field.
pub fn parse_time_zone(reader: &mut Reader, byte_order: &ByteOrder) -> (r: Result<
    TimeZone,
    ParseError,
>)
    requires
        old(reader).wf(),
    ensures
        final(reader).wf(),
        old(reader).remaining().len() >= 4 ==> {
            &&& r matches Ok(t)
            &&& t == spec_time_zone_of(spec_i32(old(reader).remaining().subrange(0, 4), *byte_order))
            &&& final(reader).remaining() == old(reader).remaining().skip(4)
        },
        old(reader).remaining().len() < 4 ==> (r matches Err(e) && e == ParseError::UnexpectedEof),
{
    let thiszone = match read_i32_with_byte_order(reader, byte_order) {
        Ok(t) => t,
        Err(e) => {
            return Err(e);
        },
    };
    if thiszone == 0 {
        Ok(TimeZone::Utc)
    } else {
        Ok(TimeZone::Local(thiszone))
    }
}

} // verus!
