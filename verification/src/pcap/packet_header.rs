//! The fixed-size header in front of every record's payload.

use vstd::prelude::*;

verus! {

/// How many microseconds make one second, for combining the two timestamp
/// fields of a record.
pub const MICROS_PER_SECOND: u64 = 1_000_000;

/// The 16-byte header of one captured record.
///
/// * `ts_secs`: capture timestamp, whole seconds.
/// * `ts_micros`: capture timestamp, fractional part in microseconds.
/// * `captured_bytes`: how many payload bytes follow this header.
/// * `actual_bytes`: the record's original length on the wire, which may
///   exceed `captured_bytes` when the capture was cut at the snap length.
#[derive(Debug, Clone, Copy, PartialEq, Eq)]
pub struct PacketHeader {
    pub ts_secs: u32,
    pub ts_micros: u32,
    pub captured_bytes: u32,
    pub actual_bytes: u32,
}

impl PacketHeader {
    /// The two timestamp fields combined into one count of microseconds:
    /// `ts_secs + ts_micros / 1_000_000` seconds, held exactly as
    /// `ts_secs * 1_000_000 + ts_micros` microseconds.  The combination
    /// depends only on the two decoded fields, never on the capture's
    /// byte order.
    pub fn combined_timestamp_micros(&self) -> (r: u64)
        ensures
            r == self.ts_secs * MICROS_PER_SECOND + self.ts_micros,
    {
        (self.ts_secs as u64) * MICROS_PER_SECOND + (self.ts_micros as u64)
    }
}

} // verus!
