//! The global header of a capture.

use vstd::prelude::*;

use crate::pcap::accuracy::Accuracy;
use crate::pcap::byte_order::ByteOrder;
use crate::pcap::network::LinkType;
use crate::pcap::time_zone::TimeZone;

verus! {

/// The fixed 24-byte preamble of a capture.
///
/// Decoded once per capture and never mutated; its byte order governs
/// every multi-byte read in the rest of the file, and its link type fixes
/// the framing of every record's payload.
///
/// * `byte_order`: derived from the magic number.
/// * `version_major`, `version_minor`: the file-format version.
/// * `time_zone`: correction in seconds between UTC and the local time
///   zone of the packet timestamps.
/// * `accuracy`: how many leading digits of the timestamps are reliable.
/// * `max_bytes`: the snap length; no record captures more bytes than
///   this.
/// * `network`: the link-layer framing of every record's payload.
#[derive(Debug, Clone, Copy, PartialEq, Eq)]
pub struct GlobalHeader {
    pub byte_order: ByteOrder,
    pub version_major: u16,
    pub version_minor: u16,
    pub time_zone: TimeZone,
    pub accuracy: Accuracy,
    pub max_bytes: u32,
    pub network: LinkType,
}

} // verus!
