//! The TCP header shape: the transport-layer extension point.
//!
//! The data model is fully specified, but the dissection cascade does not
//! yet reach the transport layer; a future TCP stage would hang off the
//! IPv4 protocol number following the same best-effort, stack-preserving
//! pattern as the Ethernet-to-IPv4 transition.

use vstd::prelude::*;

verus! {

/// The control flags of a TCP segment.
///
/// * `Reserved`: bits set aside for future use.
/// * `AccurateECN`: finer-grained congestion feedback.
/// * `CongestionWindowReduced`: the sender reduced its window after an
///   ECN echo.
/// * `ECNEcho`: the receiver saw congestion on the path.
/// * `Urgent`: the urgent-pointer field is meaningful.
/// * `Acknowledgment`: the acknowledgment number is meaningful.
/// * `Push`: deliver the data to the application promptly.
/// * `Reset`: tear the connection down after an error.
/// * `Synchronize`: establish a connection by synchronizing sequence
///   numbers.
/// * `Finish`: close the connection softly.
#[derive(Debug, Clone, Copy, PartialEq, Eq)]
pub enum Flag {
    Reserved,
    AccurateECN,
    CongestionWindowReduced,
    ECNEcho,
    Urgent,
    Acknowledgment,
    Push,
    Reset,
    Synchronize,
    Finish,
}

/// A TCP header.
///
/// * `source_port`, `destination_port`: the endpoints of the segment.
/// * `sequence_number`: position of this segment's data in the stream.
/// * `acknowledgment_number`: the next byte expected from the peer, valid
///   when the `Acknowledgment` flag is set.
/// * `data_offset`: header length in 32-bit words.
/// * `flags`: the control flags that are set.
/// * `window_size`: the receive window.
/// * `checksum`: the segment checksum as captured; not validated.
/// * `urgent_pointer`: points at the last urgent byte when the `Urgent`
///   flag is set.
/// * `options`: the raw option bytes.
#[derive(Debug, Clone, PartialEq, Eq)]
pub struct Header {
    pub source_port: u16,
    pub destination_port: u16,
    pub sequence_number: u32,
    pub acknowledgment_number: u32,
    pub data_offset: u8,
    pub flags: Vec<Flag>,
    pub window_size: u16,
    pub checksum: u16,
    pub urgent_pointer: u16,
    pub options: Vec<u8>,
}

} // verus!
