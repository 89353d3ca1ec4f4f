//! The structure of a pcap capture: its global header, its per-record
//! headers, and the records themselves.

/// Timestamp accuracy indicator and its parsing function.
pub mod accuracy;
/// Byte order and its parsing function.
pub mod byte_order;
/// The global header struct.
pub mod global_header;
/// Link type and its parsing function.
pub mod network;
/// Records and the decoders for their headers and bodies.
pub mod packet;
/// The per-record header struct.
pub mod packet_header;
/// Time zone and its parsing function.
pub mod time_zone;
