//! The ways a capture decode can fail.

use vstd::prelude::*;

verus! {

/// Everything that can go wrong while decoding a capture.
///
/// A clean end of stream at a record boundary is reported as
/// [`ParseError::EndOfStream`] so that the decode loop can tell the designed
/// terminal condition apart from a mid-header truncation, which is
/// [`ParseError::UnexpectedEof`].
#[derive(Debug, Clone, Copy, PartialEq, Eq)]
pub enum ParseError {
    /// The first four bytes match neither known magic number.
    InvalidMagicNumber,
    /// Zero bytes remain where a new record header was expected; the
    /// designed, successful termination of the record loop.
    EndOfStream,
    /// Fewer bytes remain than a fixed-size field or a declared body
    /// length requires.
    UnexpectedEof,
    /// A header field holds a value the decoder does not accept.
    InvalidData,
    /// The capture's link-layer type has no dissector wired to it; the raw
    /// link-type code is preserved.
    UnsupportedLinkType(u32),
}

} // verus!
