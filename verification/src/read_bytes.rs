//! The primitive reader: a forward-only cursor over the capture's bytes and
//! the byte-order-aware fixed-width integer reads built on it.

use vstd::prelude::*;
use vstd::slice::{slice_index_get, slice_subrange, slice_to_vec};

use crate::error::ParseError;
use crate::pcap::byte_order::ByteOrder;

verus! {

/// The big-endian `u16` held by a 2-byte sequence.
pub open spec fn spec_u16_be(b: Seq<u8>) -> u16
    recommends
        b.len() == 2,
{
    (b[0] * 0x100 + b[1]) as u16
}

/// The little-endian `u16` held by a 2-byte sequence.
pub open spec fn spec_u16_le(b: Seq<u8>) -> u16
    recommends
        b.len() == 2,
{
    (b[1] * 0x100 + b[0]) as u16
}

/// The `u16` held by a 2-byte sequence in the given byte order.
pub open spec fn spec_u16(b: Seq<u8>, byte_order: ByteOrder) -> u16
    recommends
        b.len() == 2,
{
    match byte_order {
        ByteOrder::BigEndian => spec_u16_be(b),
        ByteOrder::LittleEndian => spec_u16_le(b),
    }
}

/// The big-endian `u32` held by a 4-byte sequence.
pub open spec fn spec_u32_be(b: Seq<u8>) -> u32
    recommends
        b.len() == 4,
{
    (b[0] * 0x100_0000 + b[1] * 0x1_0000 + b[2] * 0x100 + b[3]) as u32
}

/// The little-endian `u32` held by a 4-byte sequence.
pub open spec fn spec_u32_le(b: Seq<u8>) -> u32
    recommends
        b.len() == 4,
{
    (b[3] * 0x100_0000 + b[2] * 0x1_0000 + b[1] * 0x100 + b[0]) as u32
}

/// The `u32` held by a 4-byte sequence in the given byte order.
pub open spec fn spec_u32(b: Seq<u8>, byte_order: ByteOrder) -> u32
    recommends
        b.len() == 4,
{
    match byte_order {
        ByteOrder::BigEndian => spec_u32_be(b),
        ByteOrder::LittleEndian => spec_u32_le(b),
    }
}

/// The two's-complement `i32` held by a 4-byte sequence in the given byte
/// order.
pub open spec fn spec_i32(b: Seq<u8>, byte_order: ByteOrder) -> i32
    recommends
        b.len() == 4,
{
    let u = spec_u32(b, byte_order);
    if u < 0x8000_0000 {
        u as i32
    } else {
        (u - 0x1_0000_0000) as i32
    }
}

/// A sequential, forward-only cursor over the bytes of a capture.
///
/// The decoder never seeks backward: every successful read advances the
/// position by exactly the number of bytes it consumed.
pub struct Reader<'a> {
    data: &'a [u8],
    pos: usize,
}

impl<'a> Reader<'a> {
    /// The cursor never stands past the end of its buffer.
    pub closed spec fn wf(self) -> bool {
        self.pos <= self.data@.len()
    }

    /// The bytes not yet consumed.
    pub closed spec fn remaining(self) -> Seq<u8> {
        self.data@.skip(self.pos as int)
    }

    /// A cursor positioned at the first byte of `data`.
    pub fn new(data: &'a [u8]) -> (r: Reader<'a>)
        ensures
            r.wf(),
            r.remaining() == data@,
    {
        let r = Reader { data, pos: 0 };
        proof {
            assert(r.remaining() =~= data@);
        }
        r
    }

    /// Whether the source is exhausted: the designed terminal condition of
    /// the record loop when it holds at a record boundary.
    pub fn is_empty(&self) -> (r: bool)
        requires
            self.wf(),
        ensures
            r <==> self.remaining().len() == 0,
    {
        self.pos == self.data.len()
    }

    /// Consume exactly `n` bytes as a fresh vector; any shortfall is a
    /// truncation error and consumes nothing.
    pub fn read_bytes(&mut self, n: usize) -> (r: Result<Vec<u8>, ParseError>)
        requires
            old(self).wf(),
        ensures
            final(self).wf(),
            old(self).remaining().len() >= n ==> {
                &&& r matches Ok(v)
                &&& v@ == old(self).remaining().take(n as int)
                &&& final(self).remaining() == old(self).remaining().skip(n as int)
            },
            old(self).remaining().len() < n ==> (r matches Err(e) && e == ParseError::UnexpectedEof),
    {
        if n > self.data.len() - self.pos {
            return Err(ParseError::UnexpectedEof);
        }
        let s = slice_subrange(self.data, self.pos, self.pos + n);
        let v = slice_to_vec(s);
        self.pos = self.pos + n;
        proof {
            assert(v@ =~= old(self).remaining().take(n as int));
            assert(self.remaining() =~= old(self).remaining().skip(n as int));
        }
        Ok(v)
    }
}

/// Read and consume 4 bytes as a `u32` in the given byte order.
pub fn read_u32_with_byte_order(reader: &mut Reader, byte_order: &ByteOrder) -> (r: Result<
    u32,
    ParseError,
>)
    requires
        old(reader).wf(),
    ensures
        final(reader).wf(),
        old(reader).remaining().len() >= 4 ==> {
            &&& r matches Ok(v)
            &&& v == spec_u32(old(reader).remaining().subrange(0, 4), *byte_order)
            &&& final(reader).remaining() == old(reader).remaining().skip(4)
        },
        old(reader).remaining().len() < 4 ==> (r matches Err(e) && e == ParseError::UnexpectedEof),
{
    if reader.data.len() - reader.pos < 4 {
        return Err(ParseError::UnexpectedEof);
    }
    let b0 = *slice_index_get(reader.data, reader.pos);
    let b1 = *slice_index_get(reader.data, reader.pos + 1);
    let b2 = *slice_index_get(reader.data, reader.pos + 2);
    let b3 = *slice_index_get(reader.data, reader.pos + 3);
    reader.pos = reader.pos + 4;
    let v: u32 = match byte_order {
        ByteOrder::BigEndian => (b0 as u32) * 0x100_0000 + (b1 as u32) * 0x1_0000 + (b2 as u32)
            * 0x100 + (b3 as u32),
        ByteOrder::LittleEndian => (b3 as u32) * 0x100_0000 + (b2 as u32) * 0x1_0000 + (b1 as u32)
            * 0x100 + (b0 as u32),
    };
    proof {
        let w = old(reader).remaining().subrange(0, 4);
        assert(w[0] == b0 && w[1] == b1 && w[2] == b2 && w[3] == b3);
        assert(reader.remaining() =~= old(reader).remaining().skip(4));
    }
    Ok(v)
}

/// Read and consume 2 bytes as a `u16` in the given byte order.
pub fn read_u16_with_byte_order(reader: &mut Reader, byte_order: &ByteOrder) -> (r: Result<
    u16,
    ParseError,
>)
    requires
        old(reader).wf(),
    ensures
        final(reader).wf(),
        old(reader).remaining().len() >= 2 ==> {
            &&& r matches Ok(v)
            &&& v == spec_u16(old(reader).remaining().subrange(0, 2), *byte_order)
            &&& final(reader).remaining() == old(reader).remaining().skip(2)
        },
        old(reader).remaining().len() < 2 ==> (r matches Err(e) && e == ParseError::UnexpectedEof),
{
    if reader.data.len() - reader.pos < 2 {
        return Err(ParseError::UnexpectedEof);
    }
    let b0 = *slice_index_get(reader.data, reader.pos);
    let b1 = *slice_index_get(reader.data, reader.pos + 1);
    reader.pos = reader.pos + 2;
    let v: u16 = match byte_order {
        ByteOrder::BigEndian => (b0 as u16) * 0x100 + (b1 as u16),
        ByteOrder::LittleEndian => (b1 as u16) * 0x100 + (b0 as u16),
    };
    proof {
        let w = old(reader).remaining().subrange(0, 2);
        assert(w[0] == b0 && w[1] == b1);
        assert(reader.remaining() =~= old(reader).remaining().skip(2));
    }
    Ok(v)
}

/// Read and consume 4 bytes as a two's-complement `i32` in the given byte
/// order.
pub fn read_i32_with_byte_order(reader: &mut Reader, byte_order: &ByteOrder) -> (r: Result<
    i32,
    ParseError,
>)
    requires
        old(reader).wf(),
    ensures
        final(reader).wf(),
        old(reader).remaining().len() >= 4 ==> {
            &&& r matches Ok(v)
            &&& v == spec_i32(old(reader).remaining().subrange(0, 4), *byte_order)
            &&& final(reader).remaining() == old(reader).remaining().skip(4)
        },
        old(reader).remaining().len() < 4 ==> (r matches Err(e) && e == ParseError::UnexpectedEof),
{
    let u = match read_u32_with_byte_order(reader, byte_order) {
        Ok(u) => u,
        Err(e) => {
            return Err(e);
        },
    };
    let v: i32 = if u < 0x8000_0000 {
        u as i32
    } else {
        ((u - 0x8000_0000) as i32) + i32::MIN
    };
    Ok(v)
}

} // verus!
