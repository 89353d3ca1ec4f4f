//! The IPv4 header and its dissector.

use vstd::prelude::*;
use vstd::slice::slice_index_get;

use crate::error::ParseError;
use crate::read_bytes::spec_u16_be;

verus! {

/// The version of the IP protocol a header belongs to.
#[derive(Debug, Clone, Copy, PartialEq, Eq)]
pub enum Version {
    V4,
    V6,
}

/// A 4-byte IPv4 address.
#[derive(Debug, Clone, Copy, PartialEq, Eq)]
pub struct Address {
    pub address: [u8; 4],
}

impl View for Address {
    type V = Seq<u8>;

    open spec fn view(&self) -> Seq<u8> {
        self.address@
    }
}

impl Address {
    pub fn new(address: [u8; 4]) -> (r: Address)
        ensures
            r.address == address,
    {
        Address { address }
    }
}

/// The fragmentation control bits of an IPv4 header.
///
/// * `Reserved`: set aside for future use.
/// * `DontFragment`: the packet must not be fragmented.
/// * `MoreFragments`: further fragments follow this one.
#[derive(Debug, Clone, Copy, PartialEq, Eq)]
pub enum Flag {
    Reserved,
    DontFragment,
    MoreFragments,
}

/// The mathematical content of a dissected IPv4 header.
#[verifier::ext_equal]
pub ghost struct HeaderModel {
    pub version: Version,
    pub ihl: u8,
    pub dsf: u8,
    pub total_length: u16,
    pub identification: u16,
    pub flags: Seq<Flag>,
    pub fragment_offset: u16,
    pub ttl: u8,
    pub protocol: u8,
    pub checksum: u16,
    pub source: Seq<u8>,
    pub destination: Seq<u8>,
}

/// An IPv4 header without options: only the minimum header length of
/// five 32-bit words is dissected.
///
/// * `version`: always 4 here.
/// * `ihl`: header length in 32-bit words; only 5 is accepted.
/// * `dsf`: the differentiated-services field.
/// * `total_length`: header plus data, in bytes.
/// * `identification`: groups the fragments of one packet.
/// * `flags`: the fragmentation control bits that are set.
/// * `fragment_offset`: 13-bit offset of this fragment.
/// * `ttl`: hops left before the packet is discarded.
/// * `protocol`: the transport-protocol number of the payload.
/// * `checksum`: the header checksum as captured; not validated.
/// * `source`, `destination`: the endpoint addresses.
#[derive(Debug, Clone, PartialEq, Eq)]
pub struct Header {
    pub version: Version,
    pub ihl: u8,
    pub dsf: u8,
    pub total_length: u16,
    pub identification: u16,
    pub flags: Vec<Flag>,
    pub fragment_offset: u16,
    pub ttl: u8,
    pub protocol: u8,
    pub checksum: u16,
    pub source: Address,
    pub destination: Address,
}

impl View for Header {
    type V = HeaderModel;

    open spec fn view(&self) -> HeaderModel {
        HeaderModel {
            version: self.version,
            ihl: self.ihl,
            dsf: self.dsf,
            total_length: self.total_length,
            identification: self.identification,
            flags: self.flags@,
            fragment_offset: self.fragment_offset,
            ttl: self.ttl,
            protocol: self.protocol,
            checksum: self.checksum,
            source: self.source@,
            destination: self.destination@,
        }
    }
}

/// The flags encoded in the 16-bit flags-and-fragment-offset field, in
/// the order reserved, don't-fragment, more-fragments: bits 15, 14
/// and 13.
pub open spec fn spec_flags_of(flags_fragment_offset: u16) -> Seq<Flag> {
    (if flags_fragment_offset / 0x8000 % 2 == 1 {
        seq![Flag::Reserved]
    } else {
        Seq::<Flag>::empty()
    }) + (if flags_fragment_offset / 0x4000 % 2 == 1 {
        seq![Flag::DontFragment]
    } else {
        Seq::<Flag>::empty()
    }) + (if flags_fragment_offset / 0x2000 % 2 == 1 {
        seq![Flag::MoreFragments]
    } else {
        Seq::<Flag>::empty()
    })
}

/// What dissecting an IPv4 header from `b` yields: 20 bytes and a header
/// length of exactly five words are required; multi-byte fields are fixed
/// big-endian per the protocol, whatever the capture's byte order.
pub open spec fn spec_parse(b: Seq<u8>) -> Result<HeaderModel, ParseError> {
    if b.len() < 20 {
        Err(ParseError::InvalidData)
    } else if b[0] % 16 != 5 {
        Err(ParseError::InvalidData)
    } else {
        Ok(
            HeaderModel {
                version: Version::V4,
                ihl: (b[0] % 16) as u8,
                dsf: b[1],
                total_length: spec_u16_be(b.subrange(2, 4)),
                identification: spec_u16_be(b.subrange(4, 6)),
                flags: spec_flags_of(spec_u16_be(b.subrange(6, 8))),
                fragment_offset: (spec_u16_be(b.subrange(6, 8)) % 0x2000) as u16,
                ttl: b[8],
                protocol: b[9],
                checksum: spec_u16_be(b.subrange(10, 12)),
                source: b.subrange(12, 16),
                destination: b.subrange(16, 20),
            },
        )
    }
}

/// The fixed big-endian `u16` at offset `i` of `data`.
fn read_u16_be_at(data: &[u8], i: usize) -> (r: u16)
    requires
        i + 2 <= data@.len(),
        i + 2 <= usize::MAX,
    ensures
        r == spec_u16_be(data@.subrange(i as int, i as int + 2)),
{
    let b0 = *slice_index_get(data, i);
    let b1 = *slice_index_get(data, i + 1);
    proof {
        let w = data@.subrange(i as int, i as int + 2);
        assert(w[0] == b0 && w[1] == b1);
    }
    (b0 as u16) * 0x100 + (b1 as u16)
}

/// Dissect the 20-byte option-less IPv4 header at the front of `data`.
pub fn parse(data: &[u8]) -> (r: Result<Header, ParseError>)
    ensures
        r matches Ok(h) ==> (spec_parse(data@) matches Ok(m) && h@ == m),
        r matches Err(e) ==> (spec_parse(data@) matches Err(e2) && e == e2),
{
    if data.len() < 20 {
        return Err(ParseError::InvalidData);
    }
    let version_ihl = *slice_index_get(data, 0);
    let ihl = version_ihl % 16;
    if ihl != 5 {
        return Err(ParseError::InvalidData);
    }
    let dsf = *slice_index_get(data, 1);
    let total_length = read_u16_be_at(data, 2);
    let identification = read_u16_be_at(data, 4);
    let flags_fragment_offset = read_u16_be_at(data, 6);

    let mut flags: Vec<Flag> = Vec::new();
    if flags_fragment_offset / 0x8000 % 2 == 1 {
        flags.push(Flag::Reserved);
    }
    if flags_fragment_offset / 0x4000 % 2 == 1 {
        flags.push(Flag::DontFragment);
    }
    if flags_fragment_offset / 0x2000 % 2 == 1 {
        flags.push(Flag::MoreFragments);
    }
    proof {
        assert(flags@ =~= spec_flags_of(flags_fragment_offset));
    }

    let ttl = *slice_index_get(data, 8);
    let protocol = *slice_index_get(data, 9);
    let checksum = read_u16_be_at(data, 10);
    let source = Address::new(
        [
            *slice_index_get(data, 12),
            *slice_index_get(data, 13),
            *slice_index_get(data, 14),
            *slice_index_get(data, 15),
        ],
    );
    let destination = Address::new(
        [
            *slice_index_get(data, 16),
            *slice_index_get(data, 17),
            *slice_index_get(data, 18),
            *slice_index_get(data, 19),
        ],
    );

    let header = Header {
        version: Version::V4,
        ihl,
        dsf,
        total_length,
        identification,
        flags,
        fragment_offset: flags_fragment_offset % 0x2000,
        ttl,
        protocol,
        checksum,
        source,
        destination,
    };
    proof {
        assert(header.source@ =~= data@.subrange(12, 16));
        assert(header.destination@ =~= data@.subrange(16, 20));
        assert(header@ =~= spec_parse(data@)->Ok_0);
    }
    Ok(header)
}

} // verus!
