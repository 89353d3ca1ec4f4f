//! A verified decoder for the classic pcap capture-file format.
//!
//! A capture is a 24-byte global header followed by length-prefixed packet
//! records; every multi-byte field is read in the byte order fixed once by
//! the file's magic number.  Decoding a capture yields a [`PCapA`] holding
//! the global header and the ordered sequence of records, each with its raw
//! payload and the protocol headers dissected from it.

use vstd::prelude::*;

pub mod error;
pub mod pcap;
pub mod protocol;
pub mod read_bytes;

use crate::error::ParseError;
use crate::pcap::byte_order::{ByteOrder, MAGIC_NUMBER_BIG_ENDIAN, MAGIC_NUMBER_LITTLE_ENDIAN};
use crate::pcap::global_header::GlobalHeader;
use crate::pcap::packet::global_header::{parse_global_header, spec_parse_global_header};
use crate::pcap::packet::header::{
    parse_packet, parse_packet_header, spec_packet_header_fields, spec_parse_packet,
};
use crate::pcap::packet::{Packet, PacketModel};
use crate::read_bytes::{spec_u32_be, Reader};

verus! {

/// The mathematical content of a decoded capture.
#[verifier::ext_equal]
pub ghost struct CaptureModel {
    pub global_header: GlobalHeader,
    pub packets: Seq<PacketModel>,
}

/// The models of a sequence of decoded records, in order.
pub open spec fn spec_packets_view(s: Seq<Packet>) -> Seq<PacketModel> {
    s.map_values(|p: Packet| p@)
}

/// What decoding the record sequence from `b` yields: record after
/// record, each a 16-byte header followed by exactly the payload it
/// declares, until the source is exhausted at a record boundary.  Bytes
/// left over that do not fill a whole record are a truncation, and a
/// record's hard dissection failure aborts the whole sequence.
pub open spec fn spec_parse_records(b: Seq<u8>, global_header: GlobalHeader) -> Result<
    Seq<PacketModel>,
    ParseError,
>
    decreases b.len(),
{
    if b.len() == 0 {
        Ok(Seq::<PacketModel>::empty())
    } else if b.len() < 16 {
        Err(ParseError::UnexpectedEof)
    } else {
        let header = spec_packet_header_fields(b, global_header.byte_order);
        if b.len() - 16 < header.captured_bytes {
            Err(ParseError::UnexpectedEof)
        } else {
            match spec_parse_packet(b.skip(16), header, global_header) {
                Err(e) => Err(e),
                Ok(packet) => match spec_parse_records(
                    b.skip(16 + header.captured_bytes as int),
                    global_header,
                ) {
                    Err(e) => Err(e),
                    Ok(rest) => Ok(seq![packet] + rest),
                },
            }
        }
    }
}

/// What decoding a whole capture yields: the global header once, then
/// every record; any failure discards the partial result.
pub open spec fn spec_parse_capture(b: Seq<u8>) -> Result<CaptureModel, ParseError> {
    match spec_parse_global_header(b) {
        Err(e) => Err(e),
        Ok(global_header) => match spec_parse_records(b.skip(24), global_header) {
            Err(e) => Err(e),
            Ok(packets) => Ok(CaptureModel { global_header, packets }),
        },
    }
}

/// A decoded capture: the global header and the records in their on-disk
/// order.
#[derive(Debug)]
pub struct PCapA {
    pub global_header: GlobalHeader,
    pub packets: Vec<Packet>,
}

impl View for PCapA {
    type V = CaptureModel;

    open spec fn view(&self) -> CaptureModel {
        CaptureModel {
            global_header: self.global_header,
            packets: spec_packets_view(self.packets@),
        }
    }
}

impl PCapA {
    /// Decode a whole capture from its raw bytes.
    ///
    /// The global header is decoded once; then records are decoded until
    /// the source is exhausted exactly at a record boundary.  Any failure
    /// aborts the whole decode with that error and no partial capture.
    pub fn open(data: &[u8]) -> (r: Result<PCapA, ParseError>)
        ensures
            r matches Ok(c) ==> (spec_parse_capture(data@) matches Ok(m) && c@ == m),
            r matches Err(e) ==> (spec_parse_capture(data@) matches Err(e2) && e == e2),
    {
        let mut reader = Reader::new(data);

        let global_header = match parse_global_header(&mut reader) {
            Ok(g) => g,
            Err(e) => {
                return Err(e);
            },
        };

        let mut pcap_file = PCapA { global_header, packets: Vec::new() };
        let ghost tail0 = data@.skip(24);

        proof {
            assert(spec_packets_view(pcap_file.packets@) =~= Seq::<PacketModel>::empty());
            if spec_parse_records(tail0, global_header) is Ok {
                assert(Seq::<PacketModel>::empty() + spec_parse_records(tail0, global_header)->Ok_0
                    =~= spec_parse_records(tail0, global_header)->Ok_0);
            }
        }

        while !reader.is_empty()
            invariant
                reader.wf(),
                pcap_file.global_header == global_header,
                spec_parse_global_header(data@) == Ok::<GlobalHeader, ParseError>(global_header),
                tail0 == data@.skip(24),
                ({
                    match spec_parse_records(reader.remaining(), global_header) {
                        Ok(rest) => spec_parse_records(tail0, global_header) == Ok::<
                            Seq<PacketModel>,
                            ParseError,
                        >(spec_packets_view(pcap_file.packets@) + rest),
                        Err(e) => spec_parse_records(tail0, global_header) == Err::<
                            Seq<PacketModel>,
                            ParseError,
                        >(e),
                    }
                }),
            decreases reader.remaining().len(),
        {
            let ghost rem_old = reader.remaining();
            let ghost packets_old = pcap_file.packets@;

            let packet_header = match parse_packet_header(&mut reader, &pcap_file.global_header) {
                Ok(h) => h,
                Err(e) => {
                    return Err(e);
                },
            };
            let packet = match parse_packet(&mut reader, packet_header, &pcap_file.global_header) {
                Ok(p) => p,
                Err(e) => {
                    return Err(e);
                },
            };
            pcap_file.packets.push(packet);

            proof {
                let cap = packet_header.captured_bytes as int;
                assert(rem_old.skip(16).skip(cap) =~= rem_old.skip(16 + cap));
                assert(spec_packets_view(pcap_file.packets@) =~= spec_packets_view(packets_old)
                    + seq![packet@]);
                if spec_parse_records(reader.remaining(), global_header) is Ok {
                    assert((spec_packets_view(packets_old) + seq![packet@]) + spec_parse_records(
                        reader.remaining(),
                        global_header,
                    )->Ok_0 =~= spec_packets_view(packets_old) + (seq![packet@]
                        + spec_parse_records(reader.remaining(), global_header)->Ok_0));
                }
            }
        }

        proof {
            assert(spec_packets_view(pcap_file.packets@) + Seq::<PacketModel>::empty()
                =~= spec_packets_view(pcap_file.packets@));
            assert(pcap_file@ =~= spec_parse_capture(data@)->Ok_0);
        }
        Ok(pcap_file)
    }
}

/// The magic number alone decides the byte order: the big-endian magic
/// constant yields a big-endian capture, the byte-swapped constant a
/// little-endian one, and any other 4-byte prefix fails the whole decode
/// as a malformed preamble.
pub proof fn lemma_byte_order_determined_by_magic(b: Seq<u8>)
    requires
        b.len() >= 4,
    ensures
        spec_u32_be(b.subrange(0, 4)) == MAGIC_NUMBER_BIG_ENDIAN && spec_parse_capture(b) is Ok
            ==> spec_parse_capture(b)->Ok_0.global_header.byte_order == ByteOrder::BigEndian,
        spec_u32_be(b.subrange(0, 4)) == MAGIC_NUMBER_LITTLE_ENDIAN && spec_parse_capture(b) is Ok
            ==> spec_parse_capture(b)->Ok_0.global_header.byte_order == ByteOrder::LittleEndian,
        spec_u32_be(b.subrange(0, 4)) != MAGIC_NUMBER_BIG_ENDIAN && spec_u32_be(b.subrange(0, 4))
            != MAGIC_NUMBER_LITTLE_ENDIAN ==> spec_parse_capture(b) == Err::<
            CaptureModel,
            ParseError,
        >(ParseError::InvalidMagicNumber),
{
}

/// Every decoded record carries exactly the payload its header declared:
/// `captured_bytes` bytes, never silently truncated.  When fewer bytes
/// than the declared captured length remain, the whole decode fails with
/// a truncation error instead.
pub proof fn lemma_payload_length_matches_header(b: Seq<u8>, global_header: GlobalHeader)
    ensures
        spec_parse_records(b, global_header) matches Ok(packets) ==> forall|i: int|
            0 <= i < packets.len() ==> (#[trigger] packets[i]).data.len()
                == packets[i].header.captured_bytes,
        b.len() >= 16 && b.len() - 16 < spec_packet_header_fields(
            b,
            global_header.byte_order,
        ).captured_bytes ==> spec_parse_records(b, global_header) == Err::<
            Seq<PacketModel>,
            ParseError,
        >(ParseError::UnexpectedEof),
    decreases b.len(),
{
    if b.len() >= 16 {
        let header = spec_packet_header_fields(b, global_header.byte_order);
        let cap = header.captured_bytes as int;
        if b.len() - 16 >= cap {
            lemma_payload_length_matches_header(b.skip(16 + cap), global_header);
            if spec_parse_records(b, global_header) is Ok {
                let packets = spec_parse_records(b, global_header)->Ok_0;
                let rest = spec_parse_records(b.skip(16 + cap), global_header)->Ok_0;
                let packet = spec_parse_packet(b.skip(16), header, global_header)->Ok_0;
                assert(packets =~= seq![packet] + rest);
                assert(packet.data.len() == cap);
                assert forall|i: int| 0 <= i < packets.len() implies (#[trigger] packets[i])
                    .data.len() == packets[i].header.captured_bytes by {
                    if i > 0 {
                        assert(packets[i] == rest[i - 1]);
                    }
                }
            }
        }
    }
}

/// Every record of a decoded capture carries exactly the payload its
/// header declared.
pub proof fn lemma_capture_payload_lengths(b: Seq<u8>)
    ensures
        spec_parse_capture(b) matches Ok(capture) ==> forall|i: int|
            0 <= i < capture.packets.len() ==> (#[trigger] capture.packets[i]).data.len()
                == capture.packets[i].header.captured_bytes,
{
    if spec_parse_capture(b) is Ok {
        let global_header = spec_parse_global_header(b)->Ok_0;
        lemma_payload_length_matches_header(b.skip(24), global_header);
    }
}

/// Record decoding is order-preserving and compositional: the records of
/// a byte stream made of two record-aligned parts are the records of the
/// first part followed, in order, by the records of the second; so
/// `packets[i]` always corresponds to the i-th on-disk record.
pub proof fn lemma_records_order_preserving(b1: Seq<u8>, b2: Seq<u8>, global_header: GlobalHeader)
    requires
        spec_parse_records(b1, global_header) is Ok,
    ensures
        spec_parse_records(b1 + b2, global_header) == (match spec_parse_records(
            b2,
            global_header,
        ) {
            Ok(rest) => Ok::<Seq<PacketModel>, ParseError>(
                spec_parse_records(b1, global_header)->Ok_0 + rest,
            ),
            Err(e) => Err::<Seq<PacketModel>, ParseError>(e),
        }),
    decreases b1.len(),
{
    if b1.len() == 0 {
        assert(b1 + b2 =~= b2);
        if spec_parse_records(b2, global_header) is Ok {
            assert(spec_parse_records(b1, global_header)->Ok_0 + spec_parse_records(
                b2,
                global_header,
            )->Ok_0 =~= spec_parse_records(b2, global_header)->Ok_0);
        }
    } else {
        let header = spec_packet_header_fields(b1, global_header.byte_order);
        let cap = header.captured_bytes as int;
        assert((b1 + b2).subrange(0, 4) =~= b1.subrange(0, 4));
        assert((b1 + b2).subrange(4, 8) =~= b1.subrange(4, 8));
        assert((b1 + b2).subrange(8, 12) =~= b1.subrange(8, 12));
        assert((b1 + b2).subrange(12, 16) =~= b1.subrange(12, 16));
        assert(spec_packet_header_fields(b1 + b2, global_header.byte_order) == header);
        assert((b1 + b2).skip(16).take(cap) =~= b1.skip(16).take(cap));
        assert(spec_parse_packet((b1 + b2).skip(16), header, global_header) == spec_parse_packet(
            b1.skip(16),
            header,
            global_header,
        ));
        lemma_records_order_preserving(b1.skip(16 + cap), b2, global_header);
        assert((b1 + b2).skip(16 + cap) =~= b1.skip(16 + cap) + b2);
        let packet = spec_parse_packet(b1.skip(16), header, global_header)->Ok_0;
        let r1_rest = spec_parse_records(b1.skip(16 + cap), global_header)->Ok_0;
        if spec_parse_records(b2, global_header) is Ok {
            let r2 = spec_parse_records(b2, global_header)->Ok_0;
            assert(seq![packet] + (r1_rest + r2) =~= (seq![packet] + r1_rest) + r2);
        }
    }
}

} // verus!
