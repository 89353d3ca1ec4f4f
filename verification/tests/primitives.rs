//! Tests for the primitive reader and the small field decoders.

use pcapa::error::ParseError;
use pcapa::pcap::byte_order::ByteOrder;
use pcapa::read_bytes::{
    read_i32_with_byte_order, read_u16_with_byte_order, read_u32_with_byte_order, Reader,
};

#[test]
fn read_u32_big_endian() {
    let data = [0x12u8, 0x34, 0x56, 0x78];
    let mut reader = Reader::new(&data);
    let v = read_u32_with_byte_order(&mut reader, &ByteOrder::BigEndian).unwrap();
    assert_eq!(v, 0x1234_5678);
}

#[test]
fn read_u32_little_endian() {
    let data = [0x12u8, 0x34, 0x56, 0x78];
    let mut reader = Reader::new(&data);
    let v = read_u32_with_byte_order(&mut reader, &ByteOrder::LittleEndian).unwrap();
    assert_eq!(v, 0x7856_3412);
}

#[test]
fn read_u32_consumes_four_bytes() {
    let data = [0u8, 0, 0, 1, 0, 0, 0, 2];
    let mut reader = Reader::new(&data);
    assert_eq!(read_u32_with_byte_order(&mut reader, &ByteOrder::BigEndian).unwrap(), 1);
    assert_eq!(read_u32_with_byte_order(&mut reader, &ByteOrder::BigEndian).unwrap(), 2);
    assert!(reader.is_empty());
}

#[test]
fn read_u32_short_input_fails() {
    let data = [0x12u8, 0x34, 0x56];
    let mut reader = Reader::new(&data);
    let r = read_u32_with_byte_order(&mut reader, &ByteOrder::BigEndian);
    assert_eq!(r, Err(ParseError::UnexpectedEof));
}

#[test]
fn read_u16_both_orders() {
    let data = [0xABu8, 0xCD];
    let mut reader = Reader::new(&data);
    assert_eq!(read_u16_with_byte_order(&mut reader, &ByteOrder::BigEndian).unwrap(), 0xABCD);
    let mut reader = Reader::new(&data);
    assert_eq!(read_u16_with_byte_order(&mut reader, &ByteOrder::LittleEndian).unwrap(), 0xCDAB);
}

#[test]
fn read_u16_short_input_fails() {
    let data = [0xABu8];
    let mut reader = Reader::new(&data);
    let r = read_u16_with_byte_order(&mut reader, &ByteOrder::BigEndian);
    assert_eq!(r, Err(ParseError::UnexpectedEof));
}

#[test]
fn read_i32_negative_value() {
    let data = [0xFFu8, 0xFF, 0xFF, 0xFF];
    let mut reader = Reader::new(&data);
    assert_eq!(read_i32_with_byte_order(&mut reader, &ByteOrder::BigEndian).unwrap(), -1);
}

#[test]
fn read_i32_positive_and_boundary() {
    let data = [0x00u8, 0x00, 0x0E, 0x10];
    let mut reader = Reader::new(&data);
    assert_eq!(read_i32_with_byte_order(&mut reader, &ByteOrder::BigEndian).unwrap(), 3600);

    let data = [0x80u8, 0x00, 0x00, 0x00];
    let mut reader = Reader::new(&data);
    assert_eq!(read_i32_with_byte_order(&mut reader, &ByteOrder::BigEndian).unwrap(), i32::MIN);
}

#[test]
fn read_i32_little_endian() {
    let data = [0xF0u8, 0xF1, 0xFF, 0xFF];
    let mut reader = Reader::new(&data);
    assert_eq!(
        read_i32_with_byte_order(&mut reader, &ByteOrder::LittleEndian).unwrap(),
        -3600
    );
}

#[test]
fn reader_read_bytes_exact() {
    let data = [1u8, 2, 3, 4, 5];
    let mut reader = Reader::new(&data);
    let v = reader.read_bytes(3).unwrap();
    assert_eq!(v, vec![1, 2, 3]);
    let v = reader.read_bytes(2).unwrap();
    assert_eq!(v, vec![4, 5]);
    assert!(reader.is_empty());
}

#[test]
fn reader_read_bytes_shortfall_fails() {
    let data = [1u8, 2, 3];
    let mut reader = Reader::new(&data);
    assert_eq!(reader.read_bytes(4), Err(ParseError::UnexpectedEof));
}
