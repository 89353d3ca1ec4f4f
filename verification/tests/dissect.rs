//! Tests for the protocol-dissection cascade.

use pcapa::error::ParseError;
use pcapa::pcap::accuracy::Accuracy;
use pcapa::pcap::byte_order::ByteOrder;
use pcapa::pcap::global_header::GlobalHeader;
use pcapa::pcap::network::LinkType;
use pcapa::pcap::time_zone::TimeZone;
use pcapa::protocol::ethernet;
use pcapa::protocol::ethernet::EtherType;
use pcapa::protocol::ipv4;
use pcapa::protocol::parse::parse;
use pcapa::protocol::Protocol;

fn ethernet_global_header(byte_order: ByteOrder) -> GlobalHeader {
    GlobalHeader {
        byte_order,
        version_major: 2,
        version_minor: 4,
        time_zone: TimeZone::Utc,
        accuracy: Accuracy::Accurate,
        max_bytes: 65535,
        network: LinkType::Ethernet,
    }
}

/// A 14-byte Ethernet header with the given big-endian EtherType bytes,
/// followed by `rest`.
fn ethernet_frame(ether_type: [u8; 2], rest: &[u8]) -> Vec<u8> {
    let mut v = vec![0x00u8, 0x11, 0x22, 0x33, 0x44, 0x55];
    v.extend_from_slice(&[0x66, 0x77, 0x88, 0x99, 0xAA, 0xBB]);
    v.extend_from_slice(&ether_type);
    v.extend_from_slice(rest);
    v
}

/// A 20-byte IHL=5 IPv4 header: TTL 64, protocol 6, fragment flags
/// "don't fragment".
fn ipv4_header_bytes() -> Vec<u8> {
    vec![
        0x45, 0x00, // version/IHL, DSF
        0x00, 0x28, // total length 40
        0x12, 0x34, // identification
        0x40, 0x00, // flags: don't fragment; offset 0
        0x40, 0x06, // TTL 64, protocol TCP (6)
        0xAB, 0xCD, // checksum
        10, 0, 0, 1, // source
        10, 0, 0, 2, // destination
    ]
}

#[test]
fn ethernet_then_ipv4() {
    let payload = ethernet_frame([0x08, 0x00], &ipv4_header_bytes());
    let gh = ethernet_global_header(ByteOrder::BigEndian);
    let protocols = parse(&payload, &gh).unwrap();
    assert_eq!(protocols.len(), 2);
    match &protocols[0] {
        Protocol::Ethernet(h) => {
            assert_eq!(h.destination_mac.bytes, [0x00, 0x11, 0x22, 0x33, 0x44, 0x55]);
            assert_eq!(h.source_mac.bytes, [0x66, 0x77, 0x88, 0x99, 0xAA, 0xBB]);
            assert_eq!(h.ether_type, EtherType::IPv4);
        },
        other => panic!("expected Ethernet, got {:?}", other),
    }
    match &protocols[1] {
        Protocol::IPv4(h) => {
            assert_eq!(h.version, ipv4::Version::V4);
            assert_eq!(h.ihl, 5);
            assert_eq!(h.dsf, 0);
            assert_eq!(h.total_length, 40);
            assert_eq!(h.identification, 0x1234);
            assert_eq!(h.flags, vec![ipv4::Flag::DontFragment]);
            assert_eq!(h.fragment_offset, 0);
            assert_eq!(h.ttl, 64);
            assert_eq!(h.protocol, 6);
            assert_eq!(h.checksum, 0xABCD);
            assert_eq!(h.source.address, [10, 0, 0, 1]);
            assert_eq!(h.destination.address, [10, 0, 0, 2]);
        },
        other => panic!("expected IPv4, got {:?}", other),
    }
}

#[test]
fn little_endian_swaps_ether_type_bytes() {
    // In a little-endian capture the two EtherType bytes are read in
    // swapped order, so 0x00 0x08 means IPv4.
    let payload = ethernet_frame([0x00, 0x08], &ipv4_header_bytes());
    let gh = ethernet_global_header(ByteOrder::LittleEndian);
    let protocols = parse(&payload, &gh).unwrap();
    assert_eq!(protocols.len(), 2);
    match &protocols[0] {
        Protocol::Ethernet(h) => assert_eq!(h.ether_type, EtherType::IPv4),
        other => panic!("expected Ethernet, got {:?}", other),
    }
}

#[test]
fn short_payload_dissects_to_nothing() {
    let payload = [0u8; 13];
    let gh = ethernet_global_header(ByteOrder::BigEndian);
    let protocols = parse(&payload, &gh).unwrap();
    assert!(protocols.is_empty());
}

#[test]
fn ipv6_ether_type_stops_after_ethernet() {
    let payload = ethernet_frame([0x86, 0xDD], &[0u8; 40]);
    let gh = ethernet_global_header(ByteOrder::BigEndian);
    let protocols = parse(&payload, &gh).unwrap();
    assert_eq!(protocols.len(), 1);
    match &protocols[0] {
        Protocol::Ethernet(h) => assert_eq!(h.ether_type, EtherType::IPv6),
        other => panic!("expected Ethernet, got {:?}", other),
    }
}

#[test]
fn unknown_ether_type_is_preserved() {
    let payload = ethernet_frame([0x12, 0x34], &[]);
    let gh = ethernet_global_header(ByteOrder::BigEndian);
    let protocols = parse(&payload, &gh).unwrap();
    assert_eq!(protocols.len(), 1);
    match &protocols[0] {
        Protocol::Ethernet(h) => assert_eq!(h.ether_type, EtherType::Unsupported(0x1234)),
        other => panic!("expected Ethernet, got {:?}", other),
    }
}

#[test]
fn bad_ihl_keeps_ethernet_only() {
    let mut ip = ipv4_header_bytes();
    ip[0] = 0x46; // IHL 6: options are not supported
    let payload = ethernet_frame([0x08, 0x00], &ip);
    let gh = ethernet_global_header(ByteOrder::BigEndian);
    let protocols = parse(&payload, &gh).unwrap();
    assert_eq!(protocols.len(), 1);
    assert!(matches!(protocols[0], Protocol::Ethernet(_)));
}

#[test]
fn truncated_ipv4_keeps_ethernet_only() {
    let payload = ethernet_frame([0x08, 0x00], &[0x45u8, 0, 0]);
    let gh = ethernet_global_header(ByteOrder::BigEndian);
    let protocols = parse(&payload, &gh).unwrap();
    assert_eq!(protocols.len(), 1);
    assert!(matches!(protocols[0], Protocol::Ethernet(_)));
}

#[test]
fn unsupported_link_type_is_a_hard_stop() {
    let payload = ethernet_frame([0x08, 0x00], &ipv4_header_bytes());
    let mut gh = ethernet_global_header(ByteOrder::BigEndian);
    gh.network = LinkType::Unsupported(101);
    assert_eq!(parse(&payload, &gh), Err(ParseError::UnsupportedLinkType(101)));
}

#[test]
fn dissection_is_deterministic() {
    let payload = ethernet_frame([0x08, 0x00], &ipv4_header_bytes());
    let gh = ethernet_global_header(ByteOrder::BigEndian);
    let first = parse(&payload, &gh).unwrap();
    let second = parse(&payload, &gh).unwrap();
    assert_eq!(first, second);
}

#[test]
fn ethernet_parse_reports_short_data() {
    let r = ethernet::parse(&[0u8; 5], &ByteOrder::BigEndian);
    assert_eq!(r.unwrap_err(), ParseError::InvalidData);
}

#[test]
fn ipv4_parse_reports_bad_ihl() {
    let mut ip = ipv4_header_bytes();
    ip[0] = 0x47;
    let r = ipv4::parse(&ip);
    assert_eq!(r.unwrap_err(), ParseError::InvalidData);
}

#[test]
fn ethernet_header_size_is_fourteen() {
    assert_eq!(ethernet::Header::size(), 14);
}

#[test]
fn mac_address_and_ipv4_address_hold_their_bytes() {
    let mac = ethernet::MacAddress::new([1, 2, 3, 4, 5, 6]);
    assert_eq!(mac.bytes, [1, 2, 3, 4, 5, 6]);
    let addr = ipv4::Address::new([192, 168, 0, 1]);
    assert_eq!(addr.address, [192, 168, 0, 1]);
}

#[test]
fn ipv4_all_flag_bits_in_order() {
    let mut ip = ipv4_header_bytes();
    ip[6] = 0xFF; // all three flag bits set, offset bits too
    ip[7] = 0xFF;
    let r = ipv4::parse(&ip).unwrap();
    assert_eq!(
        r.flags,
        vec![ipv4::Flag::Reserved, ipv4::Flag::DontFragment, ipv4::Flag::MoreFragments]
    );
    assert_eq!(r.fragment_offset, 0x1FFF);
}
