use vpn_core::address::IpAddress;
use vpn_core::errors::packet::PacketError;
use vpn_core::packet::{parse_data, parse_protocol, PacketFormat, Protocol, MINIMUM_PACKET_SIZE};
use vpn_core::Packet;

fn ipv4_packet(protocol: u8) -> Vec<u8> {
    vec![
        0x45, 0x00, 0x00, 0x54, 0x12, 0x34, 0x40, 0x00, 0x40, protocol, 0x00, 0x00, 10, 0, 0, 9,
        10, 0, 0, 10,
    ]
}

fn ipv6_packet(next_header: u8) -> Vec<u8> {
    let mut data = vec![0x60, 0x00, 0x00, 0x00, 0x00, 0x20, next_header, 0x40];
    data.extend_from_slice(&[0xfe, 0x80, 0, 0, 0, 0, 0, 0, 0, 0, 0, 0, 0, 0, 0, 1]);
    data.extend_from_slice(&[0xfe, 0x80, 0, 0, 0, 0, 0, 0, 0, 0, 0, 0, 0, 0, 0, 2]);
    data
}

#[test]
fn parses_ipv4_header() {
    let data = ipv4_packet(6);
    let parsed = parse_data(&data).unwrap();
    assert_eq!(
        parsed,
        PacketFormat {
            ip_origin: IpAddress::V4([10, 0, 0, 9]),
            ip_destination: IpAddress::V4([10, 0, 0, 10]),
            protocol: Protocol::TCP,
        }
    );
}

#[test]
fn parses_ipv6_header() {
    let data = ipv6_packet(58);
    let parsed = parse_data(&data).unwrap();
    let mut origin = [0u8; 16];
    origin[0] = 0xfe;
    origin[1] = 0x80;
    origin[15] = 1;
    let mut destination = origin;
    destination[15] = 2;
    assert_eq!(parsed.ip_origin, IpAddress::V6(origin));
    assert_eq!(parsed.ip_destination, IpAddress::V6(destination));
    assert_eq!(parsed.protocol, Protocol::ICMPv6);
}

#[test]
fn short_packet_is_too_short() {
    assert_eq!(parse_data(&[]), Err(PacketError::TooShort(0, 20)));
    assert_eq!(parse_data(&[0x45; 19]), Err(PacketError::TooShort(19, MINIMUM_PACKET_SIZE)));
}

#[test]
fn unknown_version_is_reported() {
    let mut data = ipv4_packet(17);
    data[0] = 0x55;
    assert_eq!(parse_data(&data), Err(PacketError::UnknownIpVersion(5)));
    data[0] = 0x0f;
    assert_eq!(parse_data(&data), Err(PacketError::UnknownIpVersion(0)));
}

#[test]
fn payload_does_not_change_header() {
    let data = ipv4_packet(17);
    let mut longer = data.clone();
    longer.extend_from_slice(&[1, 2, 3, 4, 5, 6, 7, 8]);
    assert_eq!(parse_data(&data), parse_data(&longer));
    let data6 = ipv6_packet(6);
    let mut longer6 = data6.clone();
    longer6.extend_from_slice(&[9; 100]);
    assert_eq!(parse_data(&data6), parse_data(&longer6));
}

#[test]
fn protocol_numbers() {
    let named = [
        (1, Protocol::ICMP),
        (2, Protocol::IGMP),
        (6, Protocol::TCP),
        (17, Protocol::UDP),
        (41, Protocol::IPv6),
        (47, Protocol::GRE),
        (50, Protocol::ESP),
        (51, Protocol::AH),
        (58, Protocol::ICMPv6),
        (89, Protocol::OSPF),
    ];
    for (number, protocol) in named {
        assert_eq!(parse_protocol(number), protocol);
    }
    assert_eq!(parse_protocol(0), Protocol::Unknown(0));
    assert_eq!(parse_protocol(255), Protocol::Unknown(255));
}

#[test]
fn protocol_parse_is_injective() {
    for a in 0..=255u8 {
        for b in 0..=255u8 {
            if a != b {
                assert_ne!(parse_protocol(a), parse_protocol(b));
            }
        }
    }
}

#[test]
fn root_parser_reads_ipv4() {
    let data = ipv4_packet(1);
    assert_eq!(
        vpn_core::parse_data(&data),
        Some(Packet {
            ip_origin: IpAddress::V4([10, 0, 0, 9]),
            ip_destination: IpAddress::V4([10, 0, 0, 10]),
            protocol: 1,
        })
    );
}

#[test]
fn root_parser_refuses_short_and_unknown() {
    assert_eq!(vpn_core::parse_data(&[0x45; 10]), None);
    let mut data = ipv4_packet(1);
    data[0] = 0x75;
    assert_eq!(vpn_core::parse_data(&data), None);
    // an IPv6 packet shorter than the least header size is too short
    assert_eq!(vpn_core::parse_data(&[0x60; 19]), None);
}

#[test]
fn parsers_agree_on_ipv4() {
    for protocol in [1u8, 6, 17, 200] {
        let data = ipv4_packet(protocol);
        let packet = vpn_core::parse_data(&data).unwrap();
        let format = parse_data(&data).unwrap();
        assert_eq!(packet.ip_origin, format.ip_origin);
        assert_eq!(packet.ip_destination, format.ip_destination);
        assert_eq!(parse_protocol(packet.protocol), format.protocol);
    }
}
