use vpn_core::address::{initial_ip_value, IpAddress, SocketAddress};
use vpn_core::errors::packet::PacketError;
use vpn_core::packet::{PacketFormat, Protocol};
use vpn_core::relay::{
    accept_datagram, datagram_size, route_tun_packet, update_addr, TunDecision,
    RECEIVE_BUFFER_SIZE,
};

fn ipv4_packet() -> Vec<u8> {
    vec![
        0x45, 0x00, 0x00, 0x54, 0x12, 0x34, 0x40, 0x00, 0x40, 17, 0x00, 0x00, 10, 0, 0, 10, 10, 0,
        0, 9,
    ]
}

fn peer(port: u16) -> SocketAddress {
    SocketAddress::V4 { ip: [192, 168, 1, 7], port }
}

#[test]
fn initial_value_is_unset() {
    assert_eq!(initial_ip_value(), SocketAddress::V4 { ip: [0, 0, 0, 0], port: 0 });
    assert!(initial_ip_value().is_initial());
    assert!(!peer(0).is_initial());
    assert!(!SocketAddress::V4 { ip: [0, 0, 0, 0], port: 1 }.is_initial());
    assert!(!SocketAddress::V6 { ip: [0; 16], port: 0, flowinfo: 0, scope_id: 0 }.is_initial());
}

#[test]
fn update_addr_replaces() {
    let mut slot = initial_ip_value();
    update_addr(&mut slot, peer(4000));
    assert_eq!(slot, peer(4000));
}

#[test]
fn no_forwarding_before_client() {
    let decision = route_tun_packet(&ipv4_packet(), &initial_ip_value());
    assert_eq!(decision, TunDecision::AwaitClient);
}

#[test]
fn forwards_to_latest_sender() {
    let mut client = initial_ip_value();
    assert_eq!(accept_datagram(&mut client, 84, peer(4000)), Some(84));
    assert_eq!(accept_datagram(&mut client, 60, peer(5000)), Some(60));
    assert_eq!(client, peer(5000));
    assert_eq!(
        route_tun_packet(&ipv4_packet(), &client),
        TunDecision::Forward {
            to: peer(5000),
            header: PacketFormat {
                ip_origin: IpAddress::V4([10, 0, 0, 10]),
                ip_destination: IpAddress::V4([10, 0, 0, 9]),
                protocol: Protocol::UDP,
            },
        }
    );
}

#[test]
fn invalid_packet_is_rejected() {
    assert_eq!(
        route_tun_packet(&[0x45; 5], &peer(1)),
        TunDecision::Reject(PacketError::TooShort(5, 20))
    );
    let mut data = ipv4_packet();
    data[0] = 0x35;
    assert_eq!(route_tun_packet(&data, &peer(1)), TunDecision::Reject(PacketError::UnknownIpVersion(3)));
}

#[test]
fn datagram_sizes() {
    assert_eq!(datagram_size(0), Some(0));
    assert_eq!(datagram_size(RECEIVE_BUFFER_SIZE), Some(1504));
    assert_eq!(datagram_size(65535), Some(65535));
    assert_eq!(datagram_size(65536), None);
}

#[test]
fn oversized_datagram_keeps_client() {
    let mut client = peer(4000);
    assert_eq!(accept_datagram(&mut client, 70000, peer(9)), None);
    assert_eq!(client, peer(4000));
}
