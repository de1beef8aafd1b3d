use vpn_core::errors::crypto::CryptoError;
use vpn_core::errors::network::NetworkError;
use vpn_core::errors::packet::PacketError;
use vpn_core::errors::tun::TunError;
use vpn_core::errors::VpnError;

#[test]
fn packet_error_converts() {
    let e: VpnError = PacketError::TooShort(3, 20).into();
    assert!(matches!(e, VpnError::Packet(PacketError::TooShort(3, 20))));
}

#[test]
fn other_errors_convert() {
    let e: VpnError = CryptoError::InvalidKeySize { actual: 16, expected: 32 }.into();
    assert!(matches!(e, VpnError::Crypto(CryptoError::InvalidKeySize { actual: 16, expected: 32 })));
    let e: VpnError = TunError::SessionStartFailed("busy".to_string()).into();
    match e {
        VpnError::Tun(TunError::SessionStartFailed(reason)) => assert_eq!(reason, "busy"),
        _ => panic!("wrong variant"),
    }
    let e: VpnError = NetworkError::ConnectFailed { addr: "127.0.0.1:12345".to_string() }.into();
    assert!(matches!(e, VpnError::Network(NetworkError::ConnectFailed { .. })));
}
