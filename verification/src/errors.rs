//! The error types of each layer, and the error that gathers them.

pub mod crypto;
pub mod network;
pub mod packet;
pub mod tun;

use vstd::prelude::*;
use crate::errors::crypto::CryptoError;
use crate::errors::network::NetworkError;
use crate::errors::packet::PacketError;
use crate::errors::tun::TunError;

verus! {

/// Any error of the tunnel, by the layer it comes from.
#[derive(Debug)]
pub enum VpnError {
    Packet(PacketError),
    Network(NetworkError),
    Crypto(CryptoError),
    Tun(TunError),
}

impl From<PacketError> for VpnError {
    fn from(e: PacketError) -> (r: VpnError) {
        VpnError::Packet(e)
    }
}

impl vstd::std_specs::convert::FromSpecImpl<PacketError> for VpnError {
    open spec fn obeys_from_spec() -> bool {
        true
    }

    open spec fn from_spec(e: PacketError) -> VpnError {
        VpnError::Packet(e)
    }
}

impl From<NetworkError> for VpnError {
    fn from(e: NetworkError) -> (r: VpnError) {
        VpnError::Network(e)
    }
}

impl vstd::std_specs::convert::FromSpecImpl<NetworkError> for VpnError {
    open spec fn obeys_from_spec() -> bool {
        true
    }

    open spec fn from_spec(e: NetworkError) -> VpnError {
        VpnError::Network(e)
    }
}

impl From<CryptoError> for VpnError {
    fn from(e: CryptoError) -> (r: VpnError) {
        VpnError::Crypto(e)
    }
}

impl vstd::std_specs::convert::FromSpecImpl<CryptoError> for VpnError {
    open spec fn obeys_from_spec() -> bool {
        true
    }

    open spec fn from_spec(e: CryptoError) -> VpnError {
        VpnError::Crypto(e)
    }
}

impl From<TunError> for VpnError {
    fn from(e: TunError) -> (r: VpnError) {
        VpnError::Tun(e)
    }
}

impl vstd::std_specs::convert::FromSpecImpl<TunError> for VpnError {
    open spec fn obeys_from_spec() -> bool {
        true
    }

    open spec fn from_spec(e: TunError) -> VpnError {
        VpnError::Tun(e)
    }
}

} // verus!
