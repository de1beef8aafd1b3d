use vstd::prelude::*;
use crate::address::IpAddress;

verus! {

/// `std::io::Error`, carried as the cause of a failed bind; nothing here
/// looks inside it.
#[verifier::external_type_specification]
#[verifier::external_body]
pub struct ExIoError(std::io::Error);

/// Failures of the UDP transport.
#[derive(Debug)]
#[allow(inconsistent_fields)]
pub enum NetworkError {
    BindFailed { addr: IpAddress, source: std::io::Error },
    ConnectFailed { addr: String },
    SendFailed,
    ReceiveTimeout,
    UnknownPeer,
    InvalidAddress(String),
}

} // verus!
