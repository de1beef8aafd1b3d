use vstd::prelude::*;

verus! {

/// Failures of the virtual network interface.
#[derive(Debug, PartialEq, Eq)]
pub enum TunError {
    DllNotFound,
    AdapterCreationFailed { name: String, reason: String },
    SessionStartFailed(String),
    PacketAllocationFailed(String),
    IpConfigFailed { adapter: String, reason: String },
    SessionClosed,
}

} // verus!
