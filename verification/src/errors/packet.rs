use vstd::prelude::*;

verus! {

/// Why a packet read from the virtual interface was refused.
#[derive(Debug, Clone, Copy, PartialEq, Eq)]
pub enum PacketError {
    /// The packet's length and the least length a header needs.
    TooShort(usize, usize),
    /// The version nibble of the first byte, when it is neither 4 nor 6.
    UnknownIpVersion(u8),
    UnknownProtocol(u8),
    InvalidChecksum,
    /// The size that the header declares and the real size.
    LengthMismatch(usize, usize),
}

} // verus!
