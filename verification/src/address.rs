use vstd::prelude::*;

verus! {

/// An IP address, held as its octets in network order.
#[derive(Debug, Clone, Copy, PartialEq, Eq)]
pub enum IpAddress {
    V4([u8; 4]),
    V6([u8; 16]),
}

/// What an `IpAddress` stands for: its family and its octets.
pub enum IpModel {
    V4(Seq<u8>),
    V6(Seq<u8>),
}

impl View for IpAddress {
    type V = IpModel;

    open spec fn view(&self) -> IpModel {
        match self {
            IpAddress::V4(octets) => IpModel::V4(octets@),
            IpAddress::V6(octets) => IpModel::V6(octets@),
        }
    }
}


/// A UDP endpoint: an IP address and a port, and for IPv6 also the flow
/// information and the scope identifier.
#[derive(Debug, Clone, Copy, PartialEq, Eq)]
pub enum SocketAddress {
    V4 { ip: [u8; 4], port: u16 },
    V6 { ip: [u8; 16], port: u16, flowinfo: u32, scope_id: u32 },
}

/// The endpoint `0.0.0.0:0`, which stands for "no client yet".
pub open spec fn is_initial_ip_value(addr: SocketAddress) -> bool {
    match addr {
        SocketAddress::V4 { ip, port } => ip@ == seq![0u8, 0u8, 0u8, 0u8] && port == 0,
        SocketAddress::V6 { .. } => false,
    }
}

/// Only `0.0.0.0:0` stands for "no client yet": an IPv4 endpoint is it
/// exactly when its four octets and its port are all zero, and no IPv6
/// endpoint is.
pub proof fn only_zero_endpoint_is_initial(addr: SocketAddress)
    ensures
        is_initial_ip_value(addr) <==> (addr matches SocketAddress::V4 { ip, port } && ip@[0] == 0
            && ip@[1] == 0 && ip@[2] == 0 && ip@[3] == 0 && port == 0),
{
    if let SocketAddress::V4 { ip, port } = addr {
        if ip@[0] == 0 && ip@[1] == 0 && ip@[2] == 0 && ip@[3] == 0 {
            assert(ip@ =~= seq![0u8, 0u8, 0u8, 0u8]);
        }
    }
}

/// The endpoint `0.0.0.0:0`.
pub fn initial_ip_value() -> (addr: SocketAddress)
    ensures
        is_initial_ip_value(addr),
{
    let ip: [u8; 4] = [0u8, 0u8, 0u8, 0u8];
    assert(ip@ =~= seq![0u8, 0u8, 0u8, 0u8]);
    SocketAddress::V4 { ip, port: 0 }
}

impl SocketAddress {
    /// Whether this is the endpoint `0.0.0.0:0`.
    pub fn is_initial(&self) -> (r: bool)
        ensures
            r == is_initial_ip_value(*self),
            r <==> (*self matches SocketAddress::V4 { ip, port } && ip@[0] == 0 && ip@[1] == 0
                && ip@[2] == 0 && ip@[3] == 0 && port == 0),
    {
        match self {
            SocketAddress::V4 { ip, port } => {
                let r: bool = ip[0] == 0 && ip[1] == 0 && ip[2] == 0 && ip[3] == 0 && *port == 0;
                proof {
                    if r {
                        assert(ip@ =~= seq![0u8, 0u8, 0u8, 0u8]);
                    } else if *port == 0 {
                        assert(ip@ != seq![0u8, 0u8, 0u8, 0u8]) by {
                            if ip@ == seq![0u8, 0u8, 0u8, 0u8] {
                                assert(ip@[0] == 0 && ip@[1] == 0 && ip@[2] == 0 && ip@[3] == 0);
                            }
                        }
                    }
                }
                r
            },
            SocketAddress::V6 { .. } => false,
        }
    }
}

} // verus!
