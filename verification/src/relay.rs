use vstd::prelude::*;
use crate::address::{is_initial_ip_value, SocketAddress};
use crate::errors::packet::PacketError;
use crate::packet::{
    parse_data, parse_result_view, spec_parse_data, truncated_ipv6, HeaderModel, PacketFormat,
};

verus! {

/// The size of the buffer into which a datagram from the peer is received.
pub const RECEIVE_BUFFER_SIZE: usize = 1504;

/// What to do with a packet read from the virtual interface.
#[derive(Debug, Clone, Copy, PartialEq, Eq)]
pub enum TunDecision {
    /// Send the packet, unchanged, to `to`; `header` is what its header holds.
    Forward { to: SocketAddress, header: PacketFormat },
    /// The header parsed, but no client has been heard from yet: drop it.
    AwaitClient,
    /// The header did not parse: report the error and drop the packet.
    Reject(PacketError),
}

/// What a `TunDecision` stands for.
pub enum TunDecisionModel {
    Forward { to: SocketAddress, header: HeaderModel },
    AwaitClient,
    Reject(PacketError),
}

impl View for TunDecision {
    type V = TunDecisionModel;

    open spec fn view(&self) -> TunDecisionModel {
        match self {
            TunDecision::Forward { to, header } => TunDecisionModel::Forward { to: *to, header: header@ },
            TunDecision::AwaitClient => TunDecisionModel::AwaitClient,
            TunDecision::Reject(e) => TunDecisionModel::Reject(*e),
        }
    }
}

/// What the server does with the packet `data` read from its interface while
/// `client_addr` is the client it knows.
pub open spec fn spec_route_tun_packet(data: Seq<u8>, client_addr: SocketAddress) -> TunDecisionModel {
    match spec_parse_data(data) {
        Err(e) => TunDecisionModel::Reject(e),
        Ok(header) => if is_initial_ip_value(client_addr) {
            TunDecisionModel::AwaitClient
        } else {
            TunDecisionModel::Forward { to: client_addr, header }
        },
    }
}

/// The TUN packet size of a datagram of `received` bytes, where it has one.
pub open spec fn spec_datagram_size(received: usize) -> Option<u16> {
    if received <= u16::MAX {
        Some(received as u16)
    } else {
        None
    }
}

/// The client that the server knows after a datagram of `received` bytes
/// from `from`: the sender, if the datagram fits a TUN packet.
pub open spec fn spec_client_after(client_addr: SocketAddress, received: usize, from: SocketAddress) -> SocketAddress {
    if spec_datagram_size(received) is Some {
        from
    } else {
        client_addr
    }
}

/// The TUN packet written for a datagram is exactly as long as the datagram:
/// every datagram that fits a TUN packet gets its own length as the size,
/// and its sender becomes the client.
pub proof fn datagram_size_is_its_length(
    client_addr: SocketAddress,
    received: usize,
    from: SocketAddress,
)
    ensures
        received <= 65535 ==> (spec_datagram_size(received) matches Some(s) && s as int
            == received as int),
        received > 65535 ==> spec_datagram_size(received) is None,
        received <= 65535 ==> spec_client_after(client_addr, received, from) == from,
{
}

/// Every client other than `0.0.0.0:0` gets the packets whose header parses:
/// an IPv4 client with a nonzero octet or port, and every IPv6 client.
pub proof fn forwards_to_every_known_client(data: Seq<u8>, client_addr: SocketAddress)
    requires
        spec_parse_data(data) is Ok,
        match client_addr {
            SocketAddress::V4 { ip, port } => ip@[0] != 0 || ip@[1] != 0 || ip@[2] != 0 || ip@[3]
                != 0 || port != 0,
            SocketAddress::V6 { .. } => true,
        },
    ensures
        spec_route_tun_packet(data, client_addr) == (TunDecisionModel::Forward {
            to: client_addr,
            header: spec_parse_data(data)->Ok_0,
        }),
{
    crate::address::only_zero_endpoint_is_initial(client_addr);
}

/// Until a client has been heard from, no packet read from the interface is
/// forwarded.
pub proof fn no_forwarding_before_a_client(data: Seq<u8>, client_addr: SocketAddress)
    requires
        is_initial_ip_value(client_addr),
    ensures
        !(spec_route_tun_packet(data, client_addr) is Forward),
        spec_parse_data(data) is Ok ==> spec_route_tun_packet(data, client_addr) is AwaitClient,
{
}

/// A packet whose header does not parse is rejected with the error that
/// parsing gives, whatever client is known.
pub proof fn unparsable_packet_is_rejected(data: Seq<u8>, client_addr: SocketAddress)
    requires
        spec_parse_data(data) is Err,
    ensures
        spec_route_tun_packet(data, client_addr) == TunDecisionModel::Reject(
            spec_parse_data(data)->Err_0,
        ),
{
}

/// After a datagram from `from`, every packet whose header parses is
/// forwarded to `from`, with the header that parsing gives.
pub proof fn replies_go_to_latest_sender(
    data: Seq<u8>,
    client_addr: SocketAddress,
    received: usize,
    from: SocketAddress,
)
    requires
        received <= u16::MAX,
        !is_initial_ip_value(from),
        spec_parse_data(data) is Ok,
    ensures
        spec_route_tun_packet(data, spec_client_after(client_addr, received, from))
            == (TunDecisionModel::Forward { to: from, header: spec_parse_data(data)->Ok_0 }),
{
}

/// The server remembers only the most recent client: of two datagrams, the
/// sender of the second is the client afterwards.
pub proof fn latest_sender_wins(
    client_addr: SocketAddress,
    first_received: usize,
    first_from: SocketAddress,
    received: usize,
    from: SocketAddress,
)
    requires
        received <= u16::MAX,
    ensures
        spec_client_after(spec_client_after(client_addr, first_received, first_from), received, from)
            == from,
{
}

/// A datagram too large for a TUN packet leaves the known client unchanged.
pub proof fn oversized_datagram_keeps_client(
    client_addr: SocketAddress,
    received: usize,
    from: SocketAddress,
)
    requires
        received > u16::MAX,
    ensures
        spec_client_after(client_addr, received, from) == client_addr,
        spec_datagram_size(received) is None,
{
}

/// Replaces the client address that the server answers.
pub fn update_addr(pointer: &mut SocketAddress, new_addr: SocketAddress)
    ensures
        *final(pointer) == new_addr,
{
    *pointer = new_addr;
}

/// The size of the TUN packet that carries a datagram of `received` bytes;
/// `None` where that many bytes do not fit a TUN packet.
pub fn datagram_size(received: usize) -> (size: Option<u16>)
    ensures
        size == spec_datagram_size(received),
        size is Some <==> received <= 65535,
        size matches Some(s) ==> s as int == received as int,
{
    if received <= 0xFFFF {
        Some(received as u16)
    } else {
        None
    }
}

/// The server's step for a datagram of `received` bytes from `from`: the
/// size of the TUN packet to write, and the sender becomes the client, who
/// gets the replies. A datagram too large for a TUN packet changes nothing.
pub fn accept_datagram(client_addr: &mut SocketAddress, received: usize, from: SocketAddress) -> (size: Option<u16>)
    ensures
        size == spec_datagram_size(received),
        *final(client_addr) == spec_client_after(*old(client_addr), received, from),
        received <= 65535 ==> size == Some(received as u16) && *final(client_addr) == from,
        received > 65535 ==> size is None && *final(client_addr) == *old(client_addr),
{
    let size: Option<u16> = datagram_size(received);
    if size.is_some() {
        update_addr(client_addr, from);
    }
    size
}

/// The server's step for a packet read from its interface: forward it to
/// the known client if its header parses, drop it while no client is known,
/// and reject it if its header does not parse.
pub fn route_tun_packet(data: &[u8], client_addr: &SocketAddress) -> (decision: TunDecision)
    requires
        !truncated_ipv6(data@),
    ensures
        decision@ == spec_route_tun_packet(data@, *client_addr),
        decision matches TunDecision::Forward { to, header } ==> to == *client_addr
            && parse_result_view(Ok(header)) == spec_parse_data(data@),
        decision matches TunDecision::Reject(e) ==> spec_parse_data(data@) == Err::<HeaderModel, PacketError>(e),
        decision is AwaitClient ==> is_initial_ip_value(*client_addr) && spec_parse_data(data@) is Ok,
        !is_initial_ip_value(*client_addr) && spec_parse_data(data@) is Ok ==> decision is Forward,
{
    let parsed: Result<PacketFormat, PacketError> = parse_data(data);
    assert(parse_result_view(parsed) == spec_parse_data(data@));
    match parsed {
        Err(e) => TunDecision::Reject(e),
        Ok(header) => {
            if client_addr.is_initial() {
                TunDecision::AwaitClient
            } else {
                TunDecision::Forward { to: *client_addr, header }
            }
        },
    }
}

} // verus!
