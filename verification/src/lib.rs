//! Header parsing, error types and forwarding decisions of a small UDP tunnel
//! that bridges two virtual network interfaces.

pub mod address;
pub mod errors;
pub mod packet;
pub mod relay;

use vstd::prelude::*;
use crate::address::{IpAddress, IpModel};
use crate::packet::{spec_ip_version, spec_parse_data, spec_parse_protocol, MINIMUM_PACKET_SIZE};

verus! {

/// The addresses and raw protocol number of an IPv4 packet.
#[derive(Debug, Clone, Copy, PartialEq, Eq)]
pub struct Packet {
    pub ip_origin: IpAddress,
    pub ip_destination: IpAddress,
    pub protocol: u8,
}

/// What a `Packet` stands for.
pub struct PacketModel {
    pub origin: IpModel,
    pub destination: IpModel,
    pub protocol: u8,
}

impl View for Packet {
    type V = PacketModel;

    open spec fn view(&self) -> PacketModel {
        PacketModel {
            origin: self.ip_origin@,
            destination: self.ip_destination@,
            protocol: self.protocol,
        }
    }
}

/// What `parse_data` gives: the IPv4 header fields, and nothing for a
/// packet that is too short or of another version.
pub open spec fn spec_parse_packet(data: Seq<u8>) -> Option<PacketModel> {
    if data.len() >= MINIMUM_PACKET_SIZE && spec_ip_version(data) == 4 {
        Some(PacketModel {
            origin: IpModel::V4(data.subrange(12, 16)),
            destination: IpModel::V4(data.subrange(16, 20)),
            protocol: data[9],
        })
    } else {
        None
    }
}

/// An IPv6 packet of at least the least header size: its destination is
/// read as seventeen bytes, which no IPv6 address has.
pub open spec fn ipv6_with_header(data: Seq<u8>) -> bool {
    data.len() >= MINIMUM_PACKET_SIZE && spec_ip_version(data) == 6
}

/// Whether `data` is an IPv6 packet of at least the least header size,
/// which `parse_data` cannot read.
pub fn is_ipv6_with_header(data: &[u8]) -> (r: bool)
    ensures
        r == ipv6_with_header(data@),
{
    if data.len() < MINIMUM_PACKET_SIZE {
        return false;
    }
    let first: u8 = data[0];
    assert((first >> 4u8) & 0xFu8 == first / 16) by (bit_vector);
    (first >> 4) & 0xF == 6
}

/// Reads the addresses and the protocol number of an IPv4 packet; a packet
/// shorter than `MINIMUM_PACKET_SIZE`, or of a version other than 4 and 6,
/// gives `None`.
pub fn parse_data(data: &[u8]) -> (result: Option<Packet>)
    requires
        !ipv6_with_header(data@),
    ensures
        match result {
            Some(p) => spec_parse_packet(data@) == Some(p@),
            None => spec_parse_packet(data@) is None,
        },
        result is Some <==> data@.len() >= 20 && data@[0] / 16 == 4,
        result matches Some(p) ==> {
            &&& p.ip_origin@ == IpModel::V4(data@.subrange(12, 16))
            &&& p.ip_destination@ == IpModel::V4(data@.subrange(16, 20))
            &&& p.protocol == data@[9]
        },
{
    if data.len() < MINIMUM_PACKET_SIZE {
        return None;
    }
    let first: u8 = data[0];
    assert((first >> 4u8) & 0xFu8 == first / 16) by (bit_vector);
    let ip_version: u8 = (first >> 4) & 0xF;
    if ip_version == 4 {
        let origin: [u8; 4] = [data[12], data[13], data[14], data[15]];
        let destination: [u8; 4] = [data[16], data[17], data[18], data[19]];
        assert(origin@ =~= data@.subrange(12, 16));
        assert(destination@ =~= data@.subrange(16, 20));
        Some(Packet {
            ip_origin: IpAddress::V4(origin),
            ip_destination: IpAddress::V4(destination),
            protocol: data[9],
        })
    } else {
        None
    }
}


/// An IPv4 packet of at least twenty bytes gives its source address from
/// bytes 12..16 and its destination from bytes 16..20, octet for octet in
/// order, and byte 9 as its protocol number; every other packet gives
/// nothing.
pub proof fn ipv4_packet_is_read_from_its_bytes(data: Seq<u8>)
    ensures
        data.len() >= 20 && data[0] / 16 == 4 ==> spec_parse_packet(data) == Some(
            PacketModel {
                origin: IpModel::V4(seq![data[12], data[13], data[14], data[15]]),
                destination: IpModel::V4(seq![data[16], data[17], data[18], data[19]]),
                protocol: data[9],
            },
        ),
        !(data.len() >= 20 && data[0] / 16 == 4) ==> spec_parse_packet(data) is None,
{
    if data.len() >= 20 {
        assert(data.subrange(12, 16) =~= seq![data[12], data[13], data[14], data[15]]);
        assert(data.subrange(16, 20) =~= seq![data[16], data[17], data[18], data[19]]);
    }
}

/// The packets that `parse_data` cannot read are exactly the IPv6 packets of
/// at least twenty bytes.
pub proof fn ipv6_with_header_is_twenty_bytes_or_more(data: Seq<u8>)
    ensures
        ipv6_with_header(data) <==> (data.len() >= 20 && data[0] / 16 == 6),
{
}

/// The two parsers agree: `parse_data` gives a packet exactly where
/// `packet::parse_data` succeeds, with the same addresses, and the protocol
/// number it keeps names the protocol that `packet::parse_data` reports.
pub proof fn parsers_agree(data: Seq<u8>)
    requires
        !ipv6_with_header(data),
    ensures
        spec_parse_packet(data) is Some <==> spec_parse_data(data) is Ok,
        spec_parse_packet(data) is Some ==> {
            let p = spec_parse_packet(data)->Some_0;
            let h = spec_parse_data(data)->Ok_0;
            &&& h.origin == p.origin
            &&& h.destination == p.destination
            &&& h.protocol == spec_parse_protocol(p.protocol)
        },
{
}

} // verus!
