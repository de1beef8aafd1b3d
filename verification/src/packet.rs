use vstd::prelude::*;
use crate::address::{IpAddress, IpModel};
use crate::errors::packet::PacketError;

verus! {

/// The transport protocol that an IP header names, by its assigned number.
#[derive(Debug, Clone, Copy, PartialEq, Eq)]
pub enum Protocol {
    ICMP,
    IGMP,
    TCP,
    UDP,
    IPv6,
    GRE,
    ESP,
    AH,
    ICMPv6,
    OSPF,
    Unknown(u8),
}

/// The protocol named by an assigned protocol number.
pub open spec fn spec_parse_protocol(protocol: u8) -> Protocol {
    if protocol == 1 {
        Protocol::ICMP
    } else if protocol == 2 {
        Protocol::IGMP
    } else if protocol == 6 {
        Protocol::TCP
    } else if protocol == 17 {
        Protocol::UDP
    } else if protocol == 41 {
        Protocol::IPv6
    } else if protocol == 47 {
        Protocol::GRE
    } else if protocol == 50 {
        Protocol::ESP
    } else if protocol == 51 {
        Protocol::AH
    } else if protocol == 58 {
        Protocol::ICMPv6
    } else if protocol == 89 {
        Protocol::OSPF
    } else {
        Protocol::Unknown(protocol)
    }
}

/// The protocol numbers that have a name of their own in `Protocol`.
pub open spec fn is_named_protocol_number(n: u8) -> bool {
    n == 1 || n == 2 || n == 6 || n == 17 || n == 41 || n == 47 || n == 50 || n == 51 || n == 58
        || n == 89
}

/// Maps a protocol number to its named protocol; numbers without a name
/// are kept in `Protocol::Unknown`.
pub fn parse_protocol(protocol: u8) -> (result: Protocol)
    ensures
        result == spec_parse_protocol(protocol),
        protocol == 1 ==> result == Protocol::ICMP,
        protocol == 6 ==> result == Protocol::TCP,
        protocol == 17 ==> result == Protocol::UDP,
        !is_named_protocol_number(protocol) ==> result == Protocol::Unknown(protocol),
{
    match protocol {
        1 => Protocol::ICMP,
        2 => Protocol::IGMP,
        6 => Protocol::TCP,
        17 => Protocol::UDP,
        41 => Protocol::IPv6,
        47 => Protocol::GRE,
        50 => Protocol::ESP,
        51 => Protocol::AH,
        58 => Protocol::ICMPv6,
        89 => Protocol::OSPF,
        other => Protocol::Unknown(other),
    }
}


/// The least number of bytes that a packet must have to be parsed.
pub const MINIMUM_PACKET_SIZE: usize = 20;

/// The addresses and protocol read from the header of an IP packet.
#[derive(Debug, Clone, Copy, PartialEq, Eq)]
pub struct PacketFormat {
    pub ip_origin: IpAddress,
    pub ip_destination: IpAddress,
    pub protocol: Protocol,
}

/// What a `PacketFormat` stands for.
pub struct HeaderModel {
    pub origin: IpModel,
    pub destination: IpModel,
    pub protocol: Protocol,
}

impl View for PacketFormat {
    type V = HeaderModel;

    open spec fn view(&self) -> HeaderModel {
        HeaderModel {
            origin: self.ip_origin@,
            destination: self.ip_destination@,
            protocol: self.protocol,
        }
    }
}

/// The version nibble: the high four bits of the first byte.
pub open spec fn spec_ip_version(data: Seq<u8>) -> u8 {
    data[0] / 16
}

/// The header that an IPv4 packet names: source and destination at bytes
/// 12..16 and 16..20, the protocol at byte 9.
pub open spec fn ipv4_header(data: Seq<u8>) -> HeaderModel {
    HeaderModel {
        origin: IpModel::V4(data.subrange(12, 16)),
        destination: IpModel::V4(data.subrange(16, 20)),
        protocol: spec_parse_protocol(data[9]),
    }
}

/// The header that an IPv6 packet names: source and destination at bytes
/// 8..24 and 24..40, the next header at byte 6.
pub open spec fn ipv6_header(data: Seq<u8>) -> HeaderModel {
    HeaderModel {
        origin: IpModel::V6(data.subrange(8, 24)),
        destination: IpModel::V6(data.subrange(24, 40)),
        protocol: spec_parse_protocol(data[6]),
    }
}

/// What parsing `data` gives.
pub open spec fn spec_parse_data(data: Seq<u8>) -> Result<HeaderModel, PacketError> {
    if data.len() < MINIMUM_PACKET_SIZE {
        Err(PacketError::TooShort(data.len() as usize, MINIMUM_PACKET_SIZE))
    } else if spec_ip_version(data) == 4 {
        Ok(ipv4_header(data))
    } else if spec_ip_version(data) == 6 {
        Ok(ipv6_header(data))
    } else {
        Err(PacketError::UnknownIpVersion(spec_ip_version(data)))
    }
}

/// An IPv6 packet that is long enough for the least header size but too
/// short to hold both of its addresses: the header reads past its end.
pub open spec fn truncated_ipv6(data: Seq<u8>) -> bool {
    &&& data.len() >= MINIMUM_PACKET_SIZE
    &&& spec_ip_version(data) == 6
    &&& data.len() < 40
}

/// The model of a parse result.
pub open spec fn parse_result_view(r: Result<PacketFormat, PacketError>) -> Result<HeaderModel, PacketError> {
    match r {
        Ok(f) => Ok(f@),
        Err(e) => Err(e),
    }
}

/// The numbered protocols: each assigned number names its protocol, and every
/// other number is kept, unchanged, in `Protocol::Unknown`.
pub proof fn parse_protocol_table(n: u8)
    ensures
        n == 1 ==> spec_parse_protocol(n) == Protocol::ICMP,
        n == 2 ==> spec_parse_protocol(n) == Protocol::IGMP,
        n == 6 ==> spec_parse_protocol(n) == Protocol::TCP,
        n == 17 ==> spec_parse_protocol(n) == Protocol::UDP,
        n == 41 ==> spec_parse_protocol(n) == Protocol::IPv6,
        n == 47 ==> spec_parse_protocol(n) == Protocol::GRE,
        n == 50 ==> spec_parse_protocol(n) == Protocol::ESP,
        n == 51 ==> spec_parse_protocol(n) == Protocol::AH,
        n == 58 ==> spec_parse_protocol(n) == Protocol::ICMPv6,
        n == 89 ==> spec_parse_protocol(n) == Protocol::OSPF,
        !(n == 1 || n == 2 || n == 6 || n == 17 || n == 41 || n == 47 || n == 50 || n == 51
            || n == 58 || n == 89) ==> spec_parse_protocol(n) == Protocol::Unknown(n),
{
}

/// A packet shorter than twenty bytes is refused as too short, with its own
/// length and twenty.
pub proof fn short_packet_is_too_short(data: Seq<u8>)
    requires
        data.len() < 20,
    ensures
        spec_parse_data(data) == Err::<HeaderModel, PacketError>(
            PacketError::TooShort(data.len() as usize, 20),
        ),
{
}

/// The header of an IPv4 packet: the source address is bytes 12..16 and the
/// destination bytes 16..20, octet for octet in order, and the protocol is
/// the one byte 9 names.
pub proof fn ipv4_header_is_read_from_its_bytes(data: Seq<u8>)
    requires
        data.len() >= 20,
        data[0] / 16 == 4,
    ensures
        spec_parse_data(data) is Ok,
        spec_parse_data(data)->Ok_0.origin == IpModel::V4(seq![data[12], data[13], data[14], data[15]]),
        spec_parse_data(data)->Ok_0.destination == IpModel::V4(seq![data[16], data[17], data[18], data[19]]),
        spec_parse_data(data)->Ok_0.protocol == spec_parse_protocol(data[9]),
{
    assert(data.subrange(12, 16) =~= seq![data[12], data[13], data[14], data[15]]);
    assert(data.subrange(16, 20) =~= seq![data[16], data[17], data[18], data[19]]);
}

/// The header of an IPv6 packet: the source address is bytes 8..24 and the
/// destination bytes 24..40, octet for octet in order, and the protocol is
/// the one that byte 6 (the next header) names.
pub proof fn ipv6_header_is_read_from_its_bytes(data: Seq<u8>)
    requires
        data.len() >= 40,
        data[0] / 16 == 6,
    ensures
        spec_parse_data(data) is Ok,
        spec_parse_data(data)->Ok_0.origin == IpModel::V6(
            seq![
                data[8], data[9], data[10], data[11], data[12], data[13], data[14], data[15],
                data[16], data[17], data[18], data[19], data[20], data[21], data[22], data[23],
            ],
        ),
        spec_parse_data(data)->Ok_0.destination == IpModel::V6(
            seq![
                data[24], data[25], data[26], data[27], data[28], data[29], data[30], data[31],
                data[32], data[33], data[34], data[35], data[36], data[37], data[38], data[39],
            ],
        ),
        spec_parse_data(data)->Ok_0.protocol == spec_parse_protocol(data[6]),
{
    assert(data.subrange(8, 24) =~= seq![
        data[8], data[9], data[10], data[11], data[12], data[13], data[14], data[15],
        data[16], data[17], data[18], data[19], data[20], data[21], data[22], data[23],
    ]);
    assert(data.subrange(24, 40) =~= seq![
        data[24], data[25], data[26], data[27], data[28], data[29], data[30], data[31],
        data[32], data[33], data[34], data[35], data[36], data[37], data[38], data[39],
    ]);
}

/// A packet of at least twenty bytes whose version nibble is neither 4 nor 6
/// is refused with that version.
pub proof fn unknown_version_is_refused(data: Seq<u8>)
    requires
        data.len() >= 20,
        data[0] / 16 != 4,
        data[0] / 16 != 6,
    ensures
        spec_parse_data(data) == Err::<HeaderModel, PacketError>(
            PacketError::UnknownIpVersion(data[0] / 16),
        ),
{
}

/// The packets that `parse_data` cannot read are exactly the IPv6 packets of
/// twenty to thirty-nine bytes.
pub proof fn truncated_ipv6_is_twenty_to_thirty_nine_bytes(data: Seq<u8>)
    ensures
        truncated_ipv6(data) <==> (20 <= data.len() < 40 && data[0] / 16 == 6),
{
}

/// Distinct protocol numbers give distinct protocols: the number can always
/// be told from the parsed protocol.
pub proof fn parse_protocol_is_injective(a: u8, b: u8)
    requires
        a != b,
    ensures
        spec_parse_protocol(a) != spec_parse_protocol(b),
{
}

/// Parsing reads only the header: bytes appended to a packet of at least
/// `MINIMUM_PACKET_SIZE` bytes do not change what parsing it gives.
pub proof fn parse_ignores_payload(data: Seq<u8>, payload: Seq<u8>)
    requires
        data.len() >= MINIMUM_PACKET_SIZE,
        !truncated_ipv6(data),
    ensures
        spec_parse_data(data + payload) == spec_parse_data(data),
{
    let whole = data + payload;
    assert(whole[0] == data[0]);
    assert(whole[6] == data[6]);
    assert(whole[9] == data[9]);
    if spec_ip_version(data) == 4 {
        assert(whole.subrange(12, 16) =~= data.subrange(12, 16));
        assert(whole.subrange(16, 20) =~= data.subrange(16, 20));
    } else if spec_ip_version(data) == 6 {
        assert(whole.subrange(8, 24) =~= data.subrange(8, 24));
        assert(whole.subrange(24, 40) =~= data.subrange(24, 40));
    }
}

/// Reads the version nibble of the first byte.
fn ip_version(data: &[u8]) -> (v: u8)
    requires
        data@.len() >= 1,
    ensures
        v == spec_ip_version(data@),
{
    let b: u8 = data[0];
    assert((b >> 4u8) & 0xFu8 == b / 16) by (bit_vector);
    (b >> 4) & 0xF
}

/// Whether `data` is an IPv6 packet too short to hold both of its addresses,
/// which `parse_data` cannot read.
pub fn is_truncated_ipv6(data: &[u8]) -> (r: bool)
    ensures
        r == truncated_ipv6(data@),
{
    data.len() >= MINIMUM_PACKET_SIZE && ip_version(data) == 6 && data.len() < 40
}

/// Reads the addresses and protocol from the header of an IPv4 or IPv6
/// packet.
///
/// A packet of fewer than `MINIMUM_PACKET_SIZE` bytes is `TooShort`, and one
/// whose version is neither 4 nor 6 is `UnknownIpVersion`.
pub fn parse_data(data: &[u8]) -> (result: Result<PacketFormat, PacketError>)
    requires
        !truncated_ipv6(data@),
    ensures
        parse_result_view(result) == spec_parse_data(data@),
        data@.len() < 20 <==> result == Err::<PacketFormat, PacketError>(
            PacketError::TooShort(data@.len() as usize, 20),
        ),
        result is Ok ==> data@.len() >= 20 && (data@[0] / 16 == 4 || data@[0] / 16 == 6),
        data@.len() >= 20 && data@[0] / 16 == 4 ==> (result matches Ok(f) && {
            &&& f.ip_origin@ == IpModel::V4(data@.subrange(12, 16))
            &&& f.ip_destination@ == IpModel::V4(data@.subrange(16, 20))
            &&& f.protocol == spec_parse_protocol(data@[9])
        }),
        data@.len() >= 40 && data@[0] / 16 == 6 ==> (result matches Ok(f) && {
            &&& f.ip_origin@ == IpModel::V6(data@.subrange(8, 24))
            &&& f.ip_destination@ == IpModel::V6(data@.subrange(24, 40))
            &&& f.protocol == spec_parse_protocol(data@[6])
        }),
        data@.len() >= 20 && data@[0] / 16 != 4 && data@[0] / 16 != 6 ==> result
            == Err::<PacketFormat, PacketError>(PacketError::UnknownIpVersion(data@[0] / 16)),
{
    if data.len() < MINIMUM_PACKET_SIZE {
        return Err(PacketError::TooShort(data.len(), MINIMUM_PACKET_SIZE));
    }
    let version: u8 = ip_version(data);
    if version == 4 {
        let origin: [u8; 4] = [data[12], data[13], data[14], data[15]];
        let destination: [u8; 4] = [data[16], data[17], data[18], data[19]];
        assert(origin@ =~= data@.subrange(12, 16));
        assert(destination@ =~= data@.subrange(16, 20));
        Ok(PacketFormat {
            ip_origin: IpAddress::V4(origin),
            ip_destination: IpAddress::V4(destination),
            protocol: parse_protocol(data[9]),
        })
    } else if version == 6 {
        let origin: [u8; 16] = [
            data[8], data[9], data[10], data[11], data[12], data[13], data[14], data[15],
            data[16], data[17], data[18], data[19], data[20], data[21], data[22], data[23],
        ];
        let destination: [u8; 16] = [
            data[24], data[25], data[26], data[27], data[28], data[29], data[30], data[31],
            data[32], data[33], data[34], data[35], data[36], data[37], data[38], data[39],
        ];
        assert(origin@ =~= data@.subrange(8, 24));
        assert(destination@ =~= data@.subrange(24, 40));
        Ok(PacketFormat {
            ip_origin: IpAddress::V6(origin),
            ip_destination: IpAddress::V6(destination),
            protocol: parse_protocol(data[6]),
        })
    } else {
        Err(PacketError::UnknownIpVersion(version))
    }
}

} // verus!
