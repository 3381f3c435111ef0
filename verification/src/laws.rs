//! What holds of every frame, stated over the octets of the frame.
//!
//! Offsets count from the start of the captured frame: the Ethernet header
//! takes octets 0 to 13, and the network header starts at octet 14.

use vstd::prelude::*;
use crate::addresses::{be16, ipv4_at, ipv6_at, mac_at};
use crate::layer_2_infos::layer_3_infos::layer_4_infos::{
    layer_4_infos_of, n_a_4_info, port_texts, protocol_note_of, ProtocolTag, PROTOCOL_TCP,
    PROTOCOL_UDP,
};
use crate::layer_2_infos::layer_3_infos::{
    arp_infos_of, ipv4_payload_of, ipv4_payload_start, ipv6_payload_of, ArpInfos, ArpOperation,
    Ipv4Infos, Ipv6Infos, Layer3Infos,
};
use crate::layer_2_infos::{
    record_fields, record_of, record_text, EthertypeTag, PacketInfos, ETHERTYPE_ARP,
    ETHERTYPE_IPV4, ETHERTYPE_IPV6,
};
use crate::notes::DecodeNote;
use crate::wire::{
    PortPair, ARP_PACKET_LEN, ETHERNET_HEADER_LEN, IPV4_HEADER_LEN, IPV6_HEADER_LEN,
    TCP_HEADER_LEN, UDP_HEADER_LEN,
};

verus! {

/// The ethertype in the Ethernet header of `packet`.
pub open spec fn ethertype_of(packet: Seq<u8>) -> u16 {
    be16(packet[12], packet[13])
}

/// The length in octets that the IPv4 header of `packet` declares for itself.
pub open spec fn ipv4_header_octets(packet: Seq<u8>) -> int {
    (packet[14] % 16) * 4
}

/// `packet` is an Ethernet frame that holds a whole IPv4 header of at least
/// twenty octets and, behind it and within the total length that the header
/// declares, a whole TCP header.
pub open spec fn is_ipv4_tcp_frame(packet: Seq<u8>) -> bool {
    &&& packet.len() >= ETHERNET_HEADER_LEN + IPV4_HEADER_LEN
    &&& ethertype_of(packet) == ETHERTYPE_IPV4
    &&& packet[23] == PROTOCOL_TCP
    &&& ipv4_header_octets(packet) >= IPV4_HEADER_LEN
    &&& be16(packet[16], packet[17]) >= ipv4_header_octets(packet) + TCP_HEADER_LEN
    &&& packet.len() >= ETHERNET_HEADER_LEN + ipv4_header_octets(packet) + TCP_HEADER_LEN
}

/// `packet` is an Ethernet frame that holds a whole IPv6 header and, behind
/// it and within the payload length that the header declares, a whole UDP
/// header.
pub open spec fn is_ipv6_udp_frame(packet: Seq<u8>) -> bool {
    &&& packet.len() >= ETHERNET_HEADER_LEN + IPV6_HEADER_LEN + UDP_HEADER_LEN
    &&& ethertype_of(packet) == ETHERTYPE_IPV6
    &&& packet[20] == PROTOCOL_UDP
    &&& be16(packet[18], packet[19]) >= UDP_HEADER_LEN
}

/// `packet` is an Ethernet frame that holds a whole ARP packet.
pub open spec fn is_arp_frame(packet: Seq<u8>) -> bool {
    &&& packet.len() >= ETHERNET_HEADER_LEN + ARP_PACKET_LEN
    &&& ethertype_of(packet) == ETHERTYPE_ARP
}

/// The ports in the four octets of `packet` that start at `at`.
pub open spec fn ports_at(packet: Seq<u8>, at: int) -> PortPair {
    PortPair {
        source: be16(packet[at], packet[at + 1]),
        destination: be16(packet[at + 2], packet[at + 3]),
    }
}

/// Every frame of at least fourteen octets gives a record, and the record
/// holds the two hardware addresses and the ethertype of its header.
pub proof fn lemma_link_layer_is_decoded(interface: Seq<char>, packet: Seq<u8>)
    requires
        packet.len() >= ETHERNET_HEADER_LEN,
    ensures
        record_of(interface, packet) matches Some(r) && r.interface == interface
            && r.mac_address_destination == mac_at(packet, 0) && r.mac_address_source == mac_at(
            packet,
            6,
        ) && r.ethertype == EthertypeTag::of(ethertype_of(packet)),
{
}

/// A well-formed frame of TCP over IPv4 is decoded on every layer: the
/// network layer holds the addresses in octets 26 to 33, the protocol tag of
/// TCP and the declared total length, and the transport layer holds, as
/// decimal text, the ports in the first four octets behind the IPv4 header.
pub proof fn lemma_ipv4_tcp_frame_is_decoded(interface: Seq<char>, packet: Seq<u8>)
    requires
        is_ipv4_tcp_frame(packet),
    ensures
        record_of(interface, packet) matches Some(r) && r.layer_3_infos == Layer3Infos::Ipv4(
            Ipv4Infos {
                ip_source: ipv4_at(packet, 26),
                ip_destination: ipv4_at(packet, 30),
                protocol: ProtocolTag::Tcp,
                total_length: be16(packet[16], packet[17]),
            },
        ) && r.layer_4_infos == Some(
            port_texts(ports_at(packet, ETHERNET_HEADER_LEN + ipv4_header_octets(packet))),
        ) && r.note is None,
{
    let payload = packet.subrange(ETHERNET_HEADER_LEN as int, packet.len() as int);
    let start = ipv4_header_octets(packet);
    assert(payload[0] == packet[14]);
    assert(payload[2] == packet[16] && payload[3] == packet[17]);
    assert(payload[9] == packet[23]);
    let transport = ipv4_payload_of(payload);
    assert(transport.len() >= TCP_HEADER_LEN);
    assert(transport[0] == packet[14 + start]);
    assert(transport[1] == packet[14 + start + 1]);
    assert(transport[2] == packet[14 + start + 2]);
    assert(transport[3] == packet[14 + start + 3]);
}

/// A well-formed frame of UDP over IPv6 is decoded on every layer: the
/// network layer holds the addresses in octets 22 to 53, the protocol tag of
/// UDP and the declared payload length, and the transport layer holds, as
/// decimal text, the ports in octets 54 to 57.
pub proof fn lemma_ipv6_udp_frame_is_decoded(interface: Seq<char>, packet: Seq<u8>)
    requires
        is_ipv6_udp_frame(packet),
    ensures
        record_of(interface, packet) matches Some(r) && r.layer_3_infos == Layer3Infos::Ipv6(
            Ipv6Infos {
                ip_source: ipv6_at(packet, 22),
                ip_destination: ipv6_at(packet, 38),
                next_header: ProtocolTag::Udp,
                payload_length: be16(packet[18], packet[19]),
            },
        ) && r.layer_4_infos == Some(port_texts(ports_at(packet, 54))) && r.note is None,
{
    let payload = packet.subrange(ETHERNET_HEADER_LEN as int, packet.len() as int);
    assert(payload[4] == packet[18] && payload[5] == packet[19]);
    assert(payload[6] == packet[20]);
    let transport = ipv6_payload_of(payload);
    assert(transport.len() >= UDP_HEADER_LEN);
    assert(transport[0] == packet[54]);
    assert(transport[1] == packet[55]);
    assert(transport[2] == packet[56]);
    assert(transport[3] == packet[57]);
}

/// A well-formed ARP frame is decoded on the network layer: the record holds
/// the operation in octets 20 and 21, the sender's addresses in octets 22 to
/// 31 and the target's in octets 32 to 41. It has no transport layer at all.
pub proof fn lemma_arp_frame_is_decoded(interface: Seq<char>, packet: Seq<u8>)
    requires
        is_arp_frame(packet),
    ensures
        record_of(interface, packet) matches Some(r) && r.layer_3_infos == Layer3Infos::Arp(
            ArpInfos {
                sender_hw_addr: mac_at(packet, 22),
                target_hw_addr: mac_at(packet, 32),
                operation: ArpOperation::of(be16(packet[20], packet[21])),
                sender_proto_addr: ipv4_at(packet, 28),
                target_proto_addr: ipv4_at(packet, 38),
                hardware_type: be16(packet[14], packet[15]),
                proto_addr_len: packet[19],
            },
        ) && r.layer_4_infos is None && r.note is None,
{
    let payload = packet.subrange(ETHERNET_HEADER_LEN as int, packet.len() as int);
    assert(arp_infos_of(payload).sender_hw_addr == mac_at(packet, 22));
    assert(arp_infos_of(payload).target_hw_addr == mac_at(packet, 32));
    assert(arp_infos_of(payload).sender_proto_addr == ipv4_at(packet, 28));
    assert(arp_infos_of(payload).target_proto_addr == ipv4_at(packet, 38));
    assert(payload[0] == packet[14] && payload[1] == packet[15]);
    assert(payload[5] == packet[19]);
    assert(payload[6] == packet[20] && payload[7] == packet[21]);
}

/// A frame whose ethertype is none of the supported ones still gives a
/// record: its network layer is absent, both ports hold the placeholder, and
/// the remark on it carries the ethertype.
pub proof fn lemma_unsupported_ethertype_degrades(interface: Seq<char>, packet: Seq<u8>)
    requires
        packet.len() >= ETHERNET_HEADER_LEN,
        ethertype_of(packet) != ETHERTYPE_IPV4,
        ethertype_of(packet) != ETHERTYPE_IPV6,
        ethertype_of(packet) != ETHERTYPE_ARP,
    ensures
        record_of(interface, packet) matches Some(r) && r.layer_3_infos == Layer3Infos::Absent
            && r.layer_4_infos == Some(n_a_4_info()) && r.note == Some(
            DecodeNote::UnsupportedEthertype(ethertype_of(packet)),
        ),
{
}

/// Only a frame that is cut short within the Ethernet header gives no record.
pub proof fn lemma_record_iff_link_header(interface: Seq<char>, packet: Seq<u8>)
    ensures
        record_of(interface, packet) is Some <==> packet.len() >= ETHERNET_HEADER_LEN,
{
}

/// A frame of a supported ethertype that is cut short within its network
/// header, like one whose ethertype is not supported, gives a record whose
/// network layer is absent and whose ports hold the placeholder; only the
/// ethertype that is not supported gives a remark.
pub proof fn lemma_truncated_network_header_degrades(interface: Seq<char>, packet: Seq<u8>)
    requires
        packet.len() >= ETHERNET_HEADER_LEN,
        ethertype_of(packet) == ETHERTYPE_IPV4 ==> packet.len() < ETHERNET_HEADER_LEN
            + IPV4_HEADER_LEN,
        ethertype_of(packet) == ETHERTYPE_IPV6 ==> packet.len() < ETHERNET_HEADER_LEN
            + IPV6_HEADER_LEN,
        ethertype_of(packet) == ETHERTYPE_ARP ==> packet.len() < ETHERNET_HEADER_LEN
            + ARP_PACKET_LEN,
    ensures
        record_of(interface, packet) matches Some(r) && r.layer_3_infos == Layer3Infos::Absent
            && r.layer_4_infos == Some(n_a_4_info()) && (r.note is Some <==> r.ethertype
            is Other),
{
}

/// The header of `proto` is not wholly there in `data`.
pub open spec fn transport_header_is_cut_short(proto: ProtocolTag, data: Seq<u8>) -> bool {
    match proto {
        ProtocolTag::Tcp => data.len() < TCP_HEADER_LEN,
        ProtocolTag::Udp => data.len() < UDP_HEADER_LEN,
        ProtocolTag::Other(_) => false,
    }
}

/// A transport header that is cut short gives the placeholder for both ports.
pub proof fn lemma_truncated_transport_header_degrades(proto: ProtocolTag, data: Seq<u8>)
    requires
        transport_header_is_cut_short(proto, data),
    ensures
        layer_4_infos_of(proto, data) == n_a_4_info(),
{
}

/// A protocol that is neither TCP nor UDP gives the placeholder for both
/// ports, whatever the payload holds, and a remark that carries its number.
pub proof fn lemma_unsupported_protocol_degrades(code: u8, data: Seq<u8>)
    requires
        code != PROTOCOL_TCP,
        code != PROTOCOL_UDP,
    ensures
        layer_4_infos_of(ProtocolTag::of(code), data) == n_a_4_info(),
        protocol_note_of(ProtocolTag::of(code)) == Some(DecodeNote::UnsupportedProtocol(code)),
{
}

/// What follows the Ethernet header of `packet`.
pub open spec fn network_packet(packet: Seq<u8>) -> Seq<u8> {
    packet.subrange(ETHERNET_HEADER_LEN as int, packet.len() as int)
}

/// Below a whole IPv4 header the record keeps the network layer, whatever
/// becomes of the transport layer, and its ports are those that the transport
/// layer yields for the protocol in octet 23 on the payload of the IPv4
/// packet; the remark is that of the transport layer on that protocol.
pub proof fn lemma_ipv4_frame_hands_payload_on(interface: Seq<char>, packet: Seq<u8>)
    requires
        packet.len() >= ETHERNET_HEADER_LEN + IPV4_HEADER_LEN,
        ethertype_of(packet) == ETHERTYPE_IPV4,
    ensures
        record_of(interface, packet) matches Some(r) && r.layer_3_infos is Ipv4
            && r.layer_4_infos == Some(
            layer_4_infos_of(
                ProtocolTag::of(packet[23]),
                ipv4_payload_of(network_packet(packet)),
            ),
        ) && r.note == protocol_note_of(ProtocolTag::of(packet[23])),
{
    assert(network_packet(packet)[9] == packet[23]);
}

/// Below a whole IPv6 header the record keeps the network layer, whatever
/// becomes of the transport layer, and its ports are those that the transport
/// layer yields for the protocol in octet 20 on the payload of the IPv6
/// packet; the remark is that of the transport layer on that protocol.
pub proof fn lemma_ipv6_frame_hands_payload_on(interface: Seq<char>, packet: Seq<u8>)
    requires
        packet.len() >= ETHERNET_HEADER_LEN + IPV6_HEADER_LEN,
        ethertype_of(packet) == ETHERTYPE_IPV6,
    ensures
        record_of(interface, packet) matches Some(r) && r.layer_3_infos is Ipv6
            && r.layer_4_infos == Some(
            layer_4_infos_of(
                ProtocolTag::of(packet[20]),
                ipv6_payload_of(network_packet(packet)),
            ),
        ) && r.note == protocol_note_of(ProtocolTag::of(packet[20])),
{
    assert(network_packet(packet)[6] == packet[20]);
}

/// An IPv4 frame that ends before the header of its transport protocol does
/// keeps its network layer, and both ports hold the placeholder.
pub proof fn lemma_ipv4_frame_cut_in_transport_header(interface: Seq<char>, packet: Seq<u8>)
    requires
        packet.len() >= ETHERNET_HEADER_LEN + IPV4_HEADER_LEN,
        ethertype_of(packet) == ETHERTYPE_IPV4,
        packet[23] == PROTOCOL_TCP ==> packet.len() < ETHERNET_HEADER_LEN + ipv4_payload_start(
            packet[14] % 16,
        ) + TCP_HEADER_LEN,
        packet[23] == PROTOCOL_UDP ==> packet.len() < ETHERNET_HEADER_LEN + ipv4_payload_start(
            packet[14] % 16,
        ) + UDP_HEADER_LEN,
    ensures
        record_of(interface, packet) matches Some(r) && r.layer_3_infos is Ipv4
            && r.layer_4_infos == Some(n_a_4_info()),
{
    lemma_ipv4_frame_hands_payload_on(interface, packet);
    assert(network_packet(packet)[0] == packet[14]);
}

/// An IPv6 frame that ends before the header of its transport protocol does
/// keeps its network layer, and both ports hold the placeholder.
pub proof fn lemma_ipv6_frame_cut_in_transport_header(interface: Seq<char>, packet: Seq<u8>)
    requires
        packet.len() >= ETHERNET_HEADER_LEN + IPV6_HEADER_LEN,
        ethertype_of(packet) == ETHERTYPE_IPV6,
        packet[20] == PROTOCOL_TCP ==> packet.len() < ETHERNET_HEADER_LEN + IPV6_HEADER_LEN
            + TCP_HEADER_LEN,
        packet[20] == PROTOCOL_UDP ==> packet.len() < ETHERNET_HEADER_LEN + IPV6_HEADER_LEN
            + UDP_HEADER_LEN,
    ensures
        record_of(interface, packet) matches Some(r) && r.layer_3_infos is Ipv6
            && r.layer_4_infos == Some(n_a_4_info()),
{
    lemma_ipv6_frame_hands_payload_on(interface, packet);
}

/// The payload that a network header hands on lies within the packet: it is
/// never longer than what follows the fixed header.
pub proof fn lemma_payload_stays_within_packet(data: Seq<u8>)
    ensures
        data.len() >= IPV4_HEADER_LEN ==> ipv4_payload_of(data).len() + IPV4_HEADER_LEN
            <= data.len(),
        data.len() >= IPV6_HEADER_LEN ==> ipv6_payload_of(data).len() + IPV6_HEADER_LEN
            <= data.len(),
{
}

/// Decoding depends on the interface label and the octets of the frame
/// alone: two records decoded from the same input hold the same values.
pub proof fn lemma_decoding_is_deterministic(
    interface: Seq<char>,
    packet: Seq<u8>,
    first: Option<PacketInfos>,
    second: Option<PacketInfos>,
)
    requires
        record_fields(first) == record_of(interface, packet),
        record_fields(second) == record_of(interface, packet),
    ensures
        record_fields(first) == record_fields(second),
        first is Some <==> second is Some,
        first matches Some(a) ==> (second matches Some(b) ==> a@ == b@ && record_text(a@)
            == record_text(b@)),
{
}

} // verus!
