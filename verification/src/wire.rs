//! Everything that the library has from `pnet`.
//!
//! The `read_` functions hand a buffer to one of `pnet`'s packet views and
//! copy the fields it reads into a plain structure; two more functions ask
//! `pnet` for the text of a hardware address and for the name of an
//! ethertype. Their contracts are stated from the layout that `pnet` declares
//! for each packet, and from its `Display` impls, and are not proved: the rest
//! of the library is verified against them.

use pnet::packet::arp::ArpPacket;
use pnet::packet::ethernet::{EtherType, EthernetPacket};
use pnet::packet::ipv4::Ipv4Packet;
use pnet::packet::ipv6::Ipv6Packet;
use pnet::packet::tcp::TcpPacket;
use pnet::packet::udp::UdpPacket;
use pnet::util::MacAddr;
use vstd::prelude::*;
use crate::addresses::{be16, mac_text, MacAddress};

verus! {

/// Length of an Ethernet header.
pub const ETHERNET_HEADER_LEN: usize = 14;

/// Length of an IPv4 header without options.
pub const IPV4_HEADER_LEN: usize = 20;

/// Length of the fixed IPv6 header.
pub const IPV6_HEADER_LEN: usize = 40;

/// Length of an ARP packet for IPv4 over Ethernet.
pub const ARP_PACKET_LEN: usize = 28;

/// Length of a TCP header without options.
pub const TCP_HEADER_LEN: usize = 20;

/// Length of a UDP header.
pub const UDP_HEADER_LEN: usize = 8;

/// The fields of an Ethernet header.
#[derive(Clone, Copy, Debug)]
pub struct EthernetHeader {
    pub destination: [u8; 6],
    pub source: [u8; 6],
    pub ethertype: u16,
}

/// The fields of an IPv4 header that the decoder reads.
#[derive(Clone, Copy, Debug)]
pub struct Ipv4Header {
    /// Header length in 32-bit words.
    pub header_length: u8,
    pub total_length: u16,
    pub next_level_protocol: u8,
    pub source: [u8; 4],
    pub destination: [u8; 4],
}

/// The fields of an IPv6 header that the decoder reads.
#[derive(Clone, Copy, Debug)]
pub struct Ipv6Header {
    pub payload_length: u16,
    pub next_header: u8,
    pub source: [u8; 16],
    pub destination: [u8; 16],
}

/// The fields of an ARP packet for IPv4 over Ethernet.
#[derive(Clone, Copy, Debug)]
pub struct ArpHeader {
    pub hardware_type: u16,
    pub proto_addr_len: u8,
    pub operation: u16,
    pub sender_hw_addr: [u8; 6],
    pub sender_proto_addr: [u8; 4],
    pub target_hw_addr: [u8; 6],
    pub target_proto_addr: [u8; 4],
}

/// The two ports that open a TCP or UDP header.
#[derive(Clone, Copy, Debug, PartialEq, Eq, Structural)]
pub struct PortPair {
    pub source: u16,
    pub destination: u16,
}

/// `h` holds the fields of the Ethernet header that opens `data`.
pub open spec fn is_ethernet_header_of(h: EthernetHeader, data: Seq<u8>) -> bool {
    &&& h.destination@ == data.subrange(0, 6)
    &&& h.source@ == data.subrange(6, 12)
    &&& h.ethertype == be16(data[12], data[13])
}

/// `h` holds the fields of the IPv4 header that opens `data`.
pub open spec fn is_ipv4_header_of(h: Ipv4Header, data: Seq<u8>) -> bool {
    &&& h.header_length == data[0] % 16
    &&& h.total_length == be16(data[2], data[3])
    &&& h.next_level_protocol == data[9]
    &&& h.source@ == data.subrange(12, 16)
    &&& h.destination@ == data.subrange(16, 20)
}

/// `h` holds the fields of the IPv6 header that opens `data`.
pub open spec fn is_ipv6_header_of(h: Ipv6Header, data: Seq<u8>) -> bool {
    &&& h.payload_length == be16(data[4], data[5])
    &&& h.next_header == data[6]
    &&& h.source@ == data.subrange(8, 24)
    &&& h.destination@ == data.subrange(24, 40)
}

/// `h` holds the fields of the ARP packet that opens `data`.
pub open spec fn is_arp_header_of(h: ArpHeader, data: Seq<u8>) -> bool {
    &&& h.hardware_type == be16(data[0], data[1])
    &&& h.proto_addr_len == data[5]
    &&& h.operation == be16(data[6], data[7])
    &&& h.sender_hw_addr@ == data.subrange(8, 14)
    &&& h.sender_proto_addr@ == data.subrange(14, 18)
    &&& h.target_hw_addr@ == data.subrange(18, 24)
    &&& h.target_proto_addr@ == data.subrange(24, 28)
}

/// The ports in the first four octets of `data`.
pub open spec fn ports_at_start(data: Seq<u8>) -> PortPair {
    PortPair { source: be16(data[0], data[1]), destination: be16(data[2], data[3]) }
}

/// The ports that open `data` when it holds a whole header of `header_len`
/// octets, and nothing when it is shorter.
pub open spec fn leading_ports(data: Seq<u8>, header_len: int) -> Option<PortPair> {
    if data.len() >= header_len {
        Some(ports_at_start(data))
    } else {
        None
    }
}

/// `EthernetPacket::new`, then `get_destination`, `get_source` and
/// `get_ethertype`: a buffer of at least fourteen octets is accepted, and the
/// fields are the octets 0 to 5, 6 to 11, and the big-endian number in 12 and 13.
#[verifier::external_body]
pub(crate) fn read_ethernet(data: &[u8]) -> (r: Option<EthernetHeader>)
    ensures
        r is Some <==> data@.len() >= ETHERNET_HEADER_LEN,
        r matches Some(h) ==> is_ethernet_header_of(h, data@),
{
    match EthernetPacket::new(data) {
        Some(p) => Some(EthernetHeader {
            destination: p.get_destination().octets(),
            source: p.get_source().octets(),
            ethertype: p.get_ethertype().0,
        }),
        None => None,
    }
}

/// `Ipv4Packet::new`, then `get_header_length`, `get_total_length`,
/// `get_next_level_protocol`, `get_source` and `get_destination`: a buffer of
/// at least twenty octets is accepted; the header length is the low half of
/// octet 0, the total length the big-endian number in octets 2 and 3, the
/// protocol octet 9, and the addresses octets 12 to 15 and 16 to 19.
#[verifier::external_body]
pub(crate) fn read_ipv4(data: &[u8]) -> (r: Option<Ipv4Header>)
    ensures
        r is Some <==> data@.len() >= IPV4_HEADER_LEN,
        r matches Some(h) ==> is_ipv4_header_of(h, data@),
{
    match Ipv4Packet::new(data) {
        Some(p) => Some(Ipv4Header {
            header_length: p.get_header_length(),
            total_length: p.get_total_length(),
            next_level_protocol: p.get_next_level_protocol().0,
            source: p.get_source().octets(),
            destination: p.get_destination().octets(),
        }),
        None => None,
    }
}

/// `Ipv6Packet::new`, then `get_payload_length`, `get_next_header`,
/// `get_source` and `get_destination`: a buffer of at least forty octets is
/// accepted; the payload length is the big-endian number in octets 4 and 5,
/// the next header octet 6, and the addresses octets 8 to 23 and 24 to 39.
#[verifier::external_body]
pub(crate) fn read_ipv6(data: &[u8]) -> (r: Option<Ipv6Header>)
    ensures
        r is Some <==> data@.len() >= IPV6_HEADER_LEN,
        r matches Some(h) ==> is_ipv6_header_of(h, data@),
{
    match Ipv6Packet::new(data) {
        Some(p) => Some(Ipv6Header {
            payload_length: p.get_payload_length(),
            next_header: p.get_next_header().0,
            source: p.get_source().octets(),
            destination: p.get_destination().octets(),
        }),
        None => None,
    }
}

/// `ArpPacket::new`, then the getters of the fields kept in [`ArpHeader`]: a
/// buffer of at least twenty-eight octets is accepted; the hardware type and
/// the operation are the big-endian numbers in octets 0, 1 and 6, 7, the
/// protocol address length is octet 5, and the four addresses follow from
/// octet 8 on, six, four, six and four octets long.
#[verifier::external_body]
pub(crate) fn read_arp(data: &[u8]) -> (r: Option<ArpHeader>)
    ensures
        r is Some <==> data@.len() >= ARP_PACKET_LEN,
        r matches Some(h) ==> is_arp_header_of(h, data@),
{
    match ArpPacket::new(data) {
        Some(p) => Some(ArpHeader {
            hardware_type: p.get_hardware_type().0,
            proto_addr_len: p.get_proto_addr_len(),
            operation: p.get_operation().0,
            sender_hw_addr: p.get_sender_hw_addr().octets(),
            sender_proto_addr: p.get_sender_proto_addr().octets(),
            target_hw_addr: p.get_target_hw_addr().octets(),
            target_proto_addr: p.get_target_proto_addr().octets(),
        }),
        None => None,
    }
}

/// `TcpPacket::new`, then `get_source` and `get_destination`: a buffer of at
/// least twenty octets is accepted, and the ports are the big-endian numbers
/// in octets 0, 1 and 2, 3.
#[verifier::external_body]
pub(crate) fn read_tcp(data: &[u8]) -> (r: Option<PortPair>)
    ensures
        r == leading_ports(data@, TCP_HEADER_LEN as int),
{
    match TcpPacket::new(data) {
        Some(p) => Some(PortPair { source: p.get_source(), destination: p.get_destination() }),
        None => None,
    }
}

/// `UdpPacket::new`, then `get_source` and `get_destination`: a buffer of at
/// least eight octets is accepted, and the ports are the big-endian numbers
/// in octets 0, 1 and 2, 3.
#[verifier::external_body]
pub(crate) fn read_udp(data: &[u8]) -> (r: Option<PortPair>)
    ensures
        r == leading_ports(data@, UDP_HEADER_LEN as int),
{
    match UdpPacket::new(data) {
        Some(p) => Some(PortPair { source: p.get_source(), destination: p.get_destination() }),
        None => None,
    }
}

/// The name under which `pnet` prints the ethertype `code`.
pub uninterp spec fn ethertype_name(code: u16) -> Seq<char>;

/// `EtherType::new`, then its `Display`: the name that `pnet` keeps for the
/// ethertype, which depends on the code alone.
#[verifier::external_body]
pub(crate) fn ethertype_text(code: u16) -> (r: String)
    ensures
        r@ == ethertype_name(code),
{
    EtherType::new(code).to_string()
}

/// `MacAddr::new`, then its `Display`: the six octets in order, each as two
/// lower-case hexadecimal digits, with a colon between neighbours.
#[verifier::external_body]
pub(crate) fn mac_to_string(address: MacAddress) -> (r: String)
    ensures
        r@ == mac_text(address),
{
    MacAddr::new(address.0, address.1, address.2, address.3, address.4, address.5).to_string()
}

} // verus!
