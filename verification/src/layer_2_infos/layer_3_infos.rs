//! Network layer: the fields of an IPv4, IPv6 or ARP header, and the payload
//! that is handed on to the transport layer.

pub mod layer_4_infos;

use vstd::prelude::*;
use vstd::slice::slice_subrange;
use crate::addresses::{
    be16, ipv4_at, ipv4_text, ipv6_at, ipv6_text, lemma_ipv4_in_subrange, lemma_ipv6_in_subrange,
    lemma_mac_in_subrange, mac_at, Ipv4Address, Ipv6Address, MacAddress,
};
use crate::layer_2_infos::{ethertype_note_of, EthernetFrame, EthertypeTag};
use crate::layer_2_infos::layer_3_infos::layer_4_infos::{
    get_layer_4_infos, get_n_a_4_info, layer_4_infos_of, n_a_4_info, not_available,
    not_available_text, protocol_note_of, Layer4Infos, Layer4Text, ProtocolTag,
};
use crate::notes::DecodeNote;
use crate::wire::{
    read_arp, read_ipv4, read_ipv6, ArpHeader, Ipv4Header, Ipv6Header, ARP_PACKET_LEN,
    IPV4_HEADER_LEN, IPV6_HEADER_LEN,
};

verus! {

/// ARP operation code of a request.
pub const ARP_REQUEST: u16 = 1;

/// ARP operation code of a reply.
pub const ARP_REPLY: u16 = 2;

/// The operation that an ARP packet announces.
#[derive(Clone, Copy, Debug, PartialEq, Eq, Structural)]
pub enum ArpOperation {
    Request,
    Reply,
    /// Any other operation, with its code.
    Other(u16),
}

impl ArpOperation {
    /// The operation for code `code`.
    pub open spec fn of(code: u16) -> ArpOperation {
        if code == ARP_REQUEST {
            ArpOperation::Request
        } else if code == ARP_REPLY {
            ArpOperation::Reply
        } else {
            ArpOperation::Other(code)
        }
    }

    /// The code that the operation stands for.
    pub open spec fn number(self) -> u16 {
        match self {
            ArpOperation::Request => ARP_REQUEST,
            ArpOperation::Reply => ARP_REPLY,
            ArpOperation::Other(code) => code,
        }
    }

    /// The code that the operation stands for.
    pub fn code(&self) -> (code: u16)
        ensures
            code == self.number(),
    {
        match self {
            ArpOperation::Request => ARP_REQUEST,
            ArpOperation::Reply => ARP_REPLY,
            ArpOperation::Other(code) => *code,
        }
    }

    /// The operation for code `code`.
    pub fn from_code(code: u16) -> (op: ArpOperation)
        ensures
            op == ArpOperation::of(code),
            op.number() == code,
    {
        if code == ARP_REQUEST {
            ArpOperation::Request
        } else if code == ARP_REPLY {
            ArpOperation::Reply
        } else {
            ArpOperation::Other(code)
        }
    }
}

/// The fields read from an IPv4 header.
#[derive(Clone, Copy, Debug, PartialEq, Eq, Structural)]
pub struct Ipv4Infos {
    pub ip_source: Ipv4Address,
    pub ip_destination: Ipv4Address,
    pub protocol: ProtocolTag,
    /// Length of header and payload together, as the header declares it.
    pub total_length: u16,
}

/// The fields read from an IPv6 header.
#[derive(Clone, Copy, Debug, PartialEq, Eq, Structural)]
pub struct Ipv6Infos {
    pub ip_source: Ipv6Address,
    pub ip_destination: Ipv6Address,
    pub next_header: ProtocolTag,
    /// Length of what follows the fixed header, as the header declares it.
    pub payload_length: u16,
}

/// The fields read from an ARP packet for IPv4 over Ethernet.
#[derive(Clone, Copy, Debug, PartialEq, Eq, Structural)]
pub struct ArpInfos {
    pub sender_hw_addr: MacAddress,
    pub target_hw_addr: MacAddress,
    pub operation: ArpOperation,
    pub sender_proto_addr: Ipv4Address,
    pub target_proto_addr: Ipv4Address,
    pub hardware_type: u16,
    pub proto_addr_len: u8,
}

/// What was decoded of the network layer.
#[derive(Clone, Copy, Debug, PartialEq, Eq, Structural)]
pub enum Layer3Infos {
    Ipv4(Ipv4Infos),
    Ipv6(Ipv6Infos),
    Arp(ArpInfos),
    /// The ethertype is not supported, or the header is cut short.
    Absent,
}

impl Layer3Infos {
    /// The address of the sender as text: the source of an IP packet, the
    /// sender's protocol address in ARP, and `N/A` where the layer is absent.
    pub open spec fn source_text(self) -> Seq<char> {
        match self {
            Layer3Infos::Ipv4(infos) => ipv4_text(infos.ip_source),
            Layer3Infos::Ipv6(infos) => ipv6_text(infos.ip_source),
            Layer3Infos::Arp(infos) => ipv4_text(infos.sender_proto_addr),
            Layer3Infos::Absent => not_available(),
        }
    }

    /// The address of the receiver as text: the destination of an IP packet,
    /// the target's protocol address in ARP, and `N/A` where the layer is
    /// absent.
    pub open spec fn destination_text(self) -> Seq<char> {
        match self {
            Layer3Infos::Ipv4(infos) => ipv4_text(infos.ip_destination),
            Layer3Infos::Ipv6(infos) => ipv6_text(infos.ip_destination),
            Layer3Infos::Arp(infos) => ipv4_text(infos.target_proto_addr),
            Layer3Infos::Absent => not_available(),
        }
    }

    /// The address of the sender as text.
    pub fn ip_source(&self) -> (r: String)
        ensures
            r@ == self.source_text(),
    {
        match self {
            Layer3Infos::Ipv4(infos) => infos.ip_source.to_text(),
            Layer3Infos::Ipv6(infos) => infos.ip_source.to_text(),
            Layer3Infos::Arp(infos) => infos.sender_proto_addr.to_text(),
            Layer3Infos::Absent => not_available_text(),
        }
    }

    /// The address of the receiver as text.
    pub fn ip_destination(&self) -> (r: String)
        ensures
            r@ == self.destination_text(),
    {
        match self {
            Layer3Infos::Ipv4(infos) => infos.ip_destination.to_text(),
            Layer3Infos::Ipv6(infos) => infos.ip_destination.to_text(),
            Layer3Infos::Arp(infos) => infos.target_proto_addr.to_text(),
            Layer3Infos::Absent => not_available_text(),
        }
    }
}

/// The fields of the IPv4 header that opens `data`.
pub open spec fn ipv4_infos_of(data: Seq<u8>) -> Ipv4Infos {
    Ipv4Infos {
        ip_source: ipv4_at(data, 12),
        ip_destination: ipv4_at(data, 16),
        protocol: ProtocolTag::of(data[9]),
        total_length: be16(data[2], data[3]),
    }
}

/// The fields of the IPv6 header that opens `data`.
pub open spec fn ipv6_infos_of(data: Seq<u8>) -> Ipv6Infos {
    Ipv6Infos {
        ip_source: ipv6_at(data, 8),
        ip_destination: ipv6_at(data, 24),
        next_header: ProtocolTag::of(data[6]),
        payload_length: be16(data[4], data[5]),
    }
}

/// The fields of the ARP packet that opens `data`.
pub open spec fn arp_infos_of(data: Seq<u8>) -> ArpInfos {
    ArpInfos {
        sender_hw_addr: mac_at(data, 8),
        target_hw_addr: mac_at(data, 18),
        operation: ArpOperation::of(be16(data[6], data[7])),
        sender_proto_addr: ipv4_at(data, 14),
        target_proto_addr: ipv4_at(data, 24),
        hardware_type: be16(data[0], data[1]),
        proto_addr_len: data[5],
    }
}

/// The octets of `data` from `start` on, at most `declared` of them, and none
/// where `data` ends at or before `start`.
pub open spec fn payload_window(data: Seq<u8>, start: int, declared: int) -> Seq<u8> {
    if data.len() <= start {
        Seq::empty()
    } else if start + declared < data.len() {
        data.subrange(start, start + declared)
    } else {
        data.subrange(start, data.len() as int)
    }
}

/// Where the payload of an IPv4 packet starts: after the header of
/// `header_length` 32-bit words, and never before the twenty fixed octets.
pub open spec fn ipv4_payload_start(header_length: u8) -> int {
    if header_length * 4 > IPV4_HEADER_LEN {
        header_length * 4
    } else {
        IPV4_HEADER_LEN as int
    }
}

/// How many octets of payload an IPv4 header declares: its total length less
/// its header length, and none where that would be negative.
pub open spec fn ipv4_payload_declared(header_length: u8, total_length: u16) -> int {
    if total_length > header_length * 4 {
        total_length - header_length * 4
    } else {
        0
    }
}

/// The payload of the IPv4 packet `data`.
pub open spec fn ipv4_payload_of(data: Seq<u8>) -> Seq<u8> {
    payload_window(
        data,
        ipv4_payload_start(data[0] % 16),
        ipv4_payload_declared(data[0] % 16, be16(data[2], data[3])),
    )
}

/// The payload of the IPv6 packet `data`: what follows the fixed header, as
/// far as the declared payload length goes.
pub open spec fn ipv6_payload_of(data: Seq<u8>) -> Seq<u8> {
    payload_window(data, IPV6_HEADER_LEN as int, be16(data[4], data[5]) as int)
}

/// What the network layer yields for a frame of type `ethertype` with payload
/// `payload`: the fields of the header where the type is supported and the
/// header is wholly there, `Absent` otherwise.
pub open spec fn layer_3_of(ethertype: EthertypeTag, payload: Seq<u8>) -> Layer3Infos {
    match ethertype {
        EthertypeTag::Ipv4 => if payload.len() >= IPV4_HEADER_LEN {
            Layer3Infos::Ipv4(ipv4_infos_of(payload))
        } else {
            Layer3Infos::Absent
        },
        EthertypeTag::Ipv6 => if payload.len() >= IPV6_HEADER_LEN {
            Layer3Infos::Ipv6(ipv6_infos_of(payload))
        } else {
            Layer3Infos::Absent
        },
        EthertypeTag::Arp => if payload.len() >= ARP_PACKET_LEN {
            Layer3Infos::Arp(arp_infos_of(payload))
        } else {
            Layer3Infos::Absent
        },
        EthertypeTag::Other(_) => Layer3Infos::Absent,
    }
}

/// What the transport layer yields below it: for an IP packet the ports of
/// its payload, for ARP nothing, and the placeholders where the network layer
/// is absent.
pub open spec fn layer_4_of(ethertype: EthertypeTag, payload: Seq<u8>) -> Option<Layer4Text> {
    match layer_3_of(ethertype, payload) {
        Layer3Infos::Ipv4(infos) => Some(layer_4_infos_of(infos.protocol, ipv4_payload_of(payload))),
        Layer3Infos::Ipv6(infos) => Some(
            layer_4_infos_of(infos.next_header, ipv6_payload_of(payload)),
        ),
        Layer3Infos::Arp(_) => None,
        Layer3Infos::Absent => Some(n_a_4_info()),
    }
}

/// The remark that goes with the two layers: below an IP header the remark
/// of the transport layer, for ARP none, and where the network layer is
/// absent the remark on the ethertype.
pub open spec fn note_of(ethertype: EthertypeTag, payload: Seq<u8>) -> Option<DecodeNote> {
    match layer_3_of(ethertype, payload) {
        Layer3Infos::Ipv4(infos) => protocol_note_of(infos.protocol),
        Layer3Infos::Ipv6(infos) => protocol_note_of(infos.next_header),
        Layer3Infos::Arp(_) => None,
        Layer3Infos::Absent => ethertype_note_of(ethertype),
    }
}

/// What decoding the network layer of a frame gives, together with what
/// the transport layer below it gave.
#[derive(Clone, Debug, PartialEq, Eq)]
pub struct Layer3Decoded {
    pub layer_3_infos: Layer3Infos,
    /// `None` where the network protocol has no transport layer.
    pub layer_4_infos: Option<Layer4Infos>,
    /// The remark on a protocol, of either layer, that is not supported.
    pub note: Option<DecodeNote>,
}

/// The text of the transport fields, where there are any.
pub open spec fn layer_4_text(infos: Option<Layer4Infos>) -> Option<Layer4Text> {
    match infos {
        Some(i) => Some(i@),
        None => None,
    }
}

/// The octets of `data` from `start` on, at most `declared` of them.
pub fn payload_slice<'a>(data: &'a [u8], start: usize, declared: usize) -> (r: &'a [u8])
    ensures
        r@ == payload_window(data@, start as int, declared as int),
{
    if data.len() <= start {
        let r = slice_subrange(data, 0, 0);
        assert(r@ =~= Seq::<u8>::empty());
        r
    } else {
        let room: usize = data.len() - start;
        if declared < room {
            slice_subrange(data, start, start + declared)
        } else {
            slice_subrange(data, start, data.len())
        }
    }
}

/// The payload of the IPv4 packet `data`, whose header declares
/// `header_length` words and `total_length` octets.
pub fn ipv4_payload<'a>(data: &'a [u8], header_length: u8, total_length: u16) -> (r: &'a [u8])
    ensures
        r@ == payload_window(
            data@,
            ipv4_payload_start(header_length),
            ipv4_payload_declared(header_length, total_length),
        ),
{
    let header_octets: usize = header_length as usize * 4;
    let start: usize = if header_octets > IPV4_HEADER_LEN {
        header_octets
    } else {
        IPV4_HEADER_LEN
    };
    let declared: usize = if total_length as usize > header_octets {
        total_length as usize - header_octets
    } else {
        0
    };
    payload_slice(data, start, declared)
}

impl Ipv4Infos {
    /// The fields of `header` as addresses and tags.
    pub fn from_header(header: &Ipv4Header) -> (r: Ipv4Infos)
        ensures
            r.ip_source == ipv4_at(header.source@, 0),
            r.ip_destination == ipv4_at(header.destination@, 0),
            r.protocol == ProtocolTag::of(header.next_level_protocol),
            r.total_length == header.total_length,
    {
        Ipv4Infos {
            ip_source: Ipv4Address::from_octets(header.source),
            ip_destination: Ipv4Address::from_octets(header.destination),
            protocol: ProtocolTag::from_code(header.next_level_protocol),
            total_length: header.total_length,
        }
    }
}

impl Ipv6Infos {
    /// The fields of `header` as addresses and tags.
    pub fn from_header(header: &Ipv6Header) -> (r: Ipv6Infos)
        ensures
            r.ip_source == ipv6_at(header.source@, 0),
            r.ip_destination == ipv6_at(header.destination@, 0),
            r.next_header == ProtocolTag::of(header.next_header),
            r.payload_length == header.payload_length,
    {
        Ipv6Infos {
            ip_source: Ipv6Address::from_octets(header.source),
            ip_destination: Ipv6Address::from_octets(header.destination),
            next_header: ProtocolTag::from_code(header.next_header),
            payload_length: header.payload_length,
        }
    }
}

impl ArpInfos {
    /// The fields of `header` as addresses and tags.
    pub fn from_header(header: &ArpHeader) -> (r: ArpInfos)
        ensures
            r.sender_hw_addr == mac_at(header.sender_hw_addr@, 0),
            r.target_hw_addr == mac_at(header.target_hw_addr@, 0),
            r.operation == ArpOperation::of(header.operation),
            r.sender_proto_addr == ipv4_at(header.sender_proto_addr@, 0),
            r.target_proto_addr == ipv4_at(header.target_proto_addr@, 0),
            r.hardware_type == header.hardware_type,
            r.proto_addr_len == header.proto_addr_len,
    {
        ArpInfos {
            sender_hw_addr: MacAddress::from_octets(header.sender_hw_addr),
            target_hw_addr: MacAddress::from_octets(header.target_hw_addr),
            operation: ArpOperation::from_code(header.operation),
            sender_proto_addr: Ipv4Address::from_octets(header.sender_proto_addr),
            target_proto_addr: Ipv4Address::from_octets(header.target_proto_addr),
            hardware_type: header.hardware_type,
            proto_addr_len: header.proto_addr_len,
        }
    }
}

/// Decodes the network layer of `ethernet_packet` and, below an IP header,
/// the transport layer of its payload.
///
/// A header that is cut short and an ethertype that is not supported both
/// give `Absent`, with the port placeholders beside it; the ethertype that is
/// not supported gives a remark as well. ARP has no transport layer, so
/// nothing stands beside its fields.
pub fn get_layer_3_infos(ethernet_packet: &EthernetFrame<'_>) -> (r: Layer3Decoded)
    ensures
        r.layer_3_infos == layer_3_of(ethernet_packet.ethertype, ethernet_packet.payload@),
        layer_4_text(r.layer_4_infos) == layer_4_of(
            ethernet_packet.ethertype,
            ethernet_packet.payload@,
        ),
        r.note == note_of(ethernet_packet.ethertype, ethernet_packet.payload@),
{
    let payload = ethernet_packet.payload;
    match ethernet_packet.ethertype {
        EthertypeTag::Ipv4 => {
            if let Some(header) = read_ipv4(payload) {
                proof {
                    lemma_ipv4_in_subrange(payload@, 12);
                    lemma_ipv4_in_subrange(payload@, 16);
                }
                let infos = Ipv4Infos::from_header(&header);
                let transport = ipv4_payload(payload, header.header_length, header.total_length);
                let (l_4, note) = get_layer_4_infos(infos.protocol, transport);
                Layer3Decoded {
                    layer_3_infos: Layer3Infos::Ipv4(infos),
                    layer_4_infos: Some(l_4),
                    note,
                }
            } else {
                absent_layer_3(None)
            }
        },
        EthertypeTag::Ipv6 => {
            if let Some(header) = read_ipv6(payload) {
                proof {
                    lemma_ipv6_in_subrange(payload@, 8);
                    lemma_ipv6_in_subrange(payload@, 24);
                }
                let infos = Ipv6Infos::from_header(&header);
                let transport = payload_slice(
                    payload,
                    IPV6_HEADER_LEN,
                    header.payload_length as usize,
                );
                let (l_4, note) = get_layer_4_infos(infos.next_header, transport);
                Layer3Decoded {
                    layer_3_infos: Layer3Infos::Ipv6(infos),
                    layer_4_infos: Some(l_4),
                    note,
                }
            } else {
                absent_layer_3(None)
            }
        },
        EthertypeTag::Arp => {
            if let Some(header) = read_arp(payload) {
                proof {
                    lemma_mac_in_subrange(payload@, 8);
                    lemma_ipv4_in_subrange(payload@, 14);
                    lemma_mac_in_subrange(payload@, 18);
                    lemma_ipv4_in_subrange(payload@, 24);
                }
                Layer3Decoded {
                    layer_3_infos: Layer3Infos::Arp(ArpInfos::from_header(&header)),
                    layer_4_infos: None,
                    note: None,
                }
            } else {
                absent_layer_3(None)
            }
        },
        EthertypeTag::Other(code) => absent_layer_3(Some(DecodeNote::UnsupportedEthertype(code))),
    }
}

/// No network layer, the port placeholders below it, and `note` beside them.
fn absent_layer_3(note: Option<DecodeNote>) -> (r: Layer3Decoded)
    ensures
        r.layer_3_infos == Layer3Infos::Absent,
        layer_4_text(r.layer_4_infos) == Some(n_a_4_info()),
        r.note == note,
{
    Layer3Decoded {
        layer_3_infos: Layer3Infos::Absent,
        layer_4_infos: Some(get_n_a_4_info()),
        note,
    }
}

} // verus!
