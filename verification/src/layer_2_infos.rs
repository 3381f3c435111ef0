//! Link layer: the Ethernet header of a captured frame, and the record that
//! gathers what every layer yields.

pub mod layer_3_infos;

use vstd::prelude::*;
use vstd::slice::slice_subrange;
use vstd::string::StringExecFns;
use crate::addresses::{be16, lemma_mac_in_subrange, mac_at, mac_text, MacAddress};
use crate::layer_2_infos::layer_3_infos::layer_4_infos::{Layer4Infos, Layer4Text};
use crate::layer_2_infos::layer_3_infos::{
    get_layer_3_infos, layer_3_of, layer_4_of, layer_4_text, note_of, Layer3Infos,
};
use crate::notes::DecodeNote;
use crate::text::push_char;
use crate::wire::{ethertype_name, ethertype_text, read_ethernet, ETHERNET_HEADER_LEN};

verus! {

/// Ethertype of IPv4.
pub const ETHERTYPE_IPV4: u16 = 0x0800;

/// Ethertype of ARP.
pub const ETHERTYPE_ARP: u16 = 0x0806;

/// Ethertype of IPv6.
pub const ETHERTYPE_IPV6: u16 = 0x86DD;

/// The network protocol that an Ethernet header announces.
///
/// Decoding goes by the variant: a tag `Other` that was written by hand
/// around the code of a supported protocol counts as not supported.
#[derive(Clone, Copy, Debug, PartialEq, Eq, Structural)]
pub enum EthertypeTag {
    Ipv4,
    Ipv6,
    Arp,
    /// Any other ethertype, with its code.
    Other(u16),
}

impl EthertypeTag {
    /// The tag for ethertype `code`.
    pub open spec fn of(code: u16) -> EthertypeTag {
        if code == ETHERTYPE_IPV4 {
            EthertypeTag::Ipv4
        } else if code == ETHERTYPE_IPV6 {
            EthertypeTag::Ipv6
        } else if code == ETHERTYPE_ARP {
            EthertypeTag::Arp
        } else {
            EthertypeTag::Other(code)
        }
    }

    /// The ethertype that the tag stands for.
    pub open spec fn number(self) -> u16 {
        match self {
            EthertypeTag::Ipv4 => ETHERTYPE_IPV4,
            EthertypeTag::Ipv6 => ETHERTYPE_IPV6,
            EthertypeTag::Arp => ETHERTYPE_ARP,
            EthertypeTag::Other(code) => code,
        }
    }

    /// The tag for ethertype `code`.
    pub fn from_code(code: u16) -> (tag: EthertypeTag)
        ensures
            tag == EthertypeTag::of(code),
            tag.number() == code,
    {
        if code == ETHERTYPE_IPV4 {
            EthertypeTag::Ipv4
        } else if code == ETHERTYPE_IPV6 {
            EthertypeTag::Ipv6
        } else if code == ETHERTYPE_ARP {
            EthertypeTag::Arp
        } else {
            EthertypeTag::Other(code)
        }
    }

    /// The ethertype that the tag stands for.
    pub fn code(&self) -> (code: u16)
        ensures
            code == self.number(),
    {
        match self {
            EthertypeTag::Ipv4 => ETHERTYPE_IPV4,
            EthertypeTag::Ipv6 => ETHERTYPE_IPV6,
            EthertypeTag::Arp => ETHERTYPE_ARP,
            EthertypeTag::Other(code) => *code,
        }
    }
}

/// An Ethernet frame taken apart: the fields of its header, and its payload
/// as a view into the captured buffer.
#[derive(Clone, Copy, Debug)]
pub struct EthernetFrame<'a> {
    pub destination: MacAddress,
    pub source: MacAddress,
    pub ethertype: EthertypeTag,
    pub payload: &'a [u8],
}

/// What an [`EthernetFrame`] holds, the payload as a sequence of octets.
pub struct EthernetFrameFields {
    pub destination: MacAddress,
    pub source: MacAddress,
    pub ethertype: EthertypeTag,
    pub payload: Seq<u8>,
}

impl<'a> View for EthernetFrame<'a> {
    type V = EthernetFrameFields;

    open spec fn view(&self) -> EthernetFrameFields {
        EthernetFrameFields {
            destination: self.destination,
            source: self.source,
            ethertype: self.ethertype,
            payload: self.payload@,
        }
    }
}

/// The frame that the octets `packet` hold: nothing where they are fewer than
/// an Ethernet header, and else the destination in octets 0 to 5, the source
/// in octets 6 to 11, the ethertype in octets 12 and 13, and every octet after
/// them as payload.
pub open spec fn ethernet_frame_of(packet: Seq<u8>) -> Option<EthernetFrameFields> {
    if packet.len() >= ETHERNET_HEADER_LEN {
        Some(
            EthernetFrameFields {
                destination: mac_at(packet, 0),
                source: mac_at(packet, 6),
                ethertype: EthertypeTag::of(be16(packet[12], packet[13])),
                payload: packet.subrange(ETHERNET_HEADER_LEN as int, packet.len() as int),
            },
        )
    } else {
        None
    }
}

/// The fields of a frame, where there is one.
pub open spec fn frame_fields(frame: Option<EthernetFrame<'_>>) -> Option<EthernetFrameFields> {
    match frame {
        Some(f) => Some(f@),
        None => None,
    }
}

impl<'a> EthernetFrame<'a> {
    /// Takes the captured frame `packet` apart. A buffer shorter than an
    /// Ethernet header gives `None`; the payload is borrowed from `packet`.
    pub fn new(packet: &'a [u8]) -> (r: Option<EthernetFrame<'a>>)
        ensures
            frame_fields(r) == ethernet_frame_of(packet@),
    {
        match read_ethernet(packet) {
            Some(header) => {
                proof {
                    lemma_mac_in_subrange(packet@, 0);
                    lemma_mac_in_subrange(packet@, 6);
                }
                Some(
                    EthernetFrame {
                        destination: MacAddress::from_octets(header.destination),
                        source: MacAddress::from_octets(header.source),
                        ethertype: EthertypeTag::from_code(header.ethertype),
                        payload: slice_subrange(packet, ETHERNET_HEADER_LEN, packet.len()),
                    },
                )
            },
            None => None,
        }
    }

    /// The hardware address of the sender.
    pub fn get_source(&self) -> (r: MacAddress)
        ensures
            r == self.source,
    {
        self.source
    }

    /// The hardware address of the receiver.
    pub fn get_destination(&self) -> (r: MacAddress)
        ensures
            r == self.destination,
    {
        self.destination
    }

    /// The network protocol that the header announces.
    pub fn get_ethertype(&self) -> (r: EthertypeTag)
        ensures
            r == self.ethertype,
    {
        self.ethertype
    }

    /// What follows the header.
    pub fn payload(&self) -> (r: &'a [u8])
        ensures
            r@ == self.payload@,
    {
        self.payload
    }
}

/// The remark on the ethertype `ethertype`: one for a type that is not
/// supported, with its code.
pub open spec fn ethertype_note_of(ethertype: EthertypeTag) -> Option<DecodeNote> {
    match ethertype {
        EthertypeTag::Other(code) => Some(DecodeNote::UnsupportedEthertype(code)),
        _ => None,
    }
}

/// Everything that was decoded of one frame.
#[derive(Clone, Debug, PartialEq, Eq)]
pub struct PacketInfos {
    mac_address_source: MacAddress,
    mac_address_destination: MacAddress,
    interface: String,
    l_3_protocol: String,
    ethertype: EthertypeTag,
    layer_3_infos: Layer3Infos,
    layer_4_infos: Option<Layer4Infos>,
    note: Option<DecodeNote>,
}

/// What a [`PacketInfos`] holds, its texts as sequences of characters.
pub struct PacketRecord {
    pub mac_address_source: MacAddress,
    pub mac_address_destination: MacAddress,
    pub interface: Seq<char>,
    pub l_3_protocol: Seq<char>,
    pub ethertype: EthertypeTag,
    pub layer_3_infos: Layer3Infos,
    pub layer_4_infos: Option<Layer4Text>,
    pub note: Option<DecodeNote>,
}

impl View for PacketInfos {
    type V = PacketRecord;

    closed spec fn view(&self) -> PacketRecord {
        PacketRecord {
            mac_address_source: self.mac_address_source,
            mac_address_destination: self.mac_address_destination,
            interface: self.interface@,
            l_3_protocol: self.l_3_protocol@,
            ethertype: self.ethertype,
            layer_3_infos: self.layer_3_infos,
            layer_4_infos: layer_4_text(self.layer_4_infos),
            note: self.note,
        }
    }
}

/// The record of `frame`, captured on `interface`, with `l_3_protocol` as the
/// name of its ethertype.
pub open spec fn packet_record_with(
    interface: Seq<char>,
    frame: EthernetFrameFields,
    l_3_protocol: Seq<char>,
) -> PacketRecord {
    PacketRecord {
        mac_address_source: frame.source,
        mac_address_destination: frame.destination,
        interface,
        l_3_protocol,
        ethertype: frame.ethertype,
        layer_3_infos: layer_3_of(frame.ethertype, frame.payload),
        layer_4_infos: layer_4_of(frame.ethertype, frame.payload),
        note: note_of(frame.ethertype, frame.payload),
    }
}

/// The record of `frame`, captured on `interface`.
pub open spec fn packet_record_of(interface: Seq<char>, frame: EthernetFrameFields) -> PacketRecord {
    packet_record_with(interface, frame, ethertype_name(frame.ethertype.number()))
}

/// The record of the captured octets `packet`: none where they are fewer
/// than an Ethernet header, and else the record of the frame they hold.
pub open spec fn record_of(interface: Seq<char>, packet: Seq<u8>) -> Option<PacketRecord> {
    match ethernet_frame_of(packet) {
        Some(frame) => Some(packet_record_of(interface, frame)),
        None => None,
    }
}

/// What a record holds, where there is one.
pub open spec fn record_fields(record: Option<PacketInfos>) -> Option<PacketRecord> {
    match record {
        Some(r) => Some(r@),
        None => None,
    }
}

/// One line of the rendering: a label, a value, and a line feed.
pub open spec fn text_line(label: Seq<char>, value: Seq<char>) -> Seq<char> {
    label + value + seq!['\n']
}

/// The two lines for the ports, where the record has a transport layer.
pub open spec fn port_lines(layer_4: Option<Layer4Text>) -> Seq<char> {
    match layer_4 {
        Some(ports) => text_line("port_source: "@, ports.port_source) + text_line(
            "port_destination: "@,
            ports.port_destination,
        ),
        None => Seq::empty(),
    }
}

/// The rendering of a record: one line for each field, in a fixed order.
pub open spec fn record_text(record: PacketRecord) -> Seq<char> {
    text_line("MAC Source: "@, mac_text(record.mac_address_source)) + text_line(
        "MAC Destination: "@,
        mac_text(record.mac_address_destination),
    ) + text_line("Interface: "@, record.interface) + text_line(
        "L 3 proto: "@,
        record.l_3_protocol,
    ) + text_line("ip_source: "@, record.layer_3_infos.source_text()) + text_line(
        "ip_destination: "@,
        record.layer_3_infos.destination_text(),
    ) + port_lines(record.layer_4_infos)
}

/// Appends the line made of `label` and `value` to `s`.
fn push_line(s: &mut String, label: &str, value: &str)
    ensures
        final(s)@ == old(s)@ + text_line(label@, value@),
{
    s.append(label);
    s.append(value);
    push_char(s, '\n');
}

impl PacketInfos {
    /// Decodes every layer of `ethernet_packet`, captured on the interface
    /// `interface_name`.
    pub fn new(interface_name: &String, ethernet_packet: &EthernetFrame<'_>) -> (r: PacketInfos)
        ensures
            r@ == packet_record_of(interface_name@, ethernet_packet@),
    {
        let l_3_protocol = ethertype_text(ethernet_packet.ethertype.code());
        PacketInfos::with_protocol_name(interface_name, ethernet_packet, l_3_protocol)
    }

    /// Decodes every layer of `ethernet_packet`, captured on the interface
    /// `interface_name`, and records `l_3_protocol` as the name of its
    /// ethertype.
    pub fn with_protocol_name(
        interface_name: &String,
        ethernet_packet: &EthernetFrame<'_>,
        l_3_protocol: String,
    ) -> (r: PacketInfos)
        ensures
            r@ == packet_record_with(interface_name@, ethernet_packet@, l_3_protocol@),
    {
        let decoded = get_layer_3_infos(ethernet_packet);
        PacketInfos {
            mac_address_source: ethernet_packet.get_source(),
            mac_address_destination: ethernet_packet.get_destination(),
            interface: interface_name.clone(),
            l_3_protocol,
            ethertype: ethernet_packet.get_ethertype(),
            layer_3_infos: decoded.layer_3_infos,
            layer_4_infos: decoded.layer_4_infos,
            note: decoded.note,
        }
    }

    /// The hardware address of the sender.
    pub fn mac_address_source(&self) -> (r: MacAddress)
        ensures
            r == self@.mac_address_source,
    {
        self.mac_address_source
    }

    /// The hardware address of the receiver.
    pub fn mac_address_destination(&self) -> (r: MacAddress)
        ensures
            r == self@.mac_address_destination,
    {
        self.mac_address_destination
    }

    /// The label of the interface on which the frame was captured.
    pub fn interface(&self) -> (r: &String)
        ensures
            r@ == self@.interface,
    {
        &self.interface
    }

    /// The name of the ethertype.
    pub fn l_3_protocol(&self) -> (r: &String)
        ensures
            r@ == self@.l_3_protocol,
    {
        &self.l_3_protocol
    }

    /// The network protocol that the Ethernet header announces.
    pub fn ethertype(&self) -> (r: EthertypeTag)
        ensures
            r == self@.ethertype,
    {
        self.ethertype
    }

    /// What was decoded of the network layer.
    pub fn layer_3_infos(&self) -> (r: Layer3Infos)
        ensures
            r == self@.layer_3_infos,
    {
        self.layer_3_infos
    }

    /// What was decoded of the transport layer; `None` where the network
    /// protocol has none.
    pub fn layer_4_infos(&self) -> (r: &Option<Layer4Infos>)
        ensures
            layer_4_text(*r) == self@.layer_4_infos,
    {
        &self.layer_4_infos
    }

    /// The record as text, one line for each field: the two hardware
    /// addresses, the interface, the name of the ethertype, the two network
    /// addresses and, where the record has a transport layer, the two ports.
    pub fn to_text(&self) -> (r: String)
        ensures
            r@ == record_text(self@),
    {
        let mut s = String::new();
        let source = self.mac_address_source.to_text();
        push_line(&mut s, "MAC Source: ", source.as_str());
        let destination = self.mac_address_destination.to_text();
        push_line(&mut s, "MAC Destination: ", destination.as_str());
        push_line(&mut s, "Interface: ", self.interface.as_str());
        push_line(&mut s, "L 3 proto: ", self.l_3_protocol.as_str());
        let ip_source = self.layer_3_infos.ip_source();
        push_line(&mut s, "ip_source: ", ip_source.as_str());
        let ip_destination = self.layer_3_infos.ip_destination();
        push_line(&mut s, "ip_destination: ", ip_destination.as_str());
        match &self.layer_4_infos {
            Some(ports) => {
                push_line(&mut s, "port_source: ", ports.port_source.as_str());
                push_line(&mut s, "port_destination: ", ports.port_destination.as_str());
            },
            None => {},
        }
        s
    }

    /// The remark on a protocol that is not supported, where the frame
    /// announces one.
    pub fn note(&self) -> (r: Option<DecodeNote>)
        ensures
            r == self@.note,
    {
        self.note
    }
}

/// Decodes the captured octets `raw_frame`, received on the interface
/// `interface_name`.
///
/// Gives `None` only where the octets are fewer than an Ethernet header.
/// Every other frame gives a record, in which a layer that could not be
/// decoded is absent or holds placeholders, with a remark where a protocol is
/// not supported.
pub fn build_record(interface_name: &String, raw_frame: &[u8]) -> (r: Option<PacketInfos>)
    ensures
        record_fields(r) == record_of(interface_name@, raw_frame@),
{
    match EthernetFrame::new(raw_frame) {
        Some(frame) => Some(PacketInfos::new(interface_name, &frame)),
        None => None,
    }
}

} // verus!
