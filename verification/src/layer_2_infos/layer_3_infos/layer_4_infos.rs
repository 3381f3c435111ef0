//! Transport layer: the ports of a TCP or UDP header.

use vstd::prelude::*;
use vstd::string::StringExecFns;
use crate::notes::DecodeNote;
use crate::text::{decimal_text, push_decimal};
use crate::wire::{leading_ports, read_tcp, read_udp, PortPair, TCP_HEADER_LEN, UDP_HEADER_LEN};

verus! {

/// IP protocol number of TCP.
pub const PROTOCOL_TCP: u8 = 6;

/// IP protocol number of UDP.
pub const PROTOCOL_UDP: u8 = 17;

/// The transport protocol that an IP header announces.
#[derive(Clone, Copy, Debug, PartialEq, Eq, Structural)]
pub enum ProtocolTag {
    Tcp,
    Udp,
    /// Any other protocol, with its number.
    Other(u8),
}

impl ProtocolTag {
    /// The tag for protocol number `code`.
    pub open spec fn of(code: u8) -> ProtocolTag {
        if code == PROTOCOL_TCP {
            ProtocolTag::Tcp
        } else if code == PROTOCOL_UDP {
            ProtocolTag::Udp
        } else {
            ProtocolTag::Other(code)
        }
    }

    /// The protocol number that the tag stands for.
    pub open spec fn number(self) -> u8 {
        match self {
            ProtocolTag::Tcp => PROTOCOL_TCP,
            ProtocolTag::Udp => PROTOCOL_UDP,
            ProtocolTag::Other(code) => code,
        }
    }

    /// The tag for protocol number `code`.
    pub fn from_code(code: u8) -> (tag: ProtocolTag)
        ensures
            tag == ProtocolTag::of(code),
            tag.number() == code,
    {
        if code == PROTOCOL_TCP {
            ProtocolTag::Tcp
        } else if code == PROTOCOL_UDP {
            ProtocolTag::Udp
        } else {
            ProtocolTag::Other(code)
        }
    }

    /// The protocol number that the tag stands for.
    pub fn code(&self) -> (code: u8)
        ensures
            code == self.number(),
    {
        match self {
            ProtocolTag::Tcp => PROTOCOL_TCP,
            ProtocolTag::Udp => PROTOCOL_UDP,
            ProtocolTag::Other(code) => *code,
        }
    }
}

/// Source and destination port as text: decimal numbers, or `N/A` where the
/// frame carries no readable port.
#[derive(Clone, Debug, PartialEq, Eq)]
pub struct Layer4Infos {
    pub port_source: String,
    pub port_destination: String,
}

/// What a [`Layer4Infos`] holds, as sequences of characters.
pub struct Layer4Text {
    pub port_source: Seq<char>,
    pub port_destination: Seq<char>,
}

impl View for Layer4Infos {
    type V = Layer4Text;

    open spec fn view(&self) -> Layer4Text {
        Layer4Text { port_source: self.port_source@, port_destination: self.port_destination@ }
    }
}

/// The placeholder for a port that is not available.
pub open spec fn not_available() -> Seq<char> {
    seq!['N', '/', 'A']
}

/// Both ports not available.
pub open spec fn n_a_4_info() -> Layer4Text {
    Layer4Text { port_source: not_available(), port_destination: not_available() }
}

/// Both ports as decimal numbers.
pub open spec fn port_texts(ports: PortPair) -> Layer4Text {
    Layer4Text {
        port_source: decimal_text(ports.source as nat),
        port_destination: decimal_text(ports.destination as nat),
    }
}

/// The ports read from a header, or the placeholders where none was read.
pub open spec fn layer_4_of_ports(ports: Option<PortPair>) -> Layer4Text {
    match ports {
        Some(p) => port_texts(p),
        None => n_a_4_info(),
    }
}

/// What the transport layer yields for protocol `proto` on payload `data`:
/// the ports of a TCP or UDP header that is wholly there, the placeholders
/// for a shorter payload and for every other protocol.
pub open spec fn layer_4_infos_of(proto: ProtocolTag, data: Seq<u8>) -> Layer4Text {
    match proto {
        ProtocolTag::Tcp => layer_4_of_ports(leading_ports(data, TCP_HEADER_LEN as int)),
        ProtocolTag::Udp => layer_4_of_ports(leading_ports(data, UDP_HEADER_LEN as int)),
        ProtocolTag::Other(_) => n_a_4_info(),
    }
}

/// The remark on the protocol `proto`: one for a protocol that is neither
/// TCP nor UDP, with its number.
pub open spec fn protocol_note_of(proto: ProtocolTag) -> Option<DecodeNote> {
    match proto {
        ProtocolTag::Other(code) => Some(DecodeNote::UnsupportedProtocol(code)),
        _ => None,
    }
}

/// The decimal text of a port number.
pub fn port_text(port: u16) -> (r: String)
    ensures
        r@ == decimal_text(port as nat),
{
    let mut s = String::new();
    push_decimal(&mut s, port);
    s
}

/// A decoder for the header of one transport protocol.
pub trait HandlePacketTypes {
    /// The ports that the protocol's header holds in `data`, if it is wholly there.
    spec fn ports_of(data: Seq<u8>) -> Option<PortPair>;

    /// Reads the ports from `data`, and gives the placeholders where the
    /// header is cut short.
    fn get_layer_4(data: &[u8]) -> (r: Layer4Infos)
        ensures
            r@ == layer_4_of_ports(Self::ports_of(data@)),
    ;
}

/// Decoder for TCP headers.
pub struct TcpHandler;

/// Decoder for UDP headers.
pub struct UdpHandler;

impl HandlePacketTypes for TcpHandler {
    open spec fn ports_of(data: Seq<u8>) -> Option<PortPair> {
        leading_ports(data, TCP_HEADER_LEN as int)
    }

    fn get_layer_4(data: &[u8]) -> (r: Layer4Infos) {
        if let Some(l_4) = read_tcp(data) {
            get_port_from_tcp_packet(l_4)
        } else {
            get_n_a_4_info()
        }
    }
}

impl HandlePacketTypes for UdpHandler {
    open spec fn ports_of(data: Seq<u8>) -> Option<PortPair> {
        leading_ports(data, UDP_HEADER_LEN as int)
    }

    fn get_layer_4(data: &[u8]) -> (r: Layer4Infos) {
        if let Some(l_4) = read_udp(data) {
            get_port_from_udp_packet(l_4)
        } else {
            get_n_a_4_info()
        }
    }
}

/// The ports of a UDP header as text.
pub fn get_port_from_udp_packet(l_4: PortPair) -> (r: Layer4Infos)
    ensures
        r@ == port_texts(l_4),
{
    Layer4Infos {
        port_source: port_text(l_4.source),
        port_destination: port_text(l_4.destination),
    }
}

/// The ports of a TCP header as text.
pub fn get_port_from_tcp_packet(l_4: PortPair) -> (r: Layer4Infos)
    ensures
        r@ == port_texts(l_4),
{
    Layer4Infos {
        port_source: port_text(l_4.source),
        port_destination: port_text(l_4.destination),
    }
}

/// The placeholder `N/A` as a string.
pub fn not_available_text() -> (r: String)
    ensures
        r@ == not_available(),
{
    proof {
        reveal_strlit("N/A");
    }
    let r = String::from_str("N/A");
    assert(r@ =~= not_available());
    r
}

/// Both ports set to the placeholder `N/A`.
pub fn get_n_a_4_info() -> (r: Layer4Infos)
    ensures
        r@ == n_a_4_info(),
{
    Layer4Infos { port_source: not_available_text(), port_destination: not_available_text() }
}

/// Decodes the transport header of protocol `proto` at the start of `data`.
///
/// A protocol that is neither TCP nor UDP gives the placeholders and a
/// remark that carries its number; a header that is cut short gives the
/// placeholders alone.
pub fn get_layer_4_infos(proto: ProtocolTag, data: &[u8]) -> (r: (Layer4Infos, Option<DecodeNote>))
    ensures
        r.0@ == layer_4_infos_of(proto, data@),
        r.1 == protocol_note_of(proto),
{
    match proto {
        ProtocolTag::Tcp => (TcpHandler::get_layer_4(data), None),
        ProtocolTag::Udp => (UdpHandler::get_layer_4(data), None),
        ProtocolTag::Other(code) => (
            get_n_a_4_info(),
            Some(DecodeNote::UnsupportedProtocol(code)),
        ),
    }
}

} // verus!
