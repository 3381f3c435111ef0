use packet_infos::layer_2_infos::layer_3_infos::layer_4_infos::{
    get_layer_4_infos, get_n_a_4_info, get_port_from_tcp_packet, get_port_from_udp_packet,
    not_available_text, port_text, HandlePacketTypes, ProtocolTag, TcpHandler, UdpHandler,
};
use packet_infos::layer_2_infos::layer_3_infos::{ipv4_payload, payload_slice};
use packet_infos::notes::DecodeNote;
use packet_infos::wire::PortPair;
use pnet::packet::ipv4::Ipv4Packet;
use pnet::packet::ipv6::Ipv6Packet;
use pnet::packet::Packet;

fn header(len: usize, source: u16, destination: u16) -> Vec<u8> {
    let mut data = vec![0xa5u8; len];
    if len >= 4 {
        data[0..2].copy_from_slice(&source.to_be_bytes());
        data[2..4].copy_from_slice(&destination.to_be_bytes());
    }
    data
}

#[test]
fn n_a_info_holds_the_placeholder_twice() {
    let info = get_n_a_4_info();
    assert_eq!(info.port_source, "N/A");
    assert_eq!(info.port_destination, "N/A");
    assert_eq!(not_available_text(), "N/A");
}

#[test]
fn tcp_ports_are_read_big_endian() {
    let (info, note) = get_layer_4_infos(ProtocolTag::Tcp, &header(20, 0x1f90, 0x0050));
    assert_eq!(info.port_source, "8080");
    assert_eq!(info.port_destination, "80");
    assert_eq!(note, None);
}

#[test]
fn udp_ports_are_read_big_endian() {
    let (info, note) = get_layer_4_infos(ProtocolTag::Udp, &header(8, 0x0035, 0xc350));
    assert_eq!(info.port_source, "53");
    assert_eq!(info.port_destination, "50000");
    assert_eq!(note, None);
}

#[test]
fn tcp_needs_twenty_octets() {
    assert_eq!(get_layer_4_infos(ProtocolTag::Tcp, &header(19, 1, 2)), (get_n_a_4_info(), None));
    assert_eq!(get_layer_4_infos(ProtocolTag::Tcp, &[]), (get_n_a_4_info(), None));
    assert_eq!(get_layer_4_infos(ProtocolTag::Tcp, &header(20, 1, 2)).0.port_source, "1");
    assert_eq!(get_layer_4_infos(ProtocolTag::Tcp, &header(64, 1, 2)).0.port_destination, "2");
}

#[test]
fn udp_needs_eight_octets() {
    assert_eq!(get_layer_4_infos(ProtocolTag::Udp, &header(7, 1, 2)), (get_n_a_4_info(), None));
    assert_eq!(get_layer_4_infos(ProtocolTag::Udp, &[]), (get_n_a_4_info(), None));
    assert_eq!(get_layer_4_infos(ProtocolTag::Udp, &header(8, 1, 2)).0.port_source, "1");
}

#[test]
fn other_protocols_have_no_ports() {
    for code in [0u8, 1, 2, 41, 47, 50, 58, 255] {
        let tag = ProtocolTag::from_code(code);
        assert_eq!(tag, ProtocolTag::Other(code));
        assert_eq!(
            get_layer_4_infos(tag, &header(64, 1, 2)),
            (get_n_a_4_info(), Some(DecodeNote::UnsupportedProtocol(code)))
        );
        assert_eq!(
            get_layer_4_infos(tag, &[]),
            (get_n_a_4_info(), Some(DecodeNote::UnsupportedProtocol(code)))
        );
    }
}

#[test]
fn protocol_tags_and_codes() {
    assert_eq!(ProtocolTag::from_code(6), ProtocolTag::Tcp);
    assert_eq!(ProtocolTag::from_code(17), ProtocolTag::Udp);
    for code in 0..=255u8 {
        assert_eq!(ProtocolTag::from_code(code).code(), code);
    }
}

#[test]
fn handlers_read_their_own_header() {
    let data = header(12, 7, 9);
    assert_eq!(TcpHandler::get_layer_4(&data), get_n_a_4_info());
    let info = UdpHandler::get_layer_4(&data);
    assert_eq!(info.port_source, "7");
    assert_eq!(info.port_destination, "9");
    let data = header(20, 7, 9);
    assert_eq!(TcpHandler::get_layer_4(&data), UdpHandler::get_layer_4(&data));
}

#[test]
fn ports_become_decimal_text() {
    let pair = PortPair { source: 0, destination: 65535 };
    let info = get_port_from_tcp_packet(pair);
    assert_eq!(info.port_source, "0");
    assert_eq!(info.port_destination, "65535");
    assert_eq!(get_port_from_udp_packet(pair), info);
    for (port, text) in [(9u16, "9"), (10, "10"), (99, "99"), (100, "100"), (1000, "1000"),
        (10000, "10000"), (40404, "40404")] {
        assert_eq!(port_text(port), text);
    }
}

#[test]
fn port_text_agrees_with_the_standard_formatting() {
    let mut port: u32 = 0;
    while port <= 65535 {
        assert_eq!(port_text(port as u16), (port as u16).to_string());
        port += 7;
    }
    assert_eq!(port_text(65535), 65535u16.to_string());
}

#[test]
fn payload_slice_is_clipped_to_the_buffer() {
    let data: Vec<u8> = (0..10).collect();
    assert_eq!(payload_slice(&data, 4, 3), &[4, 5, 6]);
    assert_eq!(payload_slice(&data, 4, 6), &[4, 5, 6, 7, 8, 9]);
    assert_eq!(payload_slice(&data, 4, 100), &[4, 5, 6, 7, 8, 9]);
    assert_eq!(payload_slice(&data, 4, 0), &[] as &[u8]);
    assert_eq!(payload_slice(&data, 10, 5), &[] as &[u8]);
    assert_eq!(payload_slice(&data, 11, usize::MAX), &[] as &[u8]);
    assert_eq!(payload_slice(&data, 0, usize::MAX), &data[..]);
}

#[test]
fn ipv4_payload_agrees_with_pnet() {
    for header_words in 0..16u8 {
        for total_length in [0u16, 19, 20, 21, 24, 39, 40, 41, 59, 60, 61, 80, 100, 65535] {
            for len in [20usize, 21, 24, 40, 59, 60, 61, 80, 100] {
                let mut data: Vec<u8> = (0..len).map(|i| i as u8).collect();
                data[0] = 0x40 | header_words;
                data[2..4].copy_from_slice(&total_length.to_be_bytes());
                let packet = Ipv4Packet::new(&data).unwrap();
                assert_eq!(ipv4_payload(&data, header_words, total_length), packet.payload());
            }
        }
    }
}

#[test]
fn ipv6_payload_agrees_with_pnet() {
    for payload_length in [0u16, 1, 7, 8, 19, 20, 21, 60, 61, 65535] {
        for len in [40usize, 41, 48, 60, 100] {
            let mut data: Vec<u8> = (0..len).map(|i| i as u8).collect();
            data[4..6].copy_from_slice(&payload_length.to_be_bytes());
            let packet = Ipv6Packet::new(&data).unwrap();
            assert_eq!(payload_slice(&data, 40, payload_length as usize), packet.payload());
        }
    }
}
