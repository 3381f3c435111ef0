use packet_infos::addresses::{join_be16, Ipv4Address, Ipv6Address, MacAddress};
use packet_infos::layer_2_infos::layer_3_infos::layer_4_infos::Layer4Infos;
use packet_infos::layer_2_infos::layer_3_infos::Layer3Infos;
use packet_infos::layer_2_infos::{build_record, EthernetFrame, EthertypeTag, PacketInfos};
use packet_infos::text::{push_decimal, push_hex};
use pnet::packet::ipv4::Ipv4Packet;
use pnet::packet::ipv6::Ipv6Packet;
use pnet::util::MacAddr;

fn frame(ethertype: u16, payload: &[u8]) -> Vec<u8> {
    let mut frame = vec![0xaa, 0xbb, 0xcc, 0x0d, 0x0e, 0x0f, 0x02, 0x00, 0x5e, 0x10, 0x00, 0x01];
    frame.extend_from_slice(&ethertype.to_be_bytes());
    frame.extend_from_slice(payload);
    frame
}

fn ipv6_bytes(groups: [u16; 8]) -> [u8; 16] {
    let mut bytes = [0u8; 16];
    for (i, group) in groups.iter().enumerate() {
        bytes[2 * i..2 * i + 2].copy_from_slice(&group.to_be_bytes());
    }
    bytes
}

fn ipv6_address(groups: [u16; 8]) -> Ipv6Address {
    Ipv6Address(
        groups[0], groups[1], groups[2], groups[3], groups[4], groups[5], groups[6], groups[7],
    )
}

fn standard_ipv6_text(groups: [u16; 8]) -> String {
    let mut packet = [0u8; 40];
    packet[8..24].copy_from_slice(&ipv6_bytes(groups));
    Ipv6Packet::new(&packet).unwrap().get_source().to_string()
}

fn standard_ipv4_text(octets: [u8; 4]) -> String {
    let mut packet = [0u8; 20];
    packet[12..16].copy_from_slice(&octets);
    Ipv4Packet::new(&packet).unwrap().get_source().to_string()
}

#[test]
fn digits_in_both_bases() {
    for (d, c) in "0123456789".chars().enumerate() {
        let mut s = String::new();
        push_decimal(&mut s, d as u16);
        assert_eq!(s, c.to_string());
    }
    for (d, c) in "0123456789abcdef".chars().enumerate() {
        let mut s = String::new();
        push_hex(&mut s, d as u16);
        assert_eq!(s, c.to_string());
    }
}

#[test]
fn decimal_and_hexadecimal_numbers() {
    for (n, decimal, hex) in [
        (0u16, "0", "0"),
        (9, "9", "9"),
        (10, "10", "a"),
        (15, "15", "f"),
        (16, "16", "10"),
        (255, "255", "ff"),
        (256, "256", "100"),
        (4095, "4095", "fff"),
        (4096, "4096", "1000"),
        (43981, "43981", "abcd"),
        (65535, "65535", "ffff"),
    ] {
        let mut s = String::from(">");
        push_decimal(&mut s, n);
        assert_eq!(s, format!(">{}", decimal));
        let mut s = String::from(">");
        push_hex(&mut s, n);
        assert_eq!(s, format!(">{}", hex));
    }
}

#[test]
fn join_be16_puts_the_first_octet_high() {
    assert_eq!(join_be16(0x12, 0x34), 0x1234);
    assert_eq!(join_be16(0x00, 0xff), 0x00ff);
    assert_eq!(join_be16(0xff, 0x00), 0xff00);
    assert_eq!(join_be16(0xff, 0xff), 0xffff);
}

#[test]
fn mac_text_is_lower_case_hex_with_colons() {
    assert_eq!(MacAddress(0xff, 0xff, 0xff, 0xff, 0xff, 0xff).to_text(), "ff:ff:ff:ff:ff:ff");
    assert_eq!(MacAddress(0, 0x11, 0x22, 0x33, 0x44, 0x55).to_text(), "00:11:22:33:44:55");
    assert_eq!(MacAddress(0x0a, 0xB0, 0x0c, 0xD0, 0x0e, 0xF0).to_text(), "0a:b0:0c:d0:0e:f0");
    assert_eq!(MacAddress(1, 2, 3, 4, 5, 6).to_text(), MacAddr::new(1, 2, 3, 4, 5, 6).to_string());
    assert_eq!(MacAddress::from_octets([1, 2, 3, 4, 5, 6]), MacAddress(1, 2, 3, 4, 5, 6));
}

#[test]
fn ipv4_text_is_dotted_decimal() {
    assert_eq!(Ipv4Address(10, 0, 0, 1).to_text(), "10.0.0.1");
    assert_eq!(Ipv4Address(0, 0, 0, 0).to_text(), "0.0.0.0");
    assert_eq!(Ipv4Address(255, 255, 255, 255).to_text(), "255.255.255.255");
    assert_eq!(Ipv4Address(192, 168, 100, 9).to_text(), "192.168.100.9");
    assert_eq!(Ipv4Address::from_octets([1, 2, 3, 4]), Ipv4Address(1, 2, 3, 4));
    for octets in [[1u8, 20, 200, 0], [127, 0, 0, 1], [99, 100, 101, 9]] {
        assert_eq!(Ipv4Address::from_octets(octets).to_text(), standard_ipv4_text(octets));
    }
}

#[test]
fn ipv6_text_is_canonical() {
    for (groups, text) in [
        ([0u16, 0, 0, 0, 0, 0, 0, 0], "::"),
        ([0, 0, 0, 0, 0, 0, 0, 1], "::1"),
        ([1, 0, 0, 0, 0, 0, 0, 0], "1::"),
        ([0xfe80, 0, 0, 0, 0, 0, 0, 1], "fe80::1"),
        ([0x2001, 0x0db8, 0, 0, 0, 0, 0xabcd, 0x42], "2001:db8::abcd:42"),
        ([0x2001, 0x0db8, 0, 1, 0, 0, 0, 1], "2001:db8:0:1::1"),
        ([0x2001, 0, 0, 1, 0, 0, 1, 1], "2001::1:0:0:1:1"),
        ([1, 0, 2, 0, 3, 0, 4, 0], "1:0:2:0:3:0:4:0"),
        ([1, 2, 3, 4, 5, 6, 7, 8], "1:2:3:4:5:6:7:8"),
        ([0, 1, 2, 3, 4, 5, 6, 7], "0:1:2:3:4:5:6:7"),
        ([0, 0, 2, 3, 4, 5, 6, 7], "::2:3:4:5:6:7"),
        ([1, 2, 3, 4, 5, 6, 0, 0], "1:2:3:4:5:6::"),
        ([0xffff, 0xffff, 0xffff, 0xffff, 0xffff, 0xffff, 0xffff, 0xffff],
            "ffff:ffff:ffff:ffff:ffff:ffff:ffff:ffff"),
        ([0, 0, 0, 0, 0, 0xffff, 0xc0a8, 0x0101], "::ffff:192.168.1.1"),
        ([0, 0, 0, 0, 0, 0xffff, 0, 0], "::ffff:0.0.0.0"),
        ([0, 0, 0, 0, 0, 0, 0xc0a8, 0x0101], "::c0a8:101"),
        ([0, 0, 0, 0, 0, 0xfffe, 0xc0a8, 0x0101], "::fffe:c0a8:101"),
    ] {
        assert_eq!(ipv6_address(groups).to_text(), text);
        assert_eq!(Ipv6Address::from_octets(ipv6_bytes(groups)), ipv6_address(groups));
    }
}

#[test]
fn ipv6_text_agrees_with_the_standard_formatting() {
    let values = [0u16, 1, 0xffff];
    let mut index = 0usize;
    while index < 6561 {
        let mut groups = [0u16; 8];
        let mut rest = index;
        for group in groups.iter_mut() {
            *group = values[rest % 3];
            rest /= 3;
        }
        assert_eq!(ipv6_address(groups).to_text(), standard_ipv6_text(groups));
        index += 1;
    }
    for groups in [
        [0x2001, 0x0db8, 0x85a3, 0, 0, 0x8a2e, 0x0370, 0x7334],
        [0xff02, 0, 0, 0, 0, 1, 0xff00, 0x0042],
        [0, 0, 0, 0, 0, 0xffff, 0x7f00, 0x0001],
        [0x0064, 0xff9b, 0, 0, 0, 0, 0xc000, 0x0221],
        [0x0a0b, 0x00c0, 0x000d, 0xe000, 0x0f00, 0x0010, 0x0100, 0x1000],
    ] {
        assert_eq!(ipv6_address(groups).to_text(), standard_ipv6_text(groups));
    }
}

#[test]
fn longest_zero_run_prefers_the_first_of_equals() {
    assert_eq!(Ipv6Address::longest_zero_run(&[1, 0, 0, 1, 0, 0, 1, 1]), (1, 2));
    assert_eq!(Ipv6Address::longest_zero_run(&[1, 0, 0, 1, 0, 0, 0, 1]), (4, 3));
    assert_eq!(Ipv6Address::longest_zero_run(&[0, 0, 0, 0, 0, 0, 0, 0]), (0, 8));
    assert_eq!(Ipv6Address::longest_zero_run(&[1, 1, 1, 1, 1, 1, 1, 0]), (7, 1));
    assert_eq!(Ipv6Address::longest_zero_run(&[1, 1, 1, 1, 1, 1, 1, 1]).1, 0);
}

#[test]
fn network_addresses_as_text() {
    let absent = Layer3Infos::Absent;
    assert_eq!(absent.ip_source(), "N/A");
    assert_eq!(absent.ip_destination(), "N/A");
}

#[test]
fn record_text_of_an_ipv4_tcp_frame() {
    let mut packet = vec![0u8; 40];
    packet[0] = 0x45;
    packet[2..4].copy_from_slice(&40u16.to_be_bytes());
    packet[9] = 6;
    packet[12..16].copy_from_slice(&[172, 16, 0, 5]);
    packet[16..20].copy_from_slice(&[8, 8, 8, 8]);
    packet[20..22].copy_from_slice(&49152u16.to_be_bytes());
    packet[22..24].copy_from_slice(&443u16.to_be_bytes());
    let record = build_record(&"enp3s0".to_string(), &frame(0x0800, &packet)).unwrap();
    assert_eq!(record.l_3_protocol(), "Ipv4");
    assert_eq!(
        record.to_text(),
        "MAC Source: 02:00:5e:10:00:01\n\
         MAC Destination: aa:bb:cc:0d:0e:0f\n\
         Interface: enp3s0\n\
         L 3 proto: Ipv4\n\
         ip_source: 172.16.0.5\n\
         ip_destination: 8.8.8.8\n\
         port_source: 49152\n\
         port_destination: 443\n"
    );
}

#[test]
fn record_text_of_an_ipv6_frame_without_ports() {
    let mut packet = vec![0u8; 48];
    packet[0] = 0x60;
    packet[4..6].copy_from_slice(&8u16.to_be_bytes());
    packet[6] = 58;
    packet[8..24].copy_from_slice(&ipv6_bytes([0xfe80, 0, 0, 0, 0x0200, 0x5eff, 0xfe10, 1]));
    packet[24..40].copy_from_slice(&ipv6_bytes([0xff02, 0, 0, 0, 0, 0, 0, 2]));
    let record = build_record(&"eth1".to_string(), &frame(0x86dd, &packet)).unwrap();
    assert_eq!(
        record.to_text(),
        "MAC Source: 02:00:5e:10:00:01\n\
         MAC Destination: aa:bb:cc:0d:0e:0f\n\
         Interface: eth1\n\
         L 3 proto: Ipv6\n\
         ip_source: fe80::200:5eff:fe10:1\n\
         ip_destination: ff02::2\n\
         port_source: N/A\n\
         port_destination: N/A\n"
    );
}

#[test]
fn record_text_of_an_arp_frame_has_no_port_lines() {
    let mut packet = vec![0x00, 0x01, 0x08, 0x00, 6, 4, 0x00, 0x02];
    packet.extend_from_slice(&[0x02, 0x00, 0x5e, 0x10, 0x00, 0x01, 10, 1, 2, 3]);
    packet.extend_from_slice(&[0xaa, 0xbb, 0xcc, 0x0d, 0x0e, 0x0f, 10, 1, 2, 254]);
    let record = build_record(&"eth0".to_string(), &frame(0x0806, &packet)).unwrap();
    assert_eq!(
        record.to_text(),
        "MAC Source: 02:00:5e:10:00:01\n\
         MAC Destination: aa:bb:cc:0d:0e:0f\n\
         Interface: eth0\n\
         L 3 proto: Arp\n\
         ip_source: 10.1.2.3\n\
         ip_destination: 10.1.2.254\n"
    );
}

#[test]
fn record_text_of_an_unsupported_frame() {
    let record = build_record(&"eth0".to_string(), &frame(0x88cc, &[0; 30])).unwrap();
    assert_eq!(record.l_3_protocol(), "Lldp");
    assert_eq!(
        record.to_text(),
        "MAC Source: 02:00:5e:10:00:01\n\
         MAC Destination: aa:bb:cc:0d:0e:0f\n\
         Interface: eth0\n\
         L 3 proto: Lldp\n\
         ip_source: N/A\n\
         ip_destination: N/A\n\
         port_source: N/A\n\
         port_destination: N/A\n"
    );
    let record = build_record(&"eth0".to_string(), &frame(0x0666, &[])).unwrap();
    assert_eq!(record.l_3_protocol(), "unknown");
}

#[test]
fn protocol_name_is_taken_as_given() {
    let payload = [0u8; 4];
    let frame = EthernetFrame {
        destination: MacAddress(1, 2, 3, 4, 5, 6),
        source: MacAddress(6, 5, 4, 3, 2, 1),
        ethertype: EthertypeTag::Other(0x4242),
        payload: &payload,
    };
    let record =
        PacketInfos::with_protocol_name(&"tap0".to_string(), &frame, "Experimental".to_string());
    assert_eq!(record.l_3_protocol(), "Experimental");
    assert_eq!(record.interface(), "tap0");
    assert_eq!(record.layer_3_infos(), Layer3Infos::Absent);
    assert_eq!(
        record.layer_4_infos(),
        &Some(Layer4Infos { port_source: "N/A".to_string(), port_destination: "N/A".to_string() })
    );
    assert_eq!(
        record.to_text(),
        "MAC Source: 06:05:04:03:02:01\n\
         MAC Destination: 01:02:03:04:05:06\n\
         Interface: tap0\n\
         L 3 proto: Experimental\n\
         ip_source: N/A\n\
         ip_destination: N/A\n\
         port_source: N/A\n\
         port_destination: N/A\n"
    );
    assert_eq!(PacketInfos::new(&"tap0".to_string(), &frame).l_3_protocol(), "unknown");
}
