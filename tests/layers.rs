use pkt_parser::{
    DecodeErrorKind, EtherType, EthernetHeader, Header, Ipv4Header, Ipv6Header, Protocol,
    TCPHeader, UDPHeader,
};

fn ethernet_frame(hi: u8, lo: u8, payload_len: usize) -> Vec<u8> {
    let mut data = vec![1, 2, 3, 4, 5, 6, 0xaa, 0xbb, 0xcc, 0xdd, 0xee, 0xff, hi, lo];
    for i in 0..payload_len {
        data.push(i as u8);
    }
    data
}

fn ipv4_header(first: u8, protocol: u8) -> Vec<u8> {
    vec![first, 0, 0, 40, 0, 0, 0, 0, 64, protocol, 0, 0, 10, 0, 0, 1, 255, 0, 7, 42]
}

#[test]
fn short_frames_are_too_short_and_returned_whole() {
    for n in 0..14usize {
        let data: Vec<u8> = (0..n).map(|i| i as u8).collect();
        let (res, rest) = EthernetHeader::decode(data.clone());
        assert_eq!(res.unwrap_err().kind, DecodeErrorKind::TooShort);
        assert_eq!(rest, data);
    }
}

#[test]
fn too_short_message_names_the_layer() {
    let (res, _) = EthernetHeader::decode(vec![0; 13]);
    let e = res.unwrap_err();
    assert_eq!(e.msg, "Cannot decode ethernet packet because it is not long enough.");
    assert_eq!(
        e.to_string(),
        "Decode error: Cannot decode ethernet packet because it is not long enough."
    );
}

#[test]
fn ether_type_pairs_select_the_network_layer() {
    let (res, _) = EthernetHeader::decode(ethernet_frame(0x08, 0x00, 0));
    assert_eq!(res.unwrap().get_ether_type(), EtherType::Ipv4);
    let (res, _) = EthernetHeader::decode(ethernet_frame(0x08, 0x06, 0));
    assert_eq!(res.unwrap().get_ether_type(), EtherType::ARP);
    let (res, _) = EthernetHeader::decode(ethernet_frame(0x86, 0xdd, 0));
    assert_eq!(res.unwrap().get_ether_type(), EtherType::Ipv6);
}

#[test]
fn unrecognized_ether_type_fails_with_its_value() {
    let data = ethernet_frame(0x12, 0x3f, 5);
    let (res, rest) = EthernetHeader::decode(data.clone());
    let e = res.unwrap_err();
    assert_eq!(e.kind, DecodeErrorKind::UnrecognizedTag(0x123f));
    assert_eq!(e.msg, "Cannot decode ethernet packet: unrecognized ether type, received 0x123f");
    assert_eq!(rest, data);
    let (res, _) = EthernetHeader::decode(ethernet_frame(0x06, 0x08, 0));
    assert_eq!(res.unwrap_err().kind, DecodeErrorKind::UnrecognizedTag(0x0608));
}

#[test]
fn ethernet_consumes_fourteen_bytes() {
    let data = ethernet_frame(0x08, 0x00, 6);
    let (res, rest) = EthernetHeader::decode(data.clone());
    let h = res.unwrap();
    assert_eq!(h.get_dest_address(), "010203040506");
    assert_eq!(h.get_src_address(), "aabbccddeeff");
    assert_eq!(rest, data[14..].to_vec());
    assert_eq!(14 + rest.len(), data.len());
    let (res, rest) = EthernetHeader::decode(ethernet_frame(0x08, 0x00, 0));
    assert!(res.is_ok());
    assert!(rest.is_empty());
}

#[test]
fn ipv4_protocol_numbers() {
    let (res, _) = Ipv4Header::decode(ipv4_header(0x45, 6));
    assert_eq!(res.unwrap().get_protocol(), Protocol::TCP);
    let (res, _) = Ipv4Header::decode(ipv4_header(0x45, 17));
    assert_eq!(res.unwrap().get_protocol(), Protocol::UDP);
    let data = ipv4_header(0x45, 1);
    let (res, rest) = Ipv4Header::decode(data.clone());
    let e = res.unwrap_err();
    assert_eq!(e.kind, DecodeErrorKind::UnrecognizedTag(1));
    assert_eq!(e.msg, "Cannot decode ipv4 packet: unrecognized protocol, received 0x1");
    assert_eq!(rest, data);
}

#[test]
fn ipv4_addresses_in_dotted_decimal() {
    let (res, _) = Ipv4Header::decode(ipv4_header(0x45, 6));
    let h = res.unwrap();
    assert_eq!(h.get_src_address(), "10.0.0.1");
    assert_eq!(h.get_dest_address(), "255.0.7.42");
}

#[test]
fn ipv4_skips_options_by_header_length() {
    let mut data = ipv4_header(0x46, 17);
    data.extend_from_slice(&[9, 9, 9, 9, 1, 2, 3]);
    let (res, rest) = Ipv4Header::decode(data.clone());
    assert!(res.is_ok());
    assert_eq!(rest, vec![1, 2, 3]);
    assert_eq!(24 + rest.len(), data.len());
}

#[test]
fn ipv4_too_short() {
    let (res, rest) = Ipv4Header::decode(vec![0x45; 19]);
    assert_eq!(res.unwrap_err().kind, DecodeErrorKind::TooShort);
    assert_eq!(rest, vec![0x45; 19]);
    // The header length says 60 bytes, but only 20 are there.
    let data = ipv4_header(0x4f, 6);
    let (res, rest) = Ipv4Header::decode(data.clone());
    let e = res.unwrap_err();
    assert_eq!(e.kind, DecodeErrorKind::TooShort);
    assert_eq!(e.msg, "Cannot decode ipv4 packet because it is not long enough.");
    assert_eq!(rest, data);
}

#[test]
fn ipv6_protocol_numbers_never_fail() {
    let mut data = vec![0u8; 44];
    data[9] = 6;
    let (res, rest) = Ipv6Header::decode(data.clone());
    assert_eq!(res.unwrap().get_protocol(), Protocol::TCP);
    assert_eq!(rest, vec![0, 0, 0, 0]);
    data[9] = 17;
    let (res, _) = Ipv6Header::decode(data.clone());
    assert_eq!(res.unwrap().get_protocol(), Protocol::UDP);
    data[9] = 58;
    let (res, rest) = Ipv6Header::decode(data.clone());
    assert_eq!(res.unwrap().get_protocol(), Protocol::Unknown);
    assert_eq!(40 + rest.len(), data.len());
}

#[test]
fn ipv6_addresses_in_hex() {
    let data: Vec<u8> = (0..40u8).collect();
    let (res, rest) = Ipv6Header::decode(data);
    let h = res.unwrap();
    assert_eq!(h.get_src_address(), "08090a0b0c0d0e0f10111213");
    assert_eq!(h.get_dest_address(), "1415161718191a1b1c1d1e1f20212223");
    assert!(rest.is_empty());
}

#[test]
fn ipv6_too_short() {
    let data = vec![0x60; 39];
    let (res, rest) = Ipv6Header::decode(data.clone());
    assert_eq!(res.unwrap_err().kind, DecodeErrorKind::TooShort);
    assert_eq!(rest, data);
}

#[test]
fn udp_consumes_eight_bytes() {
    let data = vec![0x00, 0x35, 0xea, 0x40, 0, 9, 0, 0, 7, 8, 9];
    let (res, rest) = UDPHeader::decode(data.clone());
    let h = res.unwrap();
    assert_eq!(h.get_src_port(), 53);
    assert_eq!(h.get_dest_port(), 59968);
    assert_eq!(rest, vec![7, 8, 9]);
    assert_eq!(8 + rest.len(), data.len());
}

#[test]
fn tcp_consumes_twenty_bytes() {
    let mut data = vec![0xdc, 0x31, 0x01, 0xbb];
    data.extend_from_slice(&[0; 16]);
    data.push(0x99);
    let (res, rest) = TCPHeader::decode(data.clone());
    let h = res.unwrap();
    assert_eq!(h.get_src_port(), 56369);
    assert_eq!(h.get_dest_port(), 443);
    assert_eq!(rest, vec![0x99]);
}

#[test]
fn transport_too_short() {
    let (res, rest) = UDPHeader::decode(vec![1; 7]);
    let e = res.unwrap_err();
    assert_eq!(e.kind, DecodeErrorKind::TooShort);
    assert_eq!(e.msg, "Cannot decode udp packet because it is not long enough.");
    assert_eq!(rest, vec![1; 7]);
    let (res, rest) = TCPHeader::decode(vec![1; 19]);
    assert_eq!(res.unwrap_err().kind, DecodeErrorKind::TooShort);
    assert_eq!(rest, vec![1; 19]);
    let (res, _) = TCPHeader::decode(vec![]);
    assert!(res.is_err());
}

#[test]
fn ipv4_unrecognized_protocol_wins_over_header_length() {
    // The header length says 60 bytes and only 20 are there, but the
    // protocol number is checked first.
    let data = ipv4_header(0x4f, 1);
    let (res, rest) = Ipv4Header::decode(data.clone());
    let e = res.unwrap_err();
    assert_eq!(e.kind, DecodeErrorKind::UnrecognizedTag(1));
    assert!(e.msg.contains("0x1"));
    assert_eq!(rest, data);
}
