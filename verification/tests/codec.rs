use noodle::addr::{Ipv4, Mac};
use noodle::codec::{
    ArpFrame, ArpPacket, DecodeError, EncodeError, EthernetHeader, HardwareType, Operation,
    ARP_PACKET_LEN, ETHERNET_HEADER_LEN, ETHERTYPE_ARP, ETHERTYPE_IPV4, FRAME_LEN,
    HARDWARE_ETHERNET, OP_REPLY, OP_REQUEST,
};
use pnet::packet::arp::{ArpHardwareTypes, ArpOperations, ArpPacket as PnetArp, MutableArpPacket};
use pnet::packet::ethernet::{EtherTypes, EthernetPacket, MutableEthernetPacket};
use pnet::packet::{MutablePacket, Packet};
use pnet::util::MacAddr;

const OURS: Mac = Mac(0x02, 0x42, 0xac, 0x11, 0x00, 0x02);
const IP: Ipv4 = Ipv4(10, 0, 0, 42);

fn request_bytes() -> Vec<u8> {
    vec![
        0xff, 0xff, 0xff, 0xff, 0xff, 0xff, 0x02, 0x42, 0xac, 0x11, 0x00, 0x02, 0x08, 0x06, 0x00,
        0x01, 0x08, 0x00, 0x06, 0x04, 0x00, 0x01, 0x02, 0x42, 0xac, 0x11, 0x00, 0x02, 10, 0, 0, 42,
        0x02, 0x42, 0xac, 0x11, 0x00, 0x02, 10, 0, 0, 42,
    ]
}

fn built_with_pnet(mac: MacAddr, target: MacAddr, ip: &str, reply: bool) -> Vec<u8> {
    let mut arp_buf = vec![0_u8; MutableArpPacket::minimum_packet_size()];
    let mut arp = MutableArpPacket::new(&mut arp_buf[..]).unwrap();
    arp.set_protocol_type(EtherTypes::Ipv4);
    arp.set_hardware_type(ArpHardwareTypes::Ethernet);
    arp.set_hw_addr_len(6);
    arp.set_proto_addr_len(4);
    arp.set_sender_hw_addr(mac);
    arp.set_target_hw_addr(mac);
    arp.set_sender_proto_addr(ip.parse().unwrap());
    arp.set_target_proto_addr(ip.parse().unwrap());
    arp.set_operation(if reply { ArpOperations::Reply } else { ArpOperations::Request });
    let mut eth_buf = vec![
        0_u8;
        MutableEthernetPacket::minimum_packet_size() + MutableArpPacket::minimum_packet_size()
    ];
    let mut eth = MutableEthernetPacket::new(&mut eth_buf).unwrap();
    eth.set_source(mac);
    eth.set_destination(target);
    eth.set_ethertype(EtherTypes::Arp);
    eth.set_payload(arp.packet_mut());
    eth.packet().to_vec()
}

#[test]
fn constants_are_those_of_the_wire() {
    assert_eq!(ETHERNET_HEADER_LEN, 14);
    assert_eq!(ARP_PACKET_LEN, 28);
    assert_eq!(FRAME_LEN, 42);
    assert_eq!(ETHERTYPE_ARP, 0x0806);
    assert_eq!(ETHERTYPE_IPV4, 0x0800);
    assert_eq!(HARDWARE_ETHERNET, 1);
    assert_eq!(OP_REQUEST, 1);
    assert_eq!(OP_REPLY, 2);
}

#[test]
fn announcement_request_has_the_exact_octets() {
    let frame = ArpFrame::announcement(IP, OURS, Mac::broadcast(), false);
    assert_eq!(frame.encode(), request_bytes());
}

#[test]
fn announcement_reply_differs_in_the_operation_only() {
    let frame = ArpFrame::announcement(IP, OURS, Mac::broadcast(), true);
    let mut expected = request_bytes();
    expected[21] = 2;
    assert_eq!(frame.encode(), expected);
}

#[test]
fn announcement_fields_are_those_of_a_gratuitous_arp() {
    let target = Mac(1, 2, 3, 4, 5, 6);
    let frame = ArpFrame::announcement(IP, OURS, target, false);
    assert_eq!(frame.ethernet.destination, target);
    assert_eq!(frame.ethernet.source, OURS);
    assert_eq!(frame.ethernet.ethertype, 0x0806);
    assert_eq!(frame.arp.hardware_type, 1);
    assert_eq!(frame.arp.protocol_type, 0x0800);
    assert_eq!(frame.arp.hw_addr_len, 6);
    assert_eq!(frame.arp.proto_addr_len, 4);
    assert_eq!(frame.arp.operation, 1);
    assert_eq!(frame.arp.sender_hw_addr, OURS);
    assert_eq!(frame.arp.target_hw_addr, OURS);
    assert_eq!(frame.arp.sender_proto_addr, IP);
    assert_eq!(frame.arp.target_proto_addr, IP);
    assert!(frame.arp.is_gratuitous());
    assert_eq!(frame.encode().len(), 42);
}

#[test]
fn encoder_agrees_with_pnet_on_requests_and_replies() {
    let mac = MacAddr::new(0x02, 0x42, 0xac, 0x11, 0x00, 0x02);
    let target = MacAddr::new(0xde, 0xad, 0xbe, 0xef, 0x00, 0x01);
    let ip = "192.168.7.254";
    for reply in [false, true] {
        let ours = ArpFrame::announcement(
            Ipv4(192, 168, 7, 254),
            OURS,
            Mac(0xde, 0xad, 0xbe, 0xef, 0x00, 0x01),
            reply,
        )
        .encode();
        assert_eq!(ours, built_with_pnet(mac, target, ip, reply));
    }
}

#[test]
fn decoder_agrees_with_pnet_on_an_arbitrary_frame() {
    let mut bytes: Vec<u8> = (1..=60).map(|i| (i * 7 + 3) as u8).collect();
    bytes[12] = 0x08;
    bytes[13] = 0x06;
    let frame = ArpFrame::parse(&bytes).unwrap().unwrap();
    let eth = EthernetPacket::new(&bytes).unwrap();
    let arp = PnetArp::new(eth.payload()).unwrap();
    assert_eq!(frame.ethernet.destination.text(), eth.get_destination().to_string());
    assert_eq!(frame.ethernet.source.text(), eth.get_source().to_string());
    assert_eq!(frame.ethernet.ethertype, eth.get_ethertype().0);
    assert_eq!(frame.arp.hardware_type, arp.get_hardware_type().0);
    assert_eq!(frame.arp.protocol_type, arp.get_protocol_type().0);
    assert_eq!(frame.arp.hw_addr_len, arp.get_hw_addr_len());
    assert_eq!(frame.arp.proto_addr_len, arp.get_proto_addr_len());
    assert_eq!(frame.arp.operation, arp.get_operation().0);
    assert_eq!(frame.arp.sender_hw_addr.text(), arp.get_sender_hw_addr().to_string());
    assert_eq!(frame.arp.sender_proto_addr.text(), arp.get_sender_proto_addr().to_string());
    assert_eq!(frame.arp.target_hw_addr.text(), arp.get_target_hw_addr().to_string());
    assert_eq!(frame.arp.target_proto_addr.text(), arp.get_target_proto_addr().to_string());
    assert_eq!(
        frame.arp.is_gratuitous(),
        arp.get_sender_proto_addr() == arp.get_target_proto_addr()
    );
}

#[test]
fn parse_inverts_encode() {
    let frame = ArpFrame {
        ethernet: EthernetHeader {
            destination: Mac(1, 2, 3, 4, 5, 6),
            source: Mac(7, 8, 9, 10, 11, 12),
            ethertype: ETHERTYPE_ARP,
        },
        arp: ArpPacket {
            hardware_type: 0x1234,
            protocol_type: 0xfedc,
            hw_addr_len: 9,
            proto_addr_len: 200,
            operation: 0xffff,
            sender_hw_addr: Mac(13, 14, 15, 16, 17, 18),
            sender_proto_addr: Ipv4(19, 20, 21, 22),
            target_hw_addr: Mac(23, 24, 25, 26, 27, 28),
            target_proto_addr: Ipv4(29, 30, 31, 32),
        },
    };
    let mut wire = frame.encode();
    assert_eq!(ArpFrame::parse(&wire), Ok(Some(frame)));
    wire.extend_from_slice(&[0_u8; 18]);
    assert_eq!(ArpFrame::parse(&wire), Ok(Some(frame)));
}

#[test]
fn short_buffers_are_decode_errors() {
    assert_eq!(ArpFrame::parse(&[]), Err(DecodeError::EthernetTooShort));
    assert_eq!(ArpFrame::parse(&request_bytes()[..13]), Err(DecodeError::EthernetTooShort));
    assert_eq!(EthernetHeader::parse(&[0_u8; 13]), Err(DecodeError::EthernetTooShort));
    assert_eq!(ArpFrame::parse(&request_bytes()[..14]), Err(DecodeError::ArpTooShort));
    assert_eq!(ArpFrame::parse(&request_bytes()[..41]), Err(DecodeError::ArpTooShort));
    assert_eq!(ArpPacket::parse(&[0_u8; 27]), Err(DecodeError::ArpTooShort));
    assert!(ArpPacket::parse(&[0_u8; 28]).is_ok());
    assert!(EthernetHeader::parse(&[0_u8; 14]).is_ok());
}

#[test]
fn other_ethertypes_are_passed_over_whatever_their_length() {
    let mut bytes = request_bytes();
    bytes[13] = 0x00;
    assert_eq!(ArpFrame::parse(&bytes), Ok(None));
    assert_eq!(ArpFrame::parse(&bytes[..14]), Ok(None));
}

#[test]
fn decode_error_messages() {
    assert_eq!(DecodeError::EthernetTooShort.message(), "eth packet buffer too small");
    assert_eq!(DecodeError::ArpTooShort.message(), "arp packet buffer too small");
}

#[test]
fn encode_into_overwrites_the_first_octets() {
    let frame = ArpFrame::announcement(IP, OURS, Mac::broadcast(), false);
    let mut buf = vec![0xaa_u8; 45];
    assert_eq!(frame.encode_into(&mut buf), Ok(()));
    let mut expected = request_bytes();
    expected.extend_from_slice(&[0xaa, 0xaa, 0xaa]);
    assert_eq!(buf, expected);
}

#[test]
fn encode_into_refuses_a_small_buffer() {
    let frame = ArpFrame::announcement(IP, OURS, Mac::broadcast(), false);
    let mut buf = vec![0xaa_u8; 41];
    assert_eq!(frame.encode_into(&mut buf), Err(EncodeError::BufferTooSmall));
    assert_eq!(buf, vec![0xaa_u8; 41]);
}

#[test]
fn operations_and_hardware_types_are_classified() {
    assert_eq!(Operation::of(1), Operation::Request);
    assert_eq!(Operation::of(2), Operation::Reply);
    assert_eq!(Operation::of(0), Operation::Unknown(0));
    assert_eq!(Operation::of(3), Operation::Unknown(3));
    assert_eq!(HardwareType::of(1), HardwareType::Ethernet);
    assert_eq!(HardwareType::of(6), HardwareType::Unknown(6));
    assert_eq!(Operation::Request.label(), "request");
    assert_eq!(Operation::Reply.label(), "reply");
    assert_eq!(Operation::Unknown(0).label(), "unknown: 0");
    assert_eq!(Operation::Unknown(65535).label(), "unknown: 65535");
    assert_eq!(HardwareType::Ethernet.label(), "ethernet");
    assert_eq!(HardwareType::Unknown(1024).label(), "unknown: 1024");
}

#[test]
fn addresses_in_words() {
    assert_eq!(Mac::broadcast().text(), "ff:ff:ff:ff:ff:ff");
    assert_eq!(Mac(0, 1, 0x0a, 0x10, 0x9f, 0xa0).text(), "00:01:0a:10:9f:a0");
    assert_eq!(
        Mac(0, 1, 0x0a, 0x10, 0x9f, 0xa0).text(),
        MacAddr::new(0, 1, 0x0a, 0x10, 0x9f, 0xa0).to_string()
    );
    assert_eq!(Ipv4(10, 0, 0, 42).text(), "10.0.0.42");
    assert_eq!(Ipv4(255, 100, 9, 0).text(), "255.100.9.0");
}

#[test]
fn addresses_are_read_and_written_in_wire_order() {
    let bytes = [9_u8, 1, 2, 3, 4, 5, 6, 7];
    assert_eq!(Mac::read(&bytes, 1), Mac(1, 2, 3, 4, 5, 6));
    assert_eq!(Ipv4::read(&bytes, 4), Ipv4(4, 5, 6, 7));
    let mut out = vec![0_u8];
    Mac(1, 2, 3, 4, 5, 6).write(&mut out);
    Ipv4(7, 8, 9, 10).write(&mut out);
    assert_eq!(out, vec![0, 1, 2, 3, 4, 5, 6, 7, 8, 9, 10]);
}
