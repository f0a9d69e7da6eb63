//! The wire format: an Ethernet II header followed by an ARP packet for IPv4
//! over Ethernet.
//!
//! ```text
//!  0  destination (6)      14 hardware type (2)     22 sender hardware address (6)
//!  6  source (6)           16 protocol type (2)     28 sender protocol address (4)
//! 12  ethertype (2)        18 hardware length (1)   32 target hardware address (6)
//!                          19 protocol length (1)   38 target protocol address (4)
//!                          20 operation (2)
//! ```
//!
//! Numbers of two octets are big-endian.

use vstd::prelude::*;
use vstd::slice::slice_subrange;
use vstd::string::StringExecFns;
use crate::text::{decimal, push_decimal};
use crate::addr::{Ipv4, Mac};

verus! {

/// Octets in an Ethernet II header.
pub const ETHERNET_HEADER_LEN: usize = 14;

/// Octets in an ARP packet for IPv4 over Ethernet.
pub const ARP_PACKET_LEN: usize = 28;

/// Octets in a whole announcement: header and packet, without padding.
pub const FRAME_LEN: usize = 42;

/// Ethertype of ARP.
pub const ETHERTYPE_ARP: u16 = 0x0806;

/// Ethertype of IPv4, which is also ARP's protocol type for IPv4.
pub const ETHERTYPE_IPV4: u16 = 0x0800;

/// ARP's hardware type for Ethernet.
pub const HARDWARE_ETHERNET: u16 = 1;

/// ARP operation code of a request.
pub const OP_REQUEST: u16 = 1;

/// ARP operation code of a reply.
pub const OP_REPLY: u16 = 2;

/// The number whose big-endian form is `hi`, `lo`.
pub open spec fn be16(hi: u8, lo: u8) -> u16 {
    (hi as int * 256 + lo as int) as u16
}

/// The big-endian form of `value`.
pub open spec fn be16_octets(value: u16) -> Seq<u8> {
    seq![(value / 256) as u8, (value % 256) as u8]
}

/// Why a buffer could not be read as a frame.
#[derive(Clone, Copy, Debug, PartialEq, Eq, Structural)]
pub enum DecodeError {
    /// Fewer octets than an Ethernet header.
    EthernetTooShort,
    /// Ethertype ARP, but fewer octets after the header than an ARP packet.
    ArpTooShort,
}

/// Why a frame could not be written.
#[derive(Clone, Copy, Debug, PartialEq, Eq, Structural)]
pub enum EncodeError {
    /// The buffer holds fewer octets than the frame.
    BufferTooSmall,
}

/// An Ethernet II header.
#[derive(Clone, Copy, Debug, PartialEq, Eq, Structural)]
pub struct EthernetHeader {
    pub destination: Mac,
    pub source: Mac,
    pub ethertype: u16,
}

/// An ARP packet for IPv4 over Ethernet.
#[derive(Clone, Copy, Debug, PartialEq, Eq, Structural)]
pub struct ArpPacket {
    pub hardware_type: u16,
    pub protocol_type: u16,
    pub hw_addr_len: u8,
    pub proto_addr_len: u8,
    pub operation: u16,
    pub sender_hw_addr: Mac,
    pub sender_proto_addr: Ipv4,
    pub target_hw_addr: Mac,
    pub target_proto_addr: Ipv4,
}

/// An Ethernet frame that carries an ARP packet.
#[derive(Clone, Copy, Debug, PartialEq, Eq, Structural)]
pub struct ArpFrame {
    pub ethernet: EthernetHeader,
    pub arp: ArpPacket,
}

fn read_be16(buf: &[u8], at: usize) -> (value: u16)
    requires
        at + 2 <= buf@.len(),
    ensures
        value == be16(buf@[at as int], buf@[at + 1]),
{
    let hi: u16 = buf[at] as u16;
    let lo: u16 = buf[at + 1] as u16;
    hi * 256 + lo
}

fn write_be16(value: u16, out: &mut Vec<u8>)
    ensures
        final(out)@ == old(out)@ + be16_octets(value),
{
    out.push((value / 256) as u8);
    out.push((value % 256) as u8);
    assert(out@ =~= old(out)@ + be16_octets(value));
}

impl EthernetHeader {
    /// The header on the wire.
    pub open spec fn bytes(self) -> Seq<u8> {
        self.destination.octets() + self.source.octets() + be16_octets(self.ethertype)
    }

    /// What `buf` holds as a header: any buffer of at least fourteen octets
    /// has one.
    pub open spec fn spec_parse(buf: Seq<u8>) -> Result<EthernetHeader, DecodeError> {
        if buf.len() < ETHERNET_HEADER_LEN {
            Err(DecodeError::EthernetTooShort)
        } else {
            Ok(
                EthernetHeader {
                    destination: Mac::at(buf, 0),
                    source: Mac::at(buf, 6),
                    ethertype: be16(buf[12], buf[13]),
                },
            )
        }
    }

    /// Reads the header at the start of `buf`.
    pub fn parse(buf: &[u8]) -> (header: Result<EthernetHeader, DecodeError>)
        ensures
            header == Self::spec_parse(buf@),
    {
        if buf.len() < ETHERNET_HEADER_LEN {
            return Err(DecodeError::EthernetTooShort);
        }
        Ok(
            EthernetHeader {
                destination: Mac::read(buf, 0),
                source: Mac::read(buf, 6),
                ethertype: read_be16(buf, 12),
            },
        )
    }
}

impl ArpPacket {
    /// The packet on the wire.
    pub open spec fn bytes(self) -> Seq<u8> {
        be16_octets(self.hardware_type) + be16_octets(self.protocol_type) + seq![
            self.hw_addr_len,
            self.proto_addr_len,
        ] + be16_octets(self.operation) + self.sender_hw_addr.octets()
            + self.sender_proto_addr.octets() + self.target_hw_addr.octets()
            + self.target_proto_addr.octets()
    }

    /// What `buf` holds as a packet: any buffer of at least twenty-eight
    /// octets has one, and what follows them is padding.
    pub open spec fn spec_parse(buf: Seq<u8>) -> Result<ArpPacket, DecodeError> {
        if buf.len() < ARP_PACKET_LEN {
            Err(DecodeError::ArpTooShort)
        } else {
            Ok(
                ArpPacket {
                    hardware_type: be16(buf[0], buf[1]),
                    protocol_type: be16(buf[2], buf[3]),
                    hw_addr_len: buf[4],
                    proto_addr_len: buf[5],
                    operation: be16(buf[6], buf[7]),
                    sender_hw_addr: Mac::at(buf, 8),
                    sender_proto_addr: Ipv4::at(buf, 14),
                    target_hw_addr: Mac::at(buf, 18),
                    target_proto_addr: Ipv4::at(buf, 24),
                },
            )
        }
    }

    /// Whether the packet announces its sender's own address: sender and
    /// target protocol address are the same.
    pub open spec fn gratuitous(self) -> bool {
        self.sender_proto_addr == self.target_proto_addr
    }

    /// Reads the packet at the start of `buf`.
    pub fn parse(buf: &[u8]) -> (packet: Result<ArpPacket, DecodeError>)
        ensures
            packet == Self::spec_parse(buf@),
    {
        if buf.len() < ARP_PACKET_LEN {
            return Err(DecodeError::ArpTooShort);
        }
        Ok(
            ArpPacket {
                hardware_type: read_be16(buf, 0),
                protocol_type: read_be16(buf, 2),
                hw_addr_len: buf[4],
                proto_addr_len: buf[5],
                operation: read_be16(buf, 6),
                sender_hw_addr: Mac::read(buf, 8),
                sender_proto_addr: Ipv4::read(buf, 14),
                target_hw_addr: Mac::read(buf, 18),
                target_proto_addr: Ipv4::read(buf, 24),
            },
        )
    }

    /// Whether the packet is gratuitous.
    pub fn is_gratuitous(&self) -> (yes: bool)
        ensures
            yes == self.gratuitous(),
    {
        self.sender_proto_addr == self.target_proto_addr
    }
}

impl ArpFrame {
    /// The frame on the wire: forty-two octets.
    pub open spec fn bytes(self) -> Seq<u8> {
        self.ethernet.bytes() + self.arp.bytes()
    }

    /// What `buf` holds: an error where it is too short, nothing where its
    /// ethertype is not ARP, else the frame.
    pub open spec fn spec_parse(buf: Seq<u8>) -> Result<Option<ArpFrame>, DecodeError> {
        match EthernetHeader::spec_parse(buf) {
            Err(e) => Err(e),
            Ok(ethernet) => if ethernet.ethertype != ETHERTYPE_ARP {
                Ok(None)
            } else {
                match ArpPacket::spec_parse(buf.skip(ETHERNET_HEADER_LEN as int)) {
                    Err(e) => Err(e),
                    Ok(arp) => Ok(Some(ArpFrame { ethernet, arp })),
                }
            },
        }
    }

    /// The gratuitous announcement of `ip` at `mac`, addressed to `target`:
    /// a reply if `reply`, else a request.
    pub open spec fn spec_announcement(ip: Ipv4, mac: Mac, target: Mac, reply: bool) -> ArpFrame {
        ArpFrame {
            ethernet: EthernetHeader { destination: target, source: mac, ethertype: ETHERTYPE_ARP },
            arp: ArpPacket {
                hardware_type: HARDWARE_ETHERNET,
                protocol_type: ETHERTYPE_IPV4,
                hw_addr_len: 6,
                proto_addr_len: 4,
                operation: if reply {
                    OP_REPLY
                } else {
                    OP_REQUEST
                },
                sender_hw_addr: mac,
                sender_proto_addr: ip,
                target_hw_addr: mac,
                target_proto_addr: ip,
            },
        }
    }

    /// Builds the gratuitous announcement of `ip` at `mac`.
    pub fn announcement(ip: Ipv4, mac: Mac, target: Mac, reply: bool) -> (frame: ArpFrame)
        ensures
            frame == Self::spec_announcement(ip, mac, target, reply),
            frame.arp.gratuitous(),
    {
        ArpFrame {
            ethernet: EthernetHeader { destination: target, source: mac, ethertype: ETHERTYPE_ARP },
            arp: ArpPacket {
                hardware_type: HARDWARE_ETHERNET,
                protocol_type: ETHERTYPE_IPV4,
                hw_addr_len: 6,
                proto_addr_len: 4,
                operation: if reply {
                    OP_REPLY
                } else {
                    OP_REQUEST
                },
                sender_hw_addr: mac,
                sender_proto_addr: ip,
                target_hw_addr: mac,
                target_proto_addr: ip,
            },
        }
    }

    /// Reads a frame from `buf`, which a link delivers headers included.
    pub fn parse(buf: &[u8]) -> (frame: Result<Option<ArpFrame>, DecodeError>)
        ensures
            frame == Self::spec_parse(buf@),
    {
        let ethernet = match EthernetHeader::parse(buf) {
            Ok(h) => h,
            Err(e) => { return Err(e); },
        };
        if ethernet.ethertype != ETHERTYPE_ARP {
            return Ok(None);
        }
        let payload = slice_subrange(buf, ETHERNET_HEADER_LEN, buf.len());
        assert(payload@ =~= buf@.skip(ETHERNET_HEADER_LEN as int));
        match ArpPacket::parse(payload) {
            Ok(arp) => Ok(Some(ArpFrame { ethernet, arp })),
            Err(e) => Err(e),
        }
    }

    /// Writes the frame into a buffer of its own.
    pub fn encode(&self) -> (out: Vec<u8>)
        ensures
            out@ == self.bytes(),
            out@.len() == FRAME_LEN,
    {
        let mut out: Vec<u8> = Vec::with_capacity(FRAME_LEN);
        self.ethernet.destination.write(&mut out);
        self.ethernet.source.write(&mut out);
        write_be16(self.ethernet.ethertype, &mut out);
        write_be16(self.arp.hardware_type, &mut out);
        write_be16(self.arp.protocol_type, &mut out);
        out.push(self.arp.hw_addr_len);
        out.push(self.arp.proto_addr_len);
        write_be16(self.arp.operation, &mut out);
        self.arp.sender_hw_addr.write(&mut out);
        self.arp.sender_proto_addr.write(&mut out);
        self.arp.target_hw_addr.write(&mut out);
        self.arp.target_proto_addr.write(&mut out);
        assert(out@ =~= self.bytes());
        out
    }
}

/// The two octets at `at` hold `value` exactly when they are its big-endian
/// form.
pub proof fn lemma_be16_at(buf: Seq<u8>, at: int, value: u16)
    requires
        0 <= at,
        at + 2 <= buf.len(),
    ensures
        buf.subrange(at, at + 2) == be16_octets(value) <==> be16(buf[at], buf[at + 1]) == value,
{
    let part = buf.subrange(at, at + 2);
    assert(part[0] == buf[at] && part[1] == buf[at + 1]);
    if be16(buf[at], buf[at + 1]) == value {
        assert(part =~= be16_octets(value));
    }
    if part == be16_octets(value) {
        assert(be16_octets(value)[0] == buf[at]);
        assert(be16_octets(value)[1] == buf[at + 1]);
    }
}

/// The six octets at `at` are those of the hardware address read there.
pub proof fn lemma_mac_at(buf: Seq<u8>, at: int)
    requires
        0 <= at,
        at + 6 <= buf.len(),
    ensures
        Mac::at(buf, at).octets() == buf.subrange(at, at + 6),
{
    assert(Mac::at(buf, at).octets() =~= buf.subrange(at, at + 6));
}

/// The four octets at `at` are those of the protocol address read there.
pub proof fn lemma_ipv4_at(buf: Seq<u8>, at: int)
    requires
        0 <= at,
        at + 4 <= buf.len(),
    ensures
        Ipv4::at(buf, at).octets() == buf.subrange(at, at + 4),
{
    assert(Ipv4::at(buf, at).octets() =~= buf.subrange(at, at + 4));
}

/// Where each field of the header lies on the wire.
pub proof fn lemma_ethernet_layout(header: EthernetHeader)
    ensures
        header.bytes().len() == ETHERNET_HEADER_LEN,
        EthernetHeader::spec_parse(header.bytes()) == Ok::<EthernetHeader, DecodeError>(header),
{
    let b = header.bytes();
    assert(b.len() == 14);
    assert(b[0] == header.destination.0 && b[5] == header.destination.5);
    assert(b[6] == header.source.0 && b[11] == header.source.5);
    assert(b[12] == be16_octets(header.ethertype)[0]);
    assert(b[13] == be16_octets(header.ethertype)[1]);
}

/// Where each field of the packet lies on the wire.
pub proof fn lemma_arp_layout(packet: ArpPacket)
    ensures
        packet.bytes().len() == ARP_PACKET_LEN,
        ArpPacket::spec_parse(packet.bytes()) == Ok::<ArpPacket, DecodeError>(packet),
{
    let b = packet.bytes();
    assert(b.len() == 28);
    assert(b[0] == be16_octets(packet.hardware_type)[0]);
    assert(b[1] == be16_octets(packet.hardware_type)[1]);
    assert(b[2] == be16_octets(packet.protocol_type)[0]);
    assert(b[3] == be16_octets(packet.protocol_type)[1]);
    assert(b[6] == be16_octets(packet.operation)[0]);
    assert(b[7] == be16_octets(packet.operation)[1]);
    assert(b[8] == packet.sender_hw_addr.0 && b[13] == packet.sender_hw_addr.5);
    assert(b[14] == packet.sender_proto_addr.0 && b[17] == packet.sender_proto_addr.3);
    assert(b[18] == packet.target_hw_addr.0 && b[23] == packet.target_hw_addr.5);
    assert(b[24] == packet.target_proto_addr.0 && b[27] == packet.target_proto_addr.3);
}

/// What a buffer holds depends on its first octets alone: on fourteen for
/// the header, on twenty-eight for the packet.
pub proof fn lemma_parse_ignores_padding(head: Seq<u8>, padding: Seq<u8>)
    ensures
        head.len() >= ETHERNET_HEADER_LEN ==> EthernetHeader::spec_parse(head + padding)
            == EthernetHeader::spec_parse(head),
        head.len() >= ARP_PACKET_LEN ==> ArpPacket::spec_parse(head + padding)
            == ArpPacket::spec_parse(head),
{
    let whole = head + padding;
    assert(forall|i: int| 0 <= i < head.len() ==> whole[i] == head[i]);
}

/// Reading what was written gives the frame back, whatever padding follows.
pub proof fn law_parse_inverts_bytes(frame: ArpFrame, padding: Seq<u8>)
    requires
        frame.ethernet.ethertype == ETHERTYPE_ARP,
    ensures
        frame.bytes().len() == FRAME_LEN,
        ArpFrame::spec_parse(frame.bytes() + padding) == Ok::<Option<ArpFrame>, DecodeError>(
            Some(frame),
        ),
{
    lemma_ethernet_layout(frame.ethernet);
    lemma_arp_layout(frame.arp);
    let whole = frame.bytes() + padding;
    assert(whole =~= frame.ethernet.bytes() + (frame.arp.bytes() + padding));
    lemma_parse_ignores_padding(frame.ethernet.bytes(), frame.arp.bytes() + padding);
    assert(whole.skip(ETHERNET_HEADER_LEN as int) =~= frame.arp.bytes() + padding);
    lemma_parse_ignores_padding(frame.arp.bytes(), padding);
}

/// A frame whose ethertype is not ARP is passed over, whatever follows its
/// header.
pub proof fn law_other_ethertypes_are_skipped(buf: Seq<u8>)
    requires
        buf.len() >= ETHERNET_HEADER_LEN,
        be16(buf[12], buf[13]) != ETHERTYPE_ARP,
    ensures
        ArpFrame::spec_parse(buf) == Ok::<Option<ArpFrame>, DecodeError>(None),
{
}

/// Every announcement is forty-two octets that state ARP for IPv4 over
/// Ethernet, with the claimed address as both sender and target and the
/// claiming station as both hardware addresses.
pub proof fn law_announcement_on_wire(ip: Ipv4, mac: Mac, target: Mac, reply: bool)
    ensures
        ({
            let wire = ArpFrame::spec_announcement(ip, mac, target, reply).bytes();
            &&& wire.len() == 42
            &&& wire.subrange(0, 6) == target.octets()
            &&& wire.subrange(6, 12) == mac.octets()
            &&& wire.subrange(12, 14) == seq![0x08u8, 0x06u8]
            &&& wire.subrange(14, 16) == seq![0x00u8, 0x01u8]
            &&& wire.subrange(16, 18) == seq![0x08u8, 0x00u8]
            &&& wire[18] == 6
            &&& wire[19] == 4
            &&& wire.subrange(20, 22) == seq![0x00u8, if reply { 2u8 } else { 1u8 }]
            &&& wire.subrange(22, 28) == mac.octets()
            &&& wire.subrange(28, 32) == ip.octets()
            &&& wire.subrange(32, 38) == mac.octets()
            &&& wire.subrange(38, 42) == ip.octets()
        }),
{
    let frame = ArpFrame::spec_announcement(ip, mac, target, reply);
    let wire = frame.bytes();
    law_parse_inverts_bytes(frame, Seq::<u8>::empty());
    assert(wire + Seq::<u8>::empty() =~= wire);
    let rest = wire.skip(ETHERNET_HEADER_LEN as int);
    assert(forall|i: int| 0 <= i < 28 ==> rest[i] == wire[14 + i]);
    lemma_mac_at(wire, 0);
    lemma_mac_at(wire, 6);
    lemma_be16_at(wire, 12, ETHERTYPE_ARP);
    assert(be16_octets(ETHERTYPE_ARP) =~= seq![0x08u8, 0x06u8]);
    lemma_be16_at(wire, 14, HARDWARE_ETHERNET);
    assert(be16(rest[0], rest[1]) == HARDWARE_ETHERNET);
    assert(be16_octets(HARDWARE_ETHERNET) =~= seq![0x00u8, 0x01u8]);
    lemma_be16_at(wire, 16, ETHERTYPE_IPV4);
    assert(be16(rest[2], rest[3]) == ETHERTYPE_IPV4);
    assert(be16_octets(ETHERTYPE_IPV4) =~= seq![0x08u8, 0x00u8]);
    assert(rest[4] == 6 && rest[5] == 4);
    lemma_be16_at(wire, 20, frame.arp.operation);
    assert(be16(rest[6], rest[7]) == frame.arp.operation);
    assert(be16_octets(frame.arp.operation) =~= seq![0x00u8, if reply { 2u8 } else { 1u8 }]);
    lemma_mac_at(wire, 22);
    assert(Mac::at(wire, 22) == Mac::at(rest, 8));
    lemma_ipv4_at(wire, 28);
    assert(Ipv4::at(wire, 28) == Ipv4::at(rest, 14));
    lemma_mac_at(wire, 32);
    assert(Mac::at(wire, 32) == Mac::at(rest, 18));
    lemma_ipv4_at(wire, 38);
    assert(Ipv4::at(wire, 38) == Ipv4::at(rest, 24));
}

/// What an ARP packet asks for, by its operation code.
#[derive(Clone, Copy, Debug, PartialEq, Eq, Structural)]
pub enum Operation {
    Request,
    Reply,
    /// A code that is neither: no error, and no part in telling a conflict.
    Unknown(u16),
}

/// The kind of link that an ARP packet speaks of, by its hardware type.
#[derive(Clone, Copy, Debug, PartialEq, Eq, Structural)]
pub enum HardwareType {
    Ethernet,
    /// A type other than Ethernet: no error, and no part in telling a
    /// conflict.
    Unknown(u16),
}

impl Operation {
    /// The operation that a code stands for.
    pub open spec fn spec_of(code: u16) -> Operation {
        if code == OP_REPLY {
            Operation::Reply
        } else if code == OP_REQUEST {
            Operation::Request
        } else {
            Operation::Unknown(code)
        }
    }

    /// The operation in words.
    pub open spec fn spec_label(self) -> Seq<char> {
        match self {
            Operation::Request => "request"@,
            Operation::Reply => "reply"@,
            Operation::Unknown(code) => "unknown: "@ + decimal(code as nat),
        }
    }

    /// The operation that a code stands for.
    pub fn of(code: u16) -> (operation: Operation)
        ensures
            operation == Self::spec_of(code),
    {
        if code == OP_REPLY {
            Operation::Reply
        } else if code == OP_REQUEST {
            Operation::Request
        } else {
            Operation::Unknown(code)
        }
    }

    /// The operation in words.
    pub fn label(&self) -> (text: String)
        ensures
            text@ == self.spec_label(),
    {
        match self {
            Operation::Request => String::from_str("request"),
            Operation::Reply => String::from_str("reply"),
            Operation::Unknown(code) => {
                let mut text = String::from_str("unknown: ");
                push_decimal(&mut text, *code as u64);
                text
            },
        }
    }
}

impl HardwareType {
    /// The kind of link that a hardware type stands for.
    pub open spec fn spec_of(code: u16) -> HardwareType {
        if code == HARDWARE_ETHERNET {
            HardwareType::Ethernet
        } else {
            HardwareType::Unknown(code)
        }
    }

    /// The kind of link in words.
    pub open spec fn spec_label(self) -> Seq<char> {
        match self {
            HardwareType::Ethernet => "ethernet"@,
            HardwareType::Unknown(code) => "unknown: "@ + decimal(code as nat),
        }
    }

    /// The kind of link that a hardware type stands for.
    pub fn of(code: u16) -> (kind: HardwareType)
        ensures
            kind == Self::spec_of(code),
    {
        if code == HARDWARE_ETHERNET {
            HardwareType::Ethernet
        } else {
            HardwareType::Unknown(code)
        }
    }

    /// The kind of link in words.
    pub fn label(&self) -> (text: String)
        ensures
            text@ == self.spec_label(),
    {
        match self {
            HardwareType::Ethernet => String::from_str("ethernet"),
            HardwareType::Unknown(code) => {
                let mut text = String::from_str("unknown: ");
                push_decimal(&mut text, *code as u64);
                text
            },
        }
    }
}

impl DecodeError {
    /// The error in words.
    pub open spec fn spec_message(self) -> Seq<char> {
        match self {
            DecodeError::EthernetTooShort => "eth packet buffer too small"@,
            DecodeError::ArpTooShort => "arp packet buffer too small"@,
        }
    }

    /// The error in words.
    pub fn message(&self) -> (text: String)
        ensures
            text@ == self.spec_message(),
    {
        match self {
            DecodeError::EthernetTooShort => String::from_str("eth packet buffer too small"),
            DecodeError::ArpTooShort => String::from_str("arp packet buffer too small"),
        }
    }
}

impl ArpFrame {
    /// Writes the frame over the first forty-two octets of `buf`. A buffer
    /// that holds fewer is left as it is.
    pub fn encode_into(&self, buf: &mut Vec<u8>) -> (done: Result<(), EncodeError>)
        ensures
            old(buf)@.len() < FRAME_LEN ==> done == Err::<(), EncodeError>(
                EncodeError::BufferTooSmall,
            ) && final(buf)@ == old(buf)@,
            old(buf)@.len() >= FRAME_LEN ==> done == Ok::<(), EncodeError>(()) && final(buf)@
                == self.bytes() + old(buf)@.skip(FRAME_LEN as int),
    {
        if buf.len() < FRAME_LEN {
            return Err(EncodeError::BufferTooSmall);
        }
        let wire = self.encode();
        let mut i: usize = 0;
        while i < FRAME_LEN
            invariant
                i <= FRAME_LEN,
                wire@ == self.bytes(),
                wire@.len() == FRAME_LEN,
                buf@.len() == old(buf)@.len(),
                buf@.len() >= FRAME_LEN,
                forall|j: int| 0 <= j < i ==> buf@[j] == wire@[j],
                forall|j: int| i <= j < buf@.len() ==> buf@[j] == old(buf)@[j],
            decreases FRAME_LEN - i,
        {
            buf.set(i, wire[i]);
            i += 1;
        }
        assert(buf@ =~= self.bytes() + old(buf)@.skip(FRAME_LEN as int));
        Ok(())
    }
}

} // verus!
