//! The network layer: ARP, IPv4 and IPv6.
use vstd::prelude::*;
use crate::network::address::be16;
use crate::network::capture::data_link::{DataLink, Ethernet};
use crate::network::{Error, Layer};
use crate::text::{lowercase, to_lowercase};
use pnet::packet::Packet;

verus! {

/// The protocols of the network layer that are read.
#[derive(Debug, Clone, Copy, PartialEq, Eq)]
pub enum NetworkProtocol {
    Arp,
    Ipv4,
    Ipv6,
}

impl NetworkProtocol {
    /// The name of the protocol.
    pub open spec fn name(self) -> Seq<char> {
        match self {
            NetworkProtocol::Arp => "arp"@,
            NetworkProtocol::Ipv4 => "ipv4"@,
            NetworkProtocol::Ipv6 => "ipv6"@,
        }
    }

    /// The name of the protocol.
    pub fn to_string(&self) -> (r: String)
        ensures
            r@ == self.name(),
    {
        match self {
            NetworkProtocol::Arp => String::from_str("arp"),
            NetworkProtocol::Ipv4 => String::from_str("ipv4"),
            NetworkProtocol::Ipv6 => String::from_str("ipv6"),
        }
    }
}

/// The Ethernet type of IPv4 payloads.
pub const ETHERTYPE_IPV4: u16 = 0x0800;

/// The Ethernet type of ARP payloads.
pub const ETHERTYPE_ARP: u16 = 0x0806;

/// The Ethernet type of IPv6 payloads.
pub const ETHERTYPE_IPV6: u16 = 0x86DD;

/// An ARP message.
#[derive(Debug, Clone)]
pub struct Arp {
    pub hardware_type: u16,
    pub protocol_type: u16,
    pub hw_addr_len: u8,
    pub proto_addr_len: u8,
    pub operation: u16,
    pub sender_hw_addr: [u8; 6],
    pub sender_proto_addr: [u8; 4],
    pub target_hw_addr: [u8; 6],
    pub target_proto_addr: [u8; 4],
}

/// The ARP message that the bytes hold (Ethernet and IPv4 addresses).
pub open spec fn arp_of(a: Arp, b: Seq<u8>) -> bool {
    &&& a.hardware_type == be16(b, 0)
    &&& a.protocol_type == be16(b, 2)
    &&& a.hw_addr_len == b[4]
    &&& a.proto_addr_len == b[5]
    &&& a.operation == be16(b, 6)
    &&& a.sender_hw_addr@ == b.subrange(8, 14)
    &&& a.sender_proto_addr@ == b.subrange(14, 18)
    &&& a.target_hw_addr@ == b.subrange(18, 24)
    &&& a.target_proto_addr@ == b.subrange(24, 28)
}

/// Reads an ARP message with `pnet`'s `ArpPacket`, which takes any 28 bytes
/// or more; the contract restates its fixed layout.
#[verifier::external_body]
fn arp_from_bytes(bytes: &[u8]) -> (r: Option<Arp>)
    ensures
        r is Some <==> bytes@.len() >= 28,
        r matches Some(a) ==> arp_of(a, bytes@),
{
    pnet::packet::arp::ArpPacket::new(bytes).map(|p| Arp {
        hardware_type: p.get_hardware_type().0, protocol_type: p.get_protocol_type().0,
        hw_addr_len: p.get_hw_addr_len(), proto_addr_len: p.get_proto_addr_len(),
        operation: p.get_operation().0,
        sender_hw_addr: p.get_sender_hw_addr().octets(), sender_proto_addr: p.get_sender_proto_addr().octets(),
        target_hw_addr: p.get_target_hw_addr().octets(), target_proto_addr: p.get_target_proto_addr().octets(),
    })
}

/// An IPv4 datagram (its options are not kept).
#[derive(Debug, Clone)]
pub struct Ipv4 {
    pub version: u8,
    pub header_length: u8,
    pub dscp: u8,
    pub ecn: u8,
    pub total_length: u16,
    pub identification: u16,
    pub flags: u8,
    pub fragment_offset: u16,
    pub ttl: u8,
    pub next_level_protocol: u8,
    pub checksum: u16,
    pub source: [u8; 4],
    pub destination: [u8; 4],
    pub payload: Vec<u8>,
}

/// `a - b`, or 0 when `b` is larger.
pub open spec fn saturating_sub(a: int, b: int) -> int {
    if a >= b {
        a - b
    } else {
        0
    }
}

/// The bytes from `start` on, at most `len` of them; none when the bytes end
/// before `start`.
pub open spec fn bounded_payload(b: Seq<u8>, start: int, len: int) -> Seq<u8> {
    if b.len() <= start {
        Seq::empty()
    } else if start + len < b.len() {
        b.subrange(start, start + len)
    } else {
        b.skip(start)
    }
}

/// The datagram that the bytes hold: the header fields at their places, and
/// as payload the bytes after the header, as many as the total length leaves.
pub open spec fn ipv4_of(d: Ipv4, b: Seq<u8>) -> bool {
    let header_bytes = d.header_length * 4;
    &&& d.version == b[0] / 16
    &&& d.header_length == b[0] % 16
    &&& d.dscp == b[1] / 4
    &&& d.ecn == b[1] % 4
    &&& d.total_length == be16(b, 2)
    &&& d.identification == be16(b, 4)
    &&& d.flags == b[6] / 32
    &&& d.fragment_offset == (b[6] % 32) * 256 + b[7]
    &&& d.ttl == b[8]
    &&& d.next_level_protocol == b[9]
    &&& d.checksum == be16(b, 10)
    &&& d.source@ == b.subrange(12, 16)
    &&& d.destination@ == b.subrange(16, 20)
    &&& d.payload@ == bounded_payload(
        b,
        20 + saturating_sub(header_bytes, 20),
        saturating_sub(d.total_length as int, header_bytes),
    )
}

/// Reads an IPv4 datagram with `pnet`'s `Ipv4Packet`, which takes any 20
/// bytes or more; the contract restates its layout.
#[verifier::external_body]
fn ipv4_from_bytes(bytes: &[u8]) -> (r: Option<Ipv4>)
    ensures
        r is Some <==> bytes@.len() >= 20,
        r matches Some(d) ==> ipv4_of(d, bytes@),
{
    pnet::packet::ipv4::Ipv4Packet::new(bytes).map(|p| Ipv4 {
        version: p.get_version(), header_length: p.get_header_length(), dscp: p.get_dscp(),
        ecn: p.get_ecn(), total_length: p.get_total_length(), identification: p.get_identification(),
        flags: p.get_flags(), fragment_offset: p.get_fragment_offset(), ttl: p.get_ttl(),
        next_level_protocol: p.get_next_level_protocol().0, checksum: p.get_checksum(),
        source: p.get_source().octets(), destination: p.get_destination().octets(),
        payload: p.payload().to_vec(),
    })
}

/// An IPv6 datagram, with its addresses also in written form.
#[derive(Debug, Clone)]
pub struct Ipv6 {
    pub version: u8,
    pub traffic_class: u8,
    pub flow_label: u32,
    pub payload_length: u16,
    pub next_header: u8,
    pub hop_limit: u8,
    pub source: [u8; 16],
    pub destination: [u8; 16],
    pub source_text: String,
    pub destination_text: String,
    pub payload: Vec<u8>,
}

/// What `Display` of an IPv6 address (`Ipv6Addr` of the standard library)
/// writes for the address of the sixteen bytes (the RFC 5952 form).
pub uninterp spec fn ipv6_text(o: Seq<u8>) -> Seq<char>;

/// The datagram that the bytes hold: the header fields at their places, and
/// as payload the bytes after the header, as many as the payload length says.
pub open spec fn ipv6_of(d: Ipv6, b: Seq<u8>) -> bool {
    &&& d.version == b[0] / 16
    &&& d.traffic_class == (b[0] % 16) * 16 + b[1] / 16
    &&& d.flow_label == (b[1] % 16) * 65536 + be16(b, 2)
    &&& d.payload_length == be16(b, 4)
    &&& d.next_header == b[6]
    &&& d.hop_limit == b[7]
    &&& d.source@ == b.subrange(8, 24)
    &&& d.destination@ == b.subrange(24, 40)
    &&& d.source_text@ == ipv6_text(b.subrange(8, 24))
    &&& d.destination_text@ == ipv6_text(b.subrange(24, 40))
    &&& d.payload@ == bounded_payload(b, 40, d.payload_length as int)
}

/// Reads an IPv6 datagram with `pnet`'s `Ipv6Packet`, which takes any 40
/// bytes or more; the contract restates its layout, and names the written
/// form of the addresses `ipv6_text` of their bytes.
#[verifier::external_body]
fn ipv6_from_bytes(bytes: &[u8]) -> (r: Option<Ipv6>)
    ensures
        r is Some <==> bytes@.len() >= 40,
        r matches Some(d) ==> ipv6_of(d, bytes@),
        r matches Some(d) ==> d.source_text@ == ipv6_text(bytes@.subrange(8, 24))
            && d.destination_text@ == ipv6_text(bytes@.subrange(24, 40)),
{
    pnet::packet::ipv6::Ipv6Packet::new(bytes).map(|p| Ipv6 {
        version: p.get_version(), traffic_class: p.get_traffic_class(), flow_label: p.get_flow_label(),
        payload_length: p.get_payload_length(), next_header: p.get_next_header().0,
        hop_limit: p.get_hop_limit(), source: p.get_source().octets(),
        destination: p.get_destination().octets(), source_text: p.get_source().to_string(),
        destination_text: p.get_destination().to_string(), payload: p.payload().to_vec(),
    })
}

/// What `pnet`'s `EtherType` writes for an Ethernet type: its name, or
/// `unknown`.
pub open spec fn ether_type_text(t: u16) -> Seq<char> {
    if t == 0x0800 {
        "Ipv4"@
    } else if t == 0x0806 {
        "Arp"@
    } else if t == 0x0842 {
        "WakeOnLan"@
    } else if t == 0x22F3 {
        "Trill"@
    } else if t == 0x6003 {
        "DECnet"@
    } else if t == 0x8035 {
        "Rarp"@
    } else if t == 0x809B {
        "AppleTalk"@
    } else if t == 0x80F3 {
        "Aarp"@
    } else if t == 0x8137 {
        "Ipx"@
    } else if t == 0x8204 {
        "Qnx"@
    } else if t == 0x86DD {
        "Ipv6"@
    } else if t == 0x8808 {
        "FlowControl"@
    } else if t == 0x8819 {
        "CobraNet"@
    } else if t == 0x8847 {
        "Mpls"@
    } else if t == 0x8848 {
        "MplsMcast"@
    } else if t == 0x8863 {
        "PppoeDiscovery"@
    } else if t == 0x8864 {
        "PppoeSession"@
    } else if t == 0x8100 {
        "Vlan"@
    } else if t == 0x88A8 {
        "PBridge"@
    } else if t == 0x88CC {
        "Lldp"@
    } else if t == 0x88F7 {
        "Ptp"@
    } else if t == 0x8902 {
        "Cfm"@
    } else if t == 0x9100 {
        "QinQ"@
    } else {
        "unknown"@
    }
}

/// The name of an Ethernet type (`Display` of
/// `pnet::packet::ethernet::EtherType`), as its table of names gives it.
#[verifier::external_body]
fn ether_type_name(t: u16) -> (r: String)
    ensures
        r@ == ether_type_text(t),
{
    pnet::packet::ethernet::EtherType::new(t).to_string()
}

/// The network layer of a packet.
#[derive(Debug, Clone)]
pub struct Network {
    pub protocol: NetworkProtocol,
    pub ipv4: Option<Ipv4>,
    pub ipv6: Option<Ipv6>,
    pub arp: Option<Arp>,
}

/// What reading the network layer of an Ethernet frame gives: IPv4, IPv6 or
/// ARP by the Ethernet type, an error when the payload is too short for it,
/// and an error that names the layer and the type otherwise.
pub open spec fn network_result(r: Result<Network, Error>, e: Ethernet) -> bool {
    let b = e.payload@;
    if e.ethertype == ETHERTYPE_IPV4 {
        &&& (b.len() >= 20 <==> r is Ok)
        &&& (r matches Ok(n) ==> n.protocol == NetworkProtocol::Ipv4 && (n.ipv4 matches Some(d)
            && ipv4_of(d, b)))
        &&& (r is Err ==> r == Err::<Network, Error>(Error::PacketParsing))
    } else if e.ethertype == ETHERTYPE_IPV6 {
        &&& (b.len() >= 40 <==> r is Ok)
        &&& (r matches Ok(n) ==> n.protocol == NetworkProtocol::Ipv6 && (n.ipv6 matches Some(d)
            && ipv6_of(d, b)))
        &&& (r is Err ==> r == Err::<Network, Error>(Error::PacketParsing))
    } else if e.ethertype == ETHERTYPE_ARP {
        &&& (b.len() >= 28 <==> r is Ok)
        &&& (r matches Ok(n) ==> n.protocol == NetworkProtocol::Arp && (n.arp matches Some(a)
            && arp_of(a, b)))
        &&& (r is Err ==> r == Err::<Network, Error>(Error::PacketParsing))
    } else {
        r matches Err(Error::UnimplementedError { layer, protocol }) && layer@ == Layer::Network.name()
            && protocol@ == lowercase(ether_type_text(e.ethertype))
    }
}

/// Reads the network layer of a packet from its Ethernet payload: IPv4,
/// IPv6 or ARP by the Ethernet type, an error when the payload is too short
/// for it, and an error that names the layer and the type otherwise.
pub fn read_packet(data_link: &DataLink) -> (r: Result<Network, Error>)
    requires
        data_link.ethernet is Some,
    ensures
        network_result(r, data_link.ethernet->0),
{
    let ethernet = match &data_link.ethernet {
        Some(e) => e,
        None => return Err(Error::PacketParsing),
    };
    let payload = ethernet.payload.as_slice();
    if ethernet.ethertype == ETHERTYPE_IPV4 {
        match ipv4_from_bytes(payload) {
            Some(d) => Ok(Network { protocol: NetworkProtocol::Ipv4, ipv4: Some(d), ipv6: None, arp: None }),
            None => Err(Error::PacketParsing),
        }
    } else if ethernet.ethertype == ETHERTYPE_IPV6 {
        match ipv6_from_bytes(payload) {
            Some(d) => Ok(Network { protocol: NetworkProtocol::Ipv6, ipv4: None, ipv6: Some(d), arp: None }),
            None => Err(Error::PacketParsing),
        }
    } else if ethernet.ethertype == ETHERTYPE_ARP {
        match arp_from_bytes(payload) {
            Some(a) => Ok(Network { protocol: NetworkProtocol::Arp, ipv4: None, ipv6: None, arp: Some(a) }),
            None => Err(Error::PacketParsing),
        }
    } else {
        let name = ether_type_name(ethernet.ethertype);
        Err(Error::UnimplementedError {
            layer: Layer::Network.to_string(),
            protocol: to_lowercase(name.as_str()),
        })
    }
}


/// The network layer is chosen by the Ethernet type: 0x0800 gives IPv4,
/// 0x86DD IPv6 and 0x0806 ARP, each read from the frame's payload when it is
/// at least as long as that protocol's header (20, 40 and 28 bytes); any
/// other type gives an error.
pub proof fn network_layer_follows_the_ethernet_type(r: Result<Network, Error>, e: Ethernet)
    requires
        network_result(r, e),
    ensures
        r matches Ok(n) ==> (n.protocol == NetworkProtocol::Ipv4 <==> e.ethertype == 0x0800),
        r matches Ok(n) ==> (n.protocol == NetworkProtocol::Ipv6 <==> e.ethertype == 0x86DD),
        r matches Ok(n) ==> (n.protocol == NetworkProtocol::Arp <==> e.ethertype == 0x0806),
        r matches Ok(n) ==> (n.protocol == NetworkProtocol::Ipv4 ==> (n.ipv4 matches Some(d)
            && d.source@ == e.payload@.subrange(12, 16) && d.destination@ == e.payload@.subrange(16, 20)
            && d.next_level_protocol == e.payload@[9])),
        e.ethertype == 0x0800 ==> (r is Ok <==> e.payload@.len() >= 20),
        e.ethertype == 0x86DD ==> (r is Ok <==> e.payload@.len() >= 40),
        e.ethertype == 0x0806 ==> (r is Ok <==> e.payload@.len() >= 28),
        e.ethertype != 0x0800 && e.ethertype != 0x86DD && e.ethertype != 0x0806 ==> r is Err,
{
}

} // verus!
