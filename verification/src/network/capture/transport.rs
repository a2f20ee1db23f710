//! The transport layer: TCP, UDP, and ICMP (which belongs to the network
//! layer but is read here).
use vstd::prelude::*;
use crate::network::address::{be16, be32};
use crate::network::capture::network::{Network, NetworkProtocol};
use crate::network::{Error, Layer};
use pnet::packet::Packet;

verus! {

/// The protocols of the transport layer that are read.
#[derive(Debug, Clone, Copy, PartialEq, Eq)]
pub enum TransportProtocol {
    Tcp,
    Udp,
    Icmpv4,
    Icmpv6,
}

impl TransportProtocol {
    /// The name of the protocol.
    pub open spec fn name(self) -> Seq<char> {
        match self {
            TransportProtocol::Tcp => "tcp"@,
            TransportProtocol::Udp => "udp"@,
            TransportProtocol::Icmpv4 => "icmpv4"@,
            TransportProtocol::Icmpv6 => "icmpv6"@,
        }
    }

    /// The name of the protocol.
    pub fn to_string(&self) -> (r: String)
        ensures
            r@ == self.name(),
    {
        match self {
            TransportProtocol::Tcp => String::from_str("tcp"),
            TransportProtocol::Udp => String::from_str("udp"),
            TransportProtocol::Icmpv4 => String::from_str("icmpv4"),
            TransportProtocol::Icmpv6 => String::from_str("icmpv6"),
        }
    }
}

/// The IP protocol number of ICMP.
pub const IP_ICMP: u8 = 1;

/// The IP protocol number of TCP.
pub const IP_TCP: u8 = 6;

/// The IP protocol number of UDP.
pub const IP_UDP: u8 = 17;

/// The IP protocol number of ICMPv6.
pub const IP_ICMPV6: u8 = 58;

/// A TCP segment, its options in the written form that `Debug` gives them.
#[derive(Debug, Clone)]
pub struct Tcp {
    pub source: u16,
    pub destination: u16,
    pub sequence: u32,
    pub acknowledgement: u32,
    pub data_offset: u8,
    pub reserved: u8,
    pub flags: u8,
    pub window: u16,
    pub checksum: u16,
    pub urgent_ptr: u16,
    pub options_text: String,
    pub payload: Vec<u8>,
}

/// What `Debug` writes for the options that `pnet` reads from the bytes of a
/// TCP segment.
pub uninterp spec fn tcp_options_text(b: Seq<u8>) -> Seq<char>;

/// The segment that the bytes hold: the header fields at their places, and as
/// payload the bytes after the header and its options.
pub open spec fn tcp_of(t: Tcp, b: Seq<u8>) -> bool {
    let start = if t.data_offset > 5 { t.data_offset * 4 } else { 20 };
    &&& t.source == be16(b, 0)
    &&& t.destination == be16(b, 2)
    &&& t.sequence == be32(b, 4)
    &&& t.acknowledgement == be32(b, 8)
    &&& t.data_offset == b[12] / 16
    &&& t.reserved == b[12] % 16
    &&& t.flags == b[13]
    &&& t.window == be16(b, 14)
    &&& t.checksum == be16(b, 16)
    &&& t.urgent_ptr == be16(b, 18)
    &&& t.payload@ == (if b.len() <= start { Seq::empty() } else { b.skip(start) })
}

/// Reads a TCP segment with `pnet`'s `TcpPacket`, which takes any 20 bytes or
/// more; the contract restates its layout, and names the written form of the
/// options `tcp_options_text` of the bytes.
#[verifier::external_body]
fn tcp_from_bytes(bytes: &[u8]) -> (r: Option<Tcp>)
    ensures
        r is Some <==> bytes@.len() >= 20,
        r matches Some(t) ==> tcp_of(t, bytes@),
        r matches Some(t) ==> t.options_text@ == tcp_options_text(bytes@),
{
    pnet::packet::tcp::TcpPacket::new(bytes).map(|p| Tcp {
        source: p.get_source(), destination: p.get_destination(), sequence: p.get_sequence(),
        acknowledgement: p.get_acknowledgement(), data_offset: p.get_data_offset(),
        reserved: p.get_reserved(), flags: p.get_flags(), window: p.get_window(),
        checksum: p.get_checksum(), urgent_ptr: p.get_urgent_ptr(),
        options_text: format!("{:?}", p.get_options()), payload: p.payload().to_vec(),
    })
}

/// A UDP datagram.
#[derive(Debug, Clone)]
pub struct Udp {
    pub source: u16,
    pub destination: u16,
    pub length: u16,
    pub checksum: u16,
    pub payload: Vec<u8>,
}

/// The datagram that the bytes hold.
pub open spec fn udp_of(u: Udp, b: Seq<u8>) -> bool {
    &&& u.source == be16(b, 0)
    &&& u.destination == be16(b, 2)
    &&& u.length == be16(b, 4)
    &&& u.checksum == be16(b, 6)
    &&& u.payload@ == b.skip(8)
}

/// Reads a UDP datagram with `pnet`'s `UdpPacket`, which takes any eight
/// bytes or more; the contract restates its layout.
#[verifier::external_body]
fn udp_from_bytes(bytes: &[u8]) -> (r: Option<Udp>)
    ensures
        r is Some <==> bytes@.len() >= 8,
        r matches Some(u) ==> udp_of(u, bytes@),
{
    pnet::packet::udp::UdpPacket::new(bytes).map(|p| Udp {
        source: p.get_source(), destination: p.get_destination(), length: p.get_length(),
        checksum: p.get_checksum(), payload: p.payload().to_vec(),
    })
}

/// An ICMP or ICMPv6 message: its type, code, checksum and the rest.
#[derive(Debug, Clone)]
pub struct ControlMessage {
    pub message_type: u8,
    pub code: u8,
    pub checksum: u16,
    pub payload: Vec<u8>,
}

/// The message that the bytes hold.
pub open spec fn control_message_of(m: ControlMessage, b: Seq<u8>) -> bool {
    &&& m.message_type == b[0]
    &&& m.code == b[1]
    &&& m.checksum == be16(b, 2)
    &&& m.payload@ == b.skip(4)
}

/// Reads an ICMP message with `pnet`'s `IcmpPacket`, which takes any four
/// bytes or more; the contract restates its layout.
#[verifier::external_body]
fn icmpv4_from_bytes(bytes: &[u8]) -> (r: Option<ControlMessage>)
    ensures
        r is Some <==> bytes@.len() >= 4,
        r matches Some(m) ==> control_message_of(m, bytes@),
{
    pnet::packet::icmp::IcmpPacket::new(bytes).map(|p| ControlMessage {
        message_type: p.get_icmp_type().0, code: p.get_icmp_code().0,
        checksum: p.get_checksum(), payload: p.payload().to_vec(),
    })
}

/// Reads an ICMPv6 message with `pnet`'s `Icmpv6Packet`, which takes any
/// four bytes or more; the contract restates its layout.
#[verifier::external_body]
fn icmpv6_from_bytes(bytes: &[u8]) -> (r: Option<ControlMessage>)
    ensures
        r is Some <==> bytes@.len() >= 4,
        r matches Some(m) ==> control_message_of(m, bytes@),
{
    pnet::packet::icmpv6::Icmpv6Packet::new(bytes).map(|p| ControlMessage {
        message_type: p.get_icmpv6_type().0, code: p.get_icmpv6_code().0,
        checksum: p.get_checksum(), payload: p.payload().to_vec(),
    })
}

/// What `pnet`'s `IpNextHeaderProtocol` writes for a protocol number: its
/// name, or `unknown`.
pub uninterp spec fn ip_protocol_text(p: u8) -> Seq<char>;

/// The name of an IP protocol number (`Display` of
/// `pnet::packet::ip::IpNextHeaderProtocol`); the contract names the result
/// `ip_protocol_text` of the number.
#[verifier::external_body]
fn ip_protocol_name(p: u8) -> (r: String)
    ensures
        r@ == ip_protocol_text(p),
{
    pnet::packet::ip::IpNextHeaderProtocol::new(p).to_string()
}

/// The transport layer of a packet.
#[derive(Debug, Clone)]
pub struct Transport {
    pub protocol: TransportProtocol,
    pub tcp: Option<Tcp>,
    pub udp: Option<Udp>,
    pub icmpv4: Option<ControlMessage>,
    pub icmpv6: Option<ControlMessage>,
}

/// The transport layer that a datagram payload gives for a protocol number,
/// with the numbers of TCP, UDP and `icmp` (ICMP or ICMPv6).
pub open spec fn transport_of(r: Result<Transport, Error>, p: u8, b: Seq<u8>, icmp: u8, v6: bool) -> bool {
    if p == IP_TCP {
        &&& (b.len() >= 20 <==> r is Ok)
        &&& (r matches Ok(t) ==> t.protocol == TransportProtocol::Tcp && (t.tcp matches Some(s)
            && tcp_of(s, b) && s.options_text@ == tcp_options_text(b)))
        &&& (r is Err ==> r == Err::<Transport, Error>(Error::PacketParsing))
    } else if p == IP_UDP {
        &&& (b.len() >= 8 <==> r is Ok)
        &&& (r matches Ok(t) ==> t.protocol == TransportProtocol::Udp && (t.udp matches Some(u)
            && udp_of(u, b)))
        &&& (r is Err ==> r == Err::<Transport, Error>(Error::PacketParsing))
    } else if p == icmp {
        &&& (b.len() >= 4 <==> r is Ok)
        &&& (r matches Ok(t) ==> if v6 {
            t.protocol == TransportProtocol::Icmpv6 && (t.icmpv6 matches Some(m) && control_message_of(m, b))
        } else {
            t.protocol == TransportProtocol::Icmpv4 && (t.icmpv4 matches Some(m) && control_message_of(m, b))
        })
        &&& (r is Err ==> r == Err::<Transport, Error>(Error::PacketParsing))
    } else {
        r matches Err(Error::UnimplementedError { layer, protocol }) && layer@
            == Layer::Transport.name() && protocol@ == ip_protocol_text(p)
    }
}

/// The network layer holds the datagram of its protocol.
pub open spec fn network_complete(n: Network) -> bool {
    &&& n.protocol == NetworkProtocol::Ipv4 ==> n.ipv4 is Some
    &&& n.protocol == NetworkProtocol::Ipv6 ==> n.ipv6 is Some
}

/// What reading the transport layer of a network layer gives: by the
/// datagram's protocol number, TCP, UDP, and ICMP (ICMPv6 under IPv6); an
/// error when the payload is too short for it, and an error that names the
/// layer and the protocol otherwise (ARP carries no transport layer).
pub open spec fn transport_result(r: Result<Transport, Error>, n: Network) -> bool {
    match n.protocol {
        NetworkProtocol::Ipv4 => {
            let d = n.ipv4->0;
            transport_of(r, d.next_level_protocol, d.payload@, IP_ICMP, false)
        },
        NetworkProtocol::Ipv6 => {
            let d = n.ipv6->0;
            transport_of(r, d.next_header, d.payload@, IP_ICMPV6, true)
        },
        NetworkProtocol::Arp => r matches Err(Error::UnimplementedError { layer, protocol }) && layer@
            == Layer::Transport.name() && protocol@ == NetworkProtocol::Arp.name(),
    }
}

/// Reads the transport layer of a packet from its IP payload, by the
/// datagram's protocol number: TCP, UDP, and ICMP (ICMPv6 under IPv6); an
/// error when the payload is too short for it, and an error that names the
/// layer and the protocol otherwise (ARP carries no transport layer).
pub fn read_packet(network: &Network) -> (r: Result<Transport, Error>)
    requires
        network_complete(*network),
    ensures
        transport_result(r, *network),
{
    let (p, payload, icmp, v6): (u8, &Vec<u8>, u8, bool) = match network.protocol {
        NetworkProtocol::Ipv4 => match &network.ipv4 {
            Some(d) => (d.next_level_protocol, &d.payload, IP_ICMP, false),
            None => return Err(Error::PacketParsing),
        },
        NetworkProtocol::Ipv6 => match &network.ipv6 {
            Some(d) => (d.next_header, &d.payload, IP_ICMPV6, true),
            None => return Err(Error::PacketParsing),
        },
        NetworkProtocol::Arp => {
            return Err(Error::UnimplementedError {
                layer: Layer::Transport.to_string(),
                protocol: network.protocol.to_string(),
            });
        },
    };
    let bytes = payload.as_slice();
    if p == IP_TCP {
        match tcp_from_bytes(bytes) {
            Some(t) => Ok(Transport { protocol: TransportProtocol::Tcp, tcp: Some(t), udp: None, icmpv4: None, icmpv6: None }),
            None => Err(Error::PacketParsing),
        }
    } else if p == IP_UDP {
        match udp_from_bytes(bytes) {
            Some(u) => Ok(Transport { protocol: TransportProtocol::Udp, tcp: None, udp: Some(u), icmpv4: None, icmpv6: None }),
            None => Err(Error::PacketParsing),
        }
    } else if p == icmp && !v6 {
        match icmpv4_from_bytes(bytes) {
            Some(m) => Ok(Transport { protocol: TransportProtocol::Icmpv4, tcp: None, udp: None, icmpv4: Some(m), icmpv6: None }),
            None => Err(Error::PacketParsing),
        }
    } else if p == icmp {
        match icmpv6_from_bytes(bytes) {
            Some(m) => Ok(Transport { protocol: TransportProtocol::Icmpv6, tcp: None, udp: None, icmpv4: None, icmpv6: Some(m) }),
            None => Err(Error::PacketParsing),
        }
    } else {
        Err(Error::UnimplementedError {
            layer: Layer::Transport.to_string(),
            protocol: ip_protocol_name(p),
        })
    }
}


/// The transport layer is chosen by the IP protocol number: 6 gives TCP and
/// 17 UDP, 1 ICMP under IPv4 and 58 ICMPv6 under IPv6, each read from the
/// datagram's payload when it is at least as long as that protocol's header
/// (20, 8 and 4 bytes); any other number, and ARP, give an error.
pub proof fn transport_layer_follows_the_protocol_number(r: Result<Transport, Error>, n: Network)
    requires
        transport_result(r, n),
    ensures
        n.protocol == NetworkProtocol::Arp ==> r is Err,
        n.protocol == NetworkProtocol::Ipv4 ==> {
            let d = n.ipv4->0;
            &&& r matches Ok(t) ==> (t.protocol == TransportProtocol::Tcp <==> d.next_level_protocol == 6)
            &&& r matches Ok(t) ==> (t.protocol == TransportProtocol::Udp <==> d.next_level_protocol == 17)
            &&& r matches Ok(t) ==> (t.protocol == TransportProtocol::Icmpv4 <==> d.next_level_protocol == 1)
            &&& r matches Ok(t) ==> t.protocol != TransportProtocol::Icmpv6
            &&& d.next_level_protocol == 6 ==> (r is Ok <==> d.payload@.len() >= 20)
            &&& d.next_level_protocol == 17 ==> (r is Ok <==> d.payload@.len() >= 8)
            &&& d.next_level_protocol == 1 ==> (r is Ok <==> d.payload@.len() >= 4)
            &&& (d.next_level_protocol != 6 && d.next_level_protocol != 17 && d.next_level_protocol != 1)
                ==> r is Err
        },
        n.protocol == NetworkProtocol::Ipv6 ==> {
            let d = n.ipv6->0;
            &&& r matches Ok(t) ==> (t.protocol == TransportProtocol::Tcp <==> d.next_header == 6)
            &&& r matches Ok(t) ==> (t.protocol == TransportProtocol::Udp <==> d.next_header == 17)
            &&& r matches Ok(t) ==> (t.protocol == TransportProtocol::Icmpv6 <==> d.next_header == 58)
            &&& r matches Ok(t) ==> t.protocol != TransportProtocol::Icmpv4
            &&& d.next_header == 6 ==> (r is Ok <==> d.payload@.len() >= 20)
            &&& d.next_header == 17 ==> (r is Ok <==> d.payload@.len() >= 8)
            &&& d.next_header == 58 ==> (r is Ok <==> d.payload@.len() >= 4)
            &&& (d.next_header != 6 && d.next_header != 17 && d.next_header != 58) ==> r is Err
        },
{
}

} // verus!
