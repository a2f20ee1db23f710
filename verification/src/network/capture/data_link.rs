//! The data link layer: Ethernet frames.
use vstd::prelude::*;
use crate::network::address::be16;
use crate::network::{Error, Layer};
use pnet::packet::Packet;

verus! {

/// The protocols of the data link layer that are read.
#[derive(Debug, Clone, Copy, PartialEq, Eq)]
pub enum DataLinkProtocol {
    Ethernet,
}

impl DataLinkProtocol {
    /// The name of the protocol.
    pub open spec fn name(self) -> Seq<char> {
        match self {
            DataLinkProtocol::Ethernet => "ethernet"@,
        }
    }

    /// The name of the protocol.
    pub fn to_string(&self) -> (r: String)
        ensures
            r@ == self.name(),
    {
        match self {
            DataLinkProtocol::Ethernet => String::from_str("ethernet"),
        }
    }
}

/// An Ethernet frame: addresses, the type of its payload, and the payload.
#[derive(Debug, Clone)]
pub struct Ethernet {
    pub destination: [u8; 6],
    pub source: [u8; 6],
    pub ethertype: u16,
    pub payload: Vec<u8>,
}

/// The frame that the bytes hold: destination and source addresses, the
/// big-endian type, and the rest as payload.
pub open spec fn ethernet_of(e: Ethernet, b: Seq<u8>) -> bool {
    &&& e.destination@ == b.subrange(0, 6)
    &&& e.source@ == b.subrange(6, 12)
    &&& e.ethertype == be16(b, 12)
    &&& e.payload@ == b.skip(14)
}

/// Reads an Ethernet frame with `pnet`'s `EthernetPacket`, which takes any
/// fourteen bytes or more; the contract restates its fixed layout.
#[verifier::external_body]
fn ethernet_from_bytes(bytes: &[u8]) -> (r: Option<Ethernet>)
    ensures
        r is Some <==> bytes@.len() >= 14,
        r matches Some(e) ==> ethernet_of(e, bytes@),
{
    pnet::packet::ethernet::EthernetPacket::new(bytes).map(|p| Ethernet {
        destination: p.get_destination().octets(),
        source: p.get_source().octets(),
        ethertype: p.get_ethertype().0,
        payload: p.payload().to_vec(),
    })
}

/// The data link layer of a packet.
#[derive(Debug, Clone)]
pub struct DataLink {
    pub protocol: DataLinkProtocol,
    pub ethernet: Option<Ethernet>,
}

/// Reads the data link layer of a packet: an Ethernet frame when the packet
/// has fourteen bytes or more, else an error that names the layer and no
/// protocol.
pub fn read_packet(packet: &[u8]) -> (r: Result<DataLink, Error>)
    ensures
        packet@.len() >= 14 <==> r is Ok,
        r matches Ok(d) ==> d.protocol == DataLinkProtocol::Ethernet && (d.ethernet matches Some(e)
            && ethernet_of(e, packet@)),
        r matches Err(e) ==> e matches Error::UnimplementedError { layer, protocol }
            && layer@ == Layer::DataLink.name() && protocol@ == Seq::<char>::empty(),
{
    match ethernet_from_bytes(packet) {
        Some(ethernet) => Ok(DataLink { protocol: DataLinkProtocol::Ethernet, ethernet: Some(ethernet) }),
        None => Err(Error::UnimplementedError { layer: Layer::DataLink.to_string(), protocol: String::new() }),
    }
}

} // verus!
