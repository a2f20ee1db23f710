//! Captured packets, read layer by layer.
use vstd::prelude::*;
use crate::network::capture::application::{application_result, Application};
use crate::network::capture::data_link::{ethernet_of, DataLink};
use crate::network::capture::network::{network_result, Network};
use crate::network::capture::transport::{transport_result, Transport, TransportProtocol};
use crate::network::Error;
use crate::pipeline::stage::bronze::packet::{capture_holds, masks_fit};
use crate::network::dns::Dns;
use crate::network::http::from_bytes_panics;

pub mod application;
pub mod data_link;
pub mod network;
pub mod transport;

verus! {

/// An address of a network interface, in written form; the mask as its
/// bytes.
#[derive(Debug, Clone)]
pub struct DeviceAddress {
    pub addr: String,
    pub netmask: Option<Vec<u8>>,
    pub broadcast_addr: Option<String>,
    pub dst_addr: Option<String>,
}

/// A network interface and its addresses.
#[derive(Debug, Clone)]
pub struct Device {
    pub name: String,
    pub addresses: Vec<DeviceAddress>,
}

/// A packet captured on an interface, at a time in milliseconds, with the
/// layers that could be read from it.
#[derive(Debug, Clone)]
pub struct Capture {
    pub device: Device,
    pub packet: Vec<u8>,
    pub created_at: i64,
    pub data_link: Option<DataLink>,
    pub network: Option<Network>,
    pub transport: Option<Transport>,
    pub application: Option<Application>,
}

/// DNS reading can be asked of any payload, and where it gives nothing,
/// reading the payload as HTTP does not index a word that its start line
/// lacks.
pub open spec fn dns_reader_total<F: Fn(&Vec<u8>) -> Option<Dns>>(parse_dns: F) -> bool {
    &&& forall|b: &Vec<u8>| #[trigger] call_requires(parse_dns, (b,))
    &&& forall|b: &Vec<u8>, d: Option<Dns>| #[trigger] call_ensures(parse_dns, (b,), d) && d is None
        ==> !from_bytes_panics(b@)
}

/// The value of a result that succeeded.
pub open spec fn ok_of<T>(r: Result<T, Error>) -> Option<T> {
    match r {
        Ok(v) => Some(v),
        Err(_) => None,
    }
}

impl Capture {
    /// Reads a captured packet layer by layer, each layer from the one below;
    /// a layer that cannot be read is left out, and so are those above it.
    pub fn parse<F: Fn(&Vec<u8>) -> Option<Dns>>(
        packet: &[u8],
        device: Device,
        created_at: i64,
        parse_dns: F,
    ) -> (r: Capture)
        requires
            dns_reader_total(parse_dns),
        ensures
            r.device == device,
            r.packet@ == packet@,
            r.created_at == created_at,
            r.data_link is Some <==> packet@.len() >= 14,
            r.data_link matches Some(d) ==> (d.ethernet matches Some(e) && ethernet_of(e, packet@)),
            r.data_link matches Some(d) ==> exists|res: Result<Network, Error>|
                #[trigger] network_result(res, d.ethernet->0) && r.network == ok_of(res),
            r.data_link is None ==> r.network is None,
            r.network matches Some(n) ==> exists|res: Result<Transport, Error>|
                #[trigger] transport_result(res, n) && r.transport == ok_of(res),
            r.network is None ==> r.transport is None,
            r.transport matches Some(t) ==> exists|res: Result<Application, Error>|
                #[trigger] application_result(res, t, parse_dns) && r.application == ok_of(res),
            r.transport is None ==> r.application is None,
            masks_fit(r.device) ==> capture_holds(r),
    {
        let data_link = match data_link::read_packet(packet) {
            Ok(d) => Some(d),
            Err(_) => None,
        };
        let network = match &data_link {
            Some(d) => {
                let res = network::read_packet(d);
                proof {
                    assert(network_result(res, d.ethernet->0));
                }
                match res {
                    Ok(n) => Some(n),
                    Err(_) => None,
                }
            },
            None => None,
        };
        let transport = match &network {
            Some(n) => {
                let res = transport::read_packet(n);
                proof {
                    assert(transport_result(res, *n));
                }
                match res {
                    Ok(t) => Some(t),
                    Err(_) => None,
                }
            },
            None => None,
        };
        let application = match &transport {
            Some(t) => {
                proof {
                    if t.protocol == TransportProtocol::Tcp {
                        let b = &t.tcp->0.payload;
                        assert forall|d: Option<Dns>| #[trigger] call_ensures(parse_dns, (b,), d) && d is None
                            implies !from_bytes_panics(b@) by {}
                    }
                }
                let res = application::read_packet(t, parse_dns);
                proof {
                    assert(application_result(res, *t, parse_dns));
                }
                match res {
                    Ok(a) => Some(a),
                    Err(_) => None,
                }
            },
            None => None,
        };
        Capture {
            device,
            packet: vstd::slice::slice_to_vec(packet),
            created_at,
            data_link,
            network,
            transport,
            application,
        }
    }
}

} // verus!
