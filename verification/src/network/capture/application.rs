//! The application layer: DNS, HTTP and TLS.
use vstd::prelude::*;
use crate::network::capture::transport::{Transport, TransportProtocol};
use crate::network::dns::Dns;
use crate::network::http::{from_bytes_panics, http_spec, Http};
use crate::network::tls::{tls_spec, Tls};
use crate::network::{Error, Layer};
use crate::text::{lowercase, to_lowercase};

verus! {

/// The protocols of the application layer that are read.
#[derive(Debug, Clone, Copy, PartialEq, Eq)]
pub enum ApplicationProtocol {
    Dns,
    Http,
    Tls,
}

impl ApplicationProtocol {
    /// The name of the protocol.
    pub open spec fn name(self) -> Seq<char> {
        match self {
            ApplicationProtocol::Dns => "dns"@,
            ApplicationProtocol::Http => "http"@,
            ApplicationProtocol::Tls => "tls"@,
        }
    }

    /// The name of the protocol.
    pub fn to_string(&self) -> (r: String)
        ensures
            r@ == self.name(),
    {
        match self {
            ApplicationProtocol::Dns => String::from_str("dns"),
            ApplicationProtocol::Http => String::from_str("http"),
            ApplicationProtocol::Tls => String::from_str("tls"),
        }
    }
}

/// The application layer of a packet.
#[derive(Debug, Clone)]
pub struct Application {
    pub protocol: ApplicationProtocol,
    pub dns: Option<Dns>,
    pub http: Option<Http>,
    pub tls: Option<Tls>,
}

/// The transport layer holds the segment or message of its protocol.
pub open spec fn transport_complete(t: Transport) -> bool {
    &&& t.protocol == TransportProtocol::Tcp ==> t.tcp is Some
    &&& t.protocol == TransportProtocol::Udp ==> t.udp is Some
}

/// What a stream payload gives, given what DNS reading gave: the DNS message
/// when there is one, else an HTTP message, else a TLS record, else an error.
pub open spec fn stream_outcome(r: Result<Application, Error>, dns: Option<Dns>, b: Seq<u8>) -> bool {
    match dns {
        Some(d) => r matches Ok(a) && a.protocol == ApplicationProtocol::Dns && a.dns == Some(d)
            && a.http is None && a.tls is None,
        None => match http_spec(b) {
            Some(h) => r matches Ok(a) && a.protocol == ApplicationProtocol::Http && (a.http matches Some(x)
                && x@ == h) && a.dns is None && a.tls is None,
            None => match tls_spec(b) {
                Some((ct, v, l, p)) => r matches Ok(a) && a.protocol == ApplicationProtocol::Tls
                    && (a.tls matches Some(t) && t.content_type == ct && t.version == v && t.length == l
                    && t.payload@ == p) && a.dns is None && a.http is None,
                None => r == Err::<Application, Error>(Error::PacketParsing),
            },
        },
    }
}

/// What a datagram payload gives, given what DNS reading gave: the DNS
/// message, or an error.
pub open spec fn datagram_outcome(r: Result<Application, Error>, dns: Option<Dns>) -> bool {
    match dns {
        Some(d) => r matches Ok(a) && a.protocol == ApplicationProtocol::Dns && a.dns == Some(d)
            && a.http is None && a.tls is None,
        None => r == Err::<Application, Error>(Error::PacketParsing),
    }
}

/// Reading the stream payload as HTTP does not index a word that the start
/// line lacks, whenever DNS reading gives nothing.
pub open spec fn stream_readable<F: Fn(&Vec<u8>) -> Option<Dns>>(parse_dns: F, b: &Vec<u8>) -> bool {
    forall|d: Option<Dns>| #[trigger] call_ensures(parse_dns, (b,), d) && d is None ==> !from_bytes_panics(b@)
}

/// What reading the application layer of a transport layer gives, DNS
/// messages being read with `parse_dns`: on TCP, a DNS message, else an HTTP
/// message, else a TLS record; on UDP, a DNS message; an error when none is
/// found, and an error that names the layer and the protocol for ICMP.
pub open spec fn application_result<F: Fn(&Vec<u8>) -> Option<Dns>>(
    r: Result<Application, Error>,
    t: Transport,
    parse_dns: F,
) -> bool {
    match t.protocol {
        TransportProtocol::Tcp => exists|d: Option<Dns>|
            call_ensures(parse_dns, (&t.tcp->0.payload,), d) && #[trigger] stream_outcome(
                r,
                d,
                t.tcp->0.payload@,
            ),
        TransportProtocol::Udp => exists|d: Option<Dns>|
            call_ensures(parse_dns, (&t.udp->0.payload,), d) && #[trigger] datagram_outcome(r, d),
        _ => r matches Err(Error::UnimplementedError { layer, protocol }) && layer@
            == Layer::Application.name() && protocol@ == lowercase(t.protocol.name()),
    }
}

/// Reads the application layer of a packet from its transport payload:
/// on TCP, a DNS message (as `parse_dns` reads it), else an HTTP message,
/// else a TLS record; on UDP, a DNS message; an error when none is found,
/// and an error that names the layer and the protocol for ICMP.
pub fn read_packet<F: Fn(&Vec<u8>) -> Option<Dns>>(transport: &Transport, parse_dns: F) -> (r: Result<
    Application,
    Error,
>)
    requires
        transport_complete(*transport),
        transport.protocol == TransportProtocol::Tcp ==> call_requires(
            parse_dns,
            (&transport.tcp->0.payload,),
        ) && stream_readable(parse_dns, &transport.tcp->0.payload),
        transport.protocol == TransportProtocol::Udp ==> call_requires(
            parse_dns,
            (&transport.udp->0.payload,),
        ),
    ensures
        application_result(r, *transport, parse_dns),
{
    match transport.protocol {
        TransportProtocol::Tcp => {
            let payload = match &transport.tcp {
                Some(t) => &t.payload,
                None => return Err(Error::PacketParsing),
            };
            let dns = parse_dns(payload);
            let ghost dv = dns;
            let res = match dns {
                Some(d) => Ok(Application { protocol: ApplicationProtocol::Dns, dns: Some(d), http: None, tls: None }),
                None => match Http::from_bytes(payload.as_slice()) {
                    Ok(h) => Ok(Application { protocol: ApplicationProtocol::Http, dns: None, http: Some(h), tls: None }),
                    Err(_) => match Tls::from_bytes(payload.as_slice()) {
                        Ok(t) => Ok(Application { protocol: ApplicationProtocol::Tls, dns: None, http: None, tls: Some(t) }),
                        Err(_) => Err(Error::PacketParsing),
                    },
                },
            };
            proof {
                assert(stream_outcome(res, dv, payload@));
            }
            res
        },
        TransportProtocol::Udp => {
            let payload = match &transport.udp {
                Some(u) => &u.payload,
                None => return Err(Error::PacketParsing),
            };
            let dns = parse_dns(payload);
            let ghost dv = dns;
            let res = match dns {
                Some(d) => Ok(Application { protocol: ApplicationProtocol::Dns, dns: Some(d), http: None, tls: None }),
                None => Err(Error::PacketParsing),
            };
            proof {
                assert(datagram_outcome(res, dv));
            }
            res
        },
        _ => {
            let name = transport.protocol.to_string();
            Err(Error::UnimplementedError {
                layer: Layer::Application.to_string(),
                protocol: to_lowercase(name.as_str()),
            })
        },
    }
}

} // verus!
