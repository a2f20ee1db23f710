use rstracer::network::capture::application::{self, ApplicationProtocol};
use rstracer::network::capture::data_link::{self, DataLinkProtocol};
use rstracer::network::capture::network::{self, NetworkProtocol};
use rstracer::network::capture::transport::{self, TransportProtocol};
use rstracer::network::capture::{Capture, Device, DeviceAddress};
use rstracer::network::dns::{valid_header, Dns, DnsQuery, DnsRecord};
use rstracer::network::tls::TlsContentType;
use rstracer::network::{Error, Layer};
use rstracer::pipeline::stage::bronze::packet::{bronze_dns, device_addresses_to_sql};
use rstracer::pipeline::stage::bronze::Bronze;

fn ethernet(ethertype: u16, payload: &[u8]) -> Vec<u8> {
    let mut v = vec![0x66, 0x77, 0x88, 0x99, 0xaa, 0xbb, 0x00, 0x11, 0x22, 0x33, 0x44, 0x55];
    v.extend_from_slice(&ethertype.to_be_bytes());
    v.extend_from_slice(payload);
    v
}

fn ipv4(protocol: u8, payload: &[u8]) -> Vec<u8> {
    let total = (20 + payload.len()) as u16;
    let mut v = vec![0x45, 0];
    v.extend_from_slice(&total.to_be_bytes());
    v.extend_from_slice(&[0, 7, 0x40, 0, 64, protocol, 0x12, 0x34, 192, 168, 0, 1, 192, 168, 0, 2]);
    v.extend_from_slice(payload);
    ethernet(0x0800, &v)
}

fn ipv6(next: u8, payload: &[u8]) -> Vec<u8> {
    let mut v = vec![0x60, 0, 0, 0];
    v.extend_from_slice(&(payload.len() as u16).to_be_bytes());
    v.extend_from_slice(&[next, 64]);
    v.extend_from_slice(&[0x20, 0x01, 0x0d, 0xb8, 0, 0, 0, 0, 0, 0, 0, 0, 0, 0, 0, 1]);
    v.extend_from_slice(&[0x20, 0x01, 0x0d, 0xb8, 0, 0, 0, 0, 0, 0, 0, 0, 0, 0, 0, 2]);
    v.extend_from_slice(payload);
    ethernet(0x86DD, &v)
}

fn tcp(source: u16, destination: u16, payload: &[u8]) -> Vec<u8> {
    let mut v = Vec::new();
    v.extend_from_slice(&source.to_be_bytes());
    v.extend_from_slice(&destination.to_be_bytes());
    v.extend_from_slice(&[0, 0, 0, 1, 0, 0, 0, 1, 0x50, 0x12, 0xff, 0xff, 0, 0, 0, 0]);
    v.extend_from_slice(payload);
    v
}

fn udp(source: u16, destination: u16, payload: &[u8]) -> Vec<u8> {
    let mut v = Vec::new();
    v.extend_from_slice(&source.to_be_bytes());
    v.extend_from_slice(&destination.to_be_bytes());
    v.extend_from_slice(&((8 + payload.len()) as u16).to_be_bytes());
    v.extend_from_slice(&[0, 0]);
    v.extend_from_slice(payload);
    v
}

fn arp() -> Vec<u8> {
    let mut v = vec![0, 1, 0x08, 0x00, 6, 4, 0, 1];
    v.extend_from_slice(&[0x00, 0x11, 0x22, 0x33, 0x44, 0x55, 192, 168, 0, 1]);
    v.extend_from_slice(&[0x66, 0x77, 0x88, 0x99, 0xaa, 0xbb, 192, 168, 0, 2]);
    ethernet(0x0806, &v)
}

fn read_to_network(bytes: &[u8]) -> network::Network {
    let link = data_link::read_packet(bytes).unwrap();
    network::read_packet(&link).unwrap()
}

fn read_to_transport(bytes: &[u8]) -> transport::Transport {
    transport::read_packet(&read_to_network(bytes)).unwrap()
}

fn unimplemented(error: Error) -> (String, String) {
    match error {
        Error::UnimplementedError { layer, protocol } => (layer, protocol),
        _ => panic!("Unexpected error type"),
    }
}

#[test]
fn test_display_data_link_protocol() {
    assert_eq!(DataLinkProtocol::Ethernet.to_string(), "ethernet");
}

#[test]
fn test_read_packet_valid() {
    let packet = ethernet(0x0800, &[0u8; 14]);
    let result = data_link::read_packet(&packet);
    assert!(result.is_ok());
    let data_link = result.unwrap();
    assert_eq!(data_link.protocol, DataLinkProtocol::Ethernet);
    let frame = data_link.ethernet.unwrap();
    assert_eq!(frame.source, [0x00, 0x11, 0x22, 0x33, 0x44, 0x55]);
    assert_eq!(frame.destination, [0x66, 0x77, 0x88, 0x99, 0xaa, 0xbb]);
    assert_eq!(frame.ethertype, 0x0800);
    assert_eq!(frame.payload.len(), 14);
}

#[test]
fn test_read_packet_invalid() {
    let packet = vec![0u8; 5];
    let result = data_link::read_packet(&packet);
    let (layer, protocol) = unimplemented(result.err().unwrap());
    assert_eq!(layer, "data_link");
    assert_eq!(protocol, "");
}

#[test]
fn test_display_network_protocol() {
    assert_eq!(NetworkProtocol::Arp.to_string(), "arp");
    assert_eq!(NetworkProtocol::Ipv4.to_string(), "ipv4");
    assert_eq!(NetworkProtocol::Ipv6.to_string(), "ipv6");
}

#[test]
fn network_layer_reads_each_protocol() {
    let n = read_to_network(&ipv4(6, &[1, 2, 3]));
    assert_eq!(n.protocol, NetworkProtocol::Ipv4);
    let d = n.ipv4.unwrap();
    assert_eq!((d.version, d.header_length, d.ttl, d.next_level_protocol), (4, 5, 64, 6));
    assert_eq!((d.identification, d.flags, d.checksum), (7, 2, 0x1234));
    assert_eq!(d.total_length, 23);
    assert_eq!(d.payload, vec![1, 2, 3]);
    assert_eq!(d.source, [192, 168, 0, 1]);

    let n = read_to_network(&ipv6(17, &[9, 9]));
    assert_eq!(n.protocol, NetworkProtocol::Ipv6);
    let d = n.ipv6.unwrap();
    assert_eq!((d.version, d.next_header, d.hop_limit, d.payload_length), (6, 17, 64, 2));
    assert_eq!(d.source_text, "2001:db8::1");
    assert_eq!(d.destination_text, "2001:db8::2");
    assert_eq!(d.payload, vec![9, 9]);

    let n = read_to_network(&arp());
    assert_eq!(n.protocol, NetworkProtocol::Arp);
    let a = n.arp.unwrap();
    assert_eq!((a.hardware_type, a.protocol_type, a.operation), (1, 0x0800, 1));
    assert_eq!(a.sender_proto_addr, [192, 168, 0, 1]);
    assert_eq!(a.target_hw_addr, [0x66, 0x77, 0x88, 0x99, 0xaa, 0xbb]);
}

#[test]
fn network_layer_errors() {
    let link = data_link::read_packet(&ethernet(0x1234, &[0u8; 20])).unwrap();
    let (layer, protocol) = unimplemented(network::read_packet(&link).err().unwrap());
    assert_eq!(layer, Layer::Network.to_string());
    assert_eq!(protocol, "unknown");
    let link = data_link::read_packet(&ethernet(0x88cc, &[0u8; 20])).unwrap();
    let (_, protocol) = unimplemented(network::read_packet(&link).err().unwrap());
    assert_eq!(protocol, "lldp");
    let link = data_link::read_packet(&ethernet(0x0800, &[0u8; 19])).unwrap();
    assert_eq!(network::read_packet(&link).err().unwrap(), Error::PacketParsing);
}

#[test]
fn test_read_packet_ipv4_tcp() {
    let t = read_to_transport(&ipv4(6, &tcp(1234, 80, b"valid ipv4 tcp")));
    assert_eq!(t.protocol, TransportProtocol::Tcp);
    let s = t.tcp.unwrap();
    assert_eq!(s.source, 1234);
    assert_eq!(s.destination, 80);
    assert_eq!((s.sequence, s.acknowledgement, s.data_offset, s.flags, s.window), (1, 1, 5, 0x12, 65535));
    assert_eq!(s.payload, b"valid ipv4 tcp".to_vec());
    assert_eq!(s.options_text, "[]");
}

#[test]
fn test_read_packet_ipv6_udp() {
    let t = read_to_transport(&ipv6(17, &udp(1234, 53, b"valid ipv6 udp")));
    assert_eq!(t.protocol, TransportProtocol::Udp);
    let u = t.udp.unwrap();
    assert_eq!(u.source, 1234);
    assert_eq!(u.destination, 53);
    assert_eq!(u.length, 22);
}

#[test]
fn transport_layer_reads_control_messages() {
    let t = read_to_transport(&ipv4(1, &[8, 0, 0xab, 0xcd, 1, 2, 3, 4]));
    assert_eq!(t.protocol, TransportProtocol::Icmpv4);
    let m = t.icmpv4.unwrap();
    assert_eq!((m.message_type, m.code, m.checksum), (8, 0, 0xabcd));
    assert_eq!(m.payload.len(), 4);
    let t = read_to_transport(&ipv6(58, &[128, 0, 0, 0, 1, 2, 3, 4]));
    assert_eq!(t.protocol, TransportProtocol::Icmpv6);
    assert!(t.icmpv6.is_some());
}

#[test]
fn test_read_packet_ipv4_unsupported() {
    let n = read_to_network(&ipv4(2, b""));
    let (layer, protocol) = unimplemented(transport::read_packet(&n).err().unwrap());
    assert_eq!(layer, Layer::Transport.to_string());
    assert_eq!(protocol, "Igmp");
}

#[test]
fn test_read_packet_ipv6_unsupported() {
    let n = read_to_network(&ipv6(2, b""));
    let (layer, protocol) = unimplemented(transport::read_packet(&n).err().unwrap());
    assert_eq!(layer, Layer::Transport.to_string());
    assert_eq!(protocol, "Igmp");
}

#[test]
fn test_read_packet_arp() {
    let n = read_to_network(&arp());
    let (layer, protocol) = unimplemented(transport::read_packet(&n).err().unwrap());
    assert_eq!(layer, "transport");
    assert_eq!(protocol, "arp");
}

#[test]
fn transport_layer_short_segment() {
    let n = read_to_network(&ipv4(6, &[0u8; 10]));
    assert_eq!(transport::read_packet(&n).err().unwrap(), Error::PacketParsing);
}

fn no_dns(_: &Vec<u8>) -> Option<Dns> {
    None
}

fn sample_dns() -> Dns {
    Dns {
        id: 0x1234,
        is_response: 1,
        opcode: 0,
        is_authoriative: 0,
        is_truncated: 0,
        is_recursion_desirable: 1,
        is_recursion_available: 1,
        zero_reserved: 0,
        is_answer_authenticated: 0,
        is_non_authenticated_data: 0,
        rcode: 0,
        query_count: 1,
        response_count: 1,
        authority_rr_count: 0,
        additional_rr_count: 0,
        queries: vec![DnsQuery {
            qname: vec![3, 119, 119, 119, 0],
            qtype: 1,
            qclass: 1,
        }],
        responses: vec![DnsRecord {
            name_tag: 0xc00c,
            rtype: 1,
            rclass: 1,
            ttl: 60,
            data_len: 4,
            data: vec![93, 184, 216, 34],
        }],
        authorities: vec![],
        additional: vec![],
    }
}

#[test]
fn test_display_application_protocol() {
    assert_eq!(ApplicationProtocol::Dns.to_string(), "dns");
}

#[test]
fn test_read_packet_tcp_http() {
    let body = b"POST /submit HTTP/1.1\r\nHost: example.com\r\n\r\nname=ChatGPT&language=Rust";
    let t = read_to_transport(&ipv4(6, &tcp(1247, 80, body)));
    let a = application::read_packet(&t, no_dns).unwrap();
    assert_eq!(a.protocol, ApplicationProtocol::Http);
    assert_eq!(a.http.unwrap().body, "name=ChatGPT&language=Rust");
}

#[test]
fn test_read_packet_tcp_tls() {
    let tls = [0x16, 0x03, 0x03, 0x00, 0x05, 0x01, 0x02, 0x03, 0x04, 0x05];
    let t = read_to_transport(&ipv4(6, &tcp(1247, 443, &tls)));
    let a = application::read_packet(&t, no_dns).unwrap();
    assert_eq!(a.protocol, ApplicationProtocol::Tls);
    assert_eq!(a.tls.unwrap().content_type, TlsContentType::Handshake);
}

#[test]
fn application_layer_prefers_dns_and_fails_otherwise() {
    let t = read_to_transport(&ipv4(17, &udp(8646, 53, &[1, 2, 3])));
    assert_eq!(application::read_packet(&t, no_dns).err().unwrap(), Error::PacketParsing);
    let a = application::read_packet(&t, |_: &Vec<u8>| Some(sample_dns())).unwrap();
    assert_eq!(a.protocol, ApplicationProtocol::Dns);
    assert_eq!(a.dns.unwrap().id, 0x1234);
    let t = read_to_transport(&ipv4(6, &tcp(1, 2, &[0xff, 0xfe])));
    assert_eq!(application::read_packet(&t, no_dns).err().unwrap(), Error::PacketParsing);
    let t = read_to_transport(&ipv4(1, &[8, 0, 0, 0]));
    let (layer, protocol) = unimplemented(application::read_packet(&t, no_dns).err().unwrap());
    assert_eq!(layer, "application");
    assert_eq!(protocol, "icmpv4");
}

#[test]
fn dns_header_checks() {
    let mut dns = sample_dns();
    assert!(valid_header(&dns));
    dns.query_count = 4141;
    assert!(!valid_header(&dns));
    let mut dns = sample_dns();
    dns.query_count = 0;
    dns.response_count = 0;
    dns.queries.clear();
    dns.responses.clear();
    assert!(!valid_header(&dns));
}

#[test]
fn dns_rows() {
    let rows = bronze_dns(&sample_dns(), 7);
    assert!(rows.contains("VALUES (7, 4660, 1, 0, 0, 0, 1, 1, 0, 0, 0, 0, 1, 1, 0, 0, CURRENT_TIMESTAMP);"));
    assert!(rows.contains("VALUES (7, [3, 119, 119, 119, 0], 'A', 'IN', CURRENT_TIMESTAMP);"));
    assert!(rows.contains("VALUES (7, 0, '49164', 'A', 'IN', 60, 4, [93, 184, 216, 34], CURRENT_TIMESTAMP);"));
}

fn device() -> Device {
    Device {
        name: "eth0".to_string(),
        addresses: vec![DeviceAddress {
            addr: "192.168.1.79".to_string(),
            netmask: Some(vec![255, 255, 255, 0]),
            broadcast_addr: Some("192.168.1.255".to_string()),
            dst_addr: None,
        }],
    }
}

#[test]
fn interface_address_rows() {
    let sql = device_addresses_to_sql(&device());
    assert!(sql.starts_with("INSERT OR IGNORE INTO memory.bronze_network_interface_address ("));
    assert!(sql.ends_with("VALUES ('eth0', '192.168.1.79', '/24', '192.168.1.255', NULL, CURRENT_TIMESTAMP);"));
}

#[test]
fn capture_of_a_dns_query() {
    let packet: Vec<u8> = vec![
        204, 45, 27, 186, 195, 248, 248, 99, 63, 244, 10, 21, 8, 0, 69, 0, 0, 67, 129, 205, 0, 0,
        64, 17, 117, 60, 192, 168, 1, 79, 192, 168, 1, 1, 174, 55, 0, 53, 0, 47, 113, 146, 86, 48,
        1, 0, 0, 1, 0, 0, 0, 0, 0, 1, 6, 116, 97, 105, 118, 101, 109, 3, 99, 111, 109, 0, 0, 1,
        0, 1, 0, 0, 41, 5, 192, 0, 0, 0, 0, 0, 0,
    ];
    let capture = Capture::parse(&packet, device(), 1700000000000, |_: &Vec<u8>| Some(sample_dns()));
    assert!(capture.data_link.is_some());
    assert_eq!(capture.network.as_ref().unwrap().protocol, NetworkProtocol::Ipv4);
    assert_eq!(capture.transport.as_ref().unwrap().protocol, TransportProtocol::Udp);
    assert_eq!(capture.application.as_ref().unwrap().protocol, ApplicationProtocol::Dns);
    let sql = capture.to_insert_sql_with_id(42);
    assert!(sql.contains("VALUES (42, 'eth0', 81, TO_TIMESTAMP(1700000000000), CURRENT_TIMESTAMP, AGE(TO_TIMESTAMP(1700000000000)::TIMESTAMP));"));
    assert!(sql.contains("VALUES (42, 'f8:63:3f:f4:0a:15', 'cc:2d:1b:ba:c3:f8', 2048, 67, CURRENT_TIMESTAMP);"));
    assert!(sql.contains("'192.168.1.79', '192.168.1.1', CURRENT_TIMESTAMP);"));
    assert!(sql.contains("VALUES (42, 44599, 53, 47, 29074, CURRENT_TIMESTAMP);"));
    assert_eq!(sql.matches("INSERT").count(), 8);
    let random = capture.to_insert_sql(None);
    assert_eq!(random.matches("INSERT").count(), 8);

    let short = Capture::parse(&packet[..10], device(), 0, no_dns);
    assert!(short.data_link.is_none() && short.network.is_none());
    assert_eq!(short.to_insert_sql_with_id(1).matches("INSERT").count(), 2);
}
