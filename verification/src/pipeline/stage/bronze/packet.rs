//! Bronze rows of captured packets: the insert requests that store each
//! layer of a packet.
use vstd::prelude::*;
use crate::network::address::{ipv4_string, ipv4_text, mac_string, mac_text, ones_in, prefix_length};
use crate::network::capture::application::{Application, ApplicationProtocol};
use crate::network::capture::{Capture, Device, DeviceAddress};
use crate::pipeline::stage::bronze::Bronze;
use crate::network::capture::data_link::{DataLink, Ethernet};
use crate::network::capture::network::{Arp, Ipv4, Ipv6, Network, NetworkProtocol};
use crate::network::capture::transport::{ControlMessage, Tcp, Transport, TransportProtocol, Udp};
use crate::network::dns::{dns_class_name, dns_class_text, dns_type_name, dns_type_text, Dns, DnsQuery, DnsRecord};
use crate::network::http::{Http, HttpMethod, HttpView};
use crate::network::tls::Tls;
use crate::num::{int_text, int_text_exec, nat_text_exec};
use crate::text::{
    append_chars, chars_of, debug_str, debug_text, join, join_exec, push_piece, replace_char,
    replace_char_exec, string_from_chars, views,
};

verus! {

/// A text with each single quote doubled, as SQL quotes it.
pub open spec fn sql_escaped(s: Seq<char>) -> Seq<char> {
    replace_char(s, '\'', "''"@)
}

/// A text between single quotes, or `NULL` when there is none.
pub open spec fn quoted_or_null(o: Option<Seq<char>>) -> Seq<char> {
    match o {
        Some(t) => "'"@ + t + "'"@,
        None => "NULL"@,
    }
}

/// A number, or `NULL` when there is none.
pub open spec fn number_or_null(o: Option<u16>) -> Seq<char> {
    match o {
        Some(n) => int_text(n as int),
        None => "NULL"@,
    }
}

/// Appends a text between single quotes, or `NULL`.
fn push_quoted_or_null(out: &mut Vec<char>, o: &Option<String>)
    ensures
        final(out)@ == old(out)@ + quoted_or_null(
            match o {
                Some(t) => Some(t@),
                None => None,
            },
        ),
{
    match o {
        Some(t) => {
            append_chars(out, &chars_of("'"));
            append_chars(out, &chars_of(t.as_str()));
            append_chars(out, &chars_of("'"));
        },
        None => append_chars(out, &chars_of("NULL")),
    }
}

// ---------------------------------------------------------------------------
// HTTP
// ---------------------------------------------------------------------------

/// The head of the insert request of an HTTP message, up to its values.
pub const HTTP_HEAD: &'static str = r#"INSERT INTO memory.bronze_network_http (
                    packet_id,
                    type,
                    method,
                    uri,
                    version,
                    status_code,
                    status_text,
                    headers,
                    body,
                    inserted_at
                    ) VALUES ("#;

/// The `Debug` form of header fields: `{"name": "value", ...}`, in the order
/// of the fields.
pub open spec fn headers_debug(es: Seq<(Seq<char>, Seq<char>)>) -> Seq<char> {
    "{"@ + join(
        es.map_values(|e: (Seq<char>, Seq<char>)| debug_text(e.0) + ": "@ + debug_text(e.1)),
        ", "@,
    ) + "}"@
}

/// The method of a start line between quotes, or `NULL`.
pub open spec fn method_or_null(m: Option<HttpMethod>) -> Seq<char> {
    match m {
        Some(m) => "'"@ + m.name() + "'"@,
        None => "NULL"@,
    }
}

/// The values of the row of an HTTP message, one per column: the packet id,
/// its kind, method, target, version, status code and reason, header fields
/// and body; the fields and the body have their single quotes doubled.
pub open spec fn http_fields(h: HttpView, id: u128) -> Seq<Seq<char>> {
    seq![
        num(id as int),
        quoted(h.instruction._type.name()),
        method_or_null(h.instruction.method),
        quoted_or_null(h.instruction.uri),
        quoted(h.instruction.version.name()),
        number_or_null(h.instruction.status_code),
        quoted_or_null(h.instruction.status_text),
        quoted(sql_escaped(headers_debug(h.headers))),
        quoted(sql_escaped(h.body)),
    ]
}

/// The insert request of an HTTP message: the head and its values.
pub open spec fn http_row(h: HttpView, packet_id: u128) -> Seq<char> {
    row_text(HTTP_HEAD@, http_fields(h, packet_id))
}

/// The `Debug` form of the header fields of a message.
fn headers_debug_exec(http: &Http) -> (r: Vec<char>)
    ensures
        r@ == headers_debug(http.headers.headers@),
{
    let map = &http.headers.headers;
    let ghost es = map@;
    let ghost f = |e: (Seq<char>, Seq<char>)| debug_text(e.0) + ": "@ + debug_text(e.1);
    let mut parts: Vec<Vec<char>> = Vec::new();
    let mut i: usize = 0;
    while i < map.len()
        invariant
            i <= es.len(),
            es == map@,
            f == (|e: (Seq<char>, Seq<char>)| debug_text(e.0) + ": "@ + debug_text(e.1)),
            views(parts@) == es.take(i as int).map_values(f),
        decreases es.len() - i,
    {
        let (k, v) = map.entry(i);
        let mut piece = chars_of(debug_str(k.as_str()).as_str());
        append_chars(&mut piece, &chars_of(": "));
        append_chars(&mut piece, &chars_of(debug_str(v.as_str()).as_str()));
        proof {
            assert(piece@ == f(es[i as int]));
        }
        push_piece(&mut parts, piece);
        proof {
            assert(es.take(i + 1) =~= es.take(i as int).push(es[i as int]));
            assert(views(parts@) =~= es.take(i + 1).map_values(f));
        }
        i = i + 1;
    }
    proof {
        assert(es.take(es.len() as int) =~= es);
    }
    let mut out = chars_of("{");
    append_chars(&mut out, &join_exec(&parts, &chars_of(", ")));
    append_chars(&mut out, &chars_of("}"));
    out
}

/// The insert request of an HTTP message of the packet `packet_id`.
pub fn bronze_http(http: &Http, packet_id: u128) -> (r: String)
    ensures
        r@ == http_row(http@, packet_id),
{
    let ins = &http.instruction;
    let mut f: Vec<Vec<char>> = Vec::new();
    push_piece(&mut f, nat_text_exec(packet_id));
    push_piece(&mut f, quoted_exec(&chars_of(ins._type.to_string().as_str())));
    let method = match &ins.method {
        Some(m) => quoted_exec(&chars_of(m.to_string().as_str())),
        None => chars_of("NULL"),
    };
    push_piece(&mut f, method);
    let mut uri: Vec<char> = Vec::new();
    push_quoted_or_null(&mut uri, &ins.uri);
    push_piece(&mut f, uri);
    push_piece(&mut f, quoted_exec(&chars_of(ins.version.to_string().as_str())));
    let code = match ins.status_code {
        Some(c) => nat_text_exec(c as u128),
        None => chars_of("NULL"),
    };
    push_piece(&mut f, code);
    let mut text: Vec<char> = Vec::new();
    push_quoted_or_null(&mut text, &ins.status_text);
    push_piece(&mut f, text);
    let quote = chars_of("''");
    push_piece(&mut f, quoted_exec(&replace_char_exec(&headers_debug_exec(http), '\'', &quote)));
    push_piece(&mut f, quoted_exec(&replace_char_exec(&chars_of(http.body.as_str()), '\'', &quote)));
    proof {
        assert(uri@ =~= quoted_or_null(http@.instruction.uri));
        assert(text@ =~= quoted_or_null(http@.instruction.status_text));
        assert(views(f@) =~= http_fields(http@, packet_id));
    }
    string_from_chars(&row(HTTP_HEAD, &f))
}

// ---------------------------------------------------------------------------
// TLS
// ---------------------------------------------------------------------------

/// The head of the insert request of a TLS record, up to its values.
pub const TLS_HEAD: &'static str = r#"INSERT INTO memory.bronze_network_tls (
                    packet_id,
                    content_type,
                    version,
                    length,
                    inserted_at
                    ) VALUES ("#;

/// The insert request of a TLS record: content type, version and length.
pub open spec fn tls_row(t: Tls, packet_id: u128) -> Seq<char> {
    TLS_HEAD@ + int_text(packet_id as int) + ", "@ + int_text(t.content_type.code() as int) + ", "@
        + int_text(t.version.code() as int) + ", "@ + int_text(t.length as int)
        + ", CURRENT_TIMESTAMP);"@
}

/// The insert request of a TLS record of the packet `packet_id`.
pub fn bronze_tls(tls: &Tls, packet_id: u128) -> (r: String)
    ensures
        r@ == tls_row(*tls, packet_id),
{
    let mut out = chars_of(TLS_HEAD);
    append_chars(&mut out, &nat_text_exec(packet_id));
    append_chars(&mut out, &chars_of(", "));
    append_chars(&mut out, &nat_text_exec(tls.content_type.to_u8() as u128));
    append_chars(&mut out, &chars_of(", "));
    append_chars(&mut out, &nat_text_exec(tls.version.to_u16() as u128));
    append_chars(&mut out, &chars_of(", "));
    append_chars(&mut out, &nat_text_exec(tls.length as u128));
    append_chars(&mut out, &chars_of(", CURRENT_TIMESTAMP);"));
    proof {
        assert(out@ =~= tls_row(*tls, packet_id));
    }
    string_from_chars(&out)
}

} // verus!

verus! {

// ---------------------------------------------------------------------------
// DNS
// ---------------------------------------------------------------------------

/// The head of the insert request of a DNS header, up to its values.
pub const DNS_HEADER_HEAD: &'static str = r#"INSERT INTO memory.bronze_network_dns_header (
                        packet_id,
                        id,
                        is_response,
                        opcode,
                        is_authoriative,
                        is_truncated,
                        is_recursion_desirable,
                        is_recursion_available,
                        zero_reserved,
                        is_answer_authenticated,
                        is_non_authenticated_data,
                        rcode,
                        query_count,
                        response_count,
                        authority_rr_count,
                        additional_rr_count,
                        inserted_at
                    ) VALUES ("#;

/// The head of the insert request of DNS questions, up to its values.
pub const DNS_QUERY_HEAD: &'static str = r#"INSERT INTO memory.bronze_network_dns_query (
                    packet_id,
                    qname,
                    qtype,
                    qclass,
                    inserted_at
                    ) VALUES "#;

/// The head of the insert request of DNS records, up to its values.
pub const DNS_RECORD_HEAD: &'static str = r#"INSERT INTO memory.bronze_network_dns_response (
                    packet_id,
                    origin,
                    name_tag,
                    rtype,
                    rclass,
                    ttl,
                    rdlength,
                    rdata,
                    inserted_at
                    ) VALUES "#;

/// The `Debug` form of bytes: `[b0, b1, ...]` in decimal.
pub open spec fn bytes_debug(b: Seq<u8>) -> Seq<char> {
    "["@ + join(b.map_values(|x: u8| int_text(x as int)), ", "@) + "]"@
}

/// The fields of a DNS header, each as a number, separated by commas.
pub open spec fn dns_header_values(d: Dns) -> Seq<Seq<char>> {
    seq![
        int_text(d.id as int),
        int_text(d.is_response as int),
        int_text(d.opcode as int),
        int_text(d.is_authoriative as int),
        int_text(d.is_truncated as int),
        int_text(d.is_recursion_desirable as int),
        int_text(d.is_recursion_available as int),
        int_text(d.zero_reserved as int),
        int_text(d.is_answer_authenticated as int),
        int_text(d.is_non_authenticated_data as int),
        int_text(d.rcode as int),
        int_text(d.query_count as int),
        int_text(d.response_count as int),
        int_text(d.authority_rr_count as int),
        int_text(d.additional_rr_count as int),
    ]
}

/// The insert request of the header of a DNS message.
pub open spec fn dns_header_row(d: Dns, packet_id: u128) -> Seq<char> {
    DNS_HEADER_HEAD@ + int_text(packet_id as int) + ", "@ + join(dns_header_values(d), ", "@)
        + ", CURRENT_TIMESTAMP);"@
}

/// The value tuple of a question.
pub open spec fn dns_query_value(q: DnsQuery, packet_id: u128) -> Seq<char> {
    "("@ + int_text(packet_id as int) + ", "@ + bytes_debug(q.qname@) + ", '"@ + dns_type_text(q.qtype)
        + "', '"@ + dns_class_text(q.qclass) + "', CURRENT_TIMESTAMP)"@
}

/// The insert request of the questions of a DNS message: nothing when there
/// are none.
pub open spec fn dns_query_rows(d: Dns, packet_id: u128) -> Seq<char> {
    if d.queries@.len() == 0 {
        Seq::empty()
    } else {
        DNS_QUERY_HEAD@ + join(
            d.queries@.map_values(|q: DnsQuery| dns_query_value(q, packet_id)),
            ","@,
        ) + ";"@
    }
}

/// The value tuple of a record of the section `origin` (0: answers,
/// 1: additional records, 2: authorities).
pub open spec fn dns_record_value(r: DnsRecord, packet_id: u128, origin: int) -> Seq<char> {
    "("@ + int_text(packet_id as int) + ", "@ + int_text(origin) + ", '"@ + int_text(r.name_tag as int)
        + "', '"@ + dns_type_text(r.rtype) + "', '"@ + dns_class_text(r.rclass) + "', "@ + int_text(
        r.ttl as int,
    ) + ", "@ + int_text(r.data_len as int) + ", "@ + bytes_debug(r.data@) + ", CURRENT_TIMESTAMP)"@
}

/// The value tuples of the records of one section.
pub open spec fn dns_section_values(rs: Seq<DnsRecord>, packet_id: u128, origin: int) -> Seq<Seq<char>> {
    rs.map_values(|r: DnsRecord| dns_record_value(r, packet_id, origin))
}

/// The insert request of the records of a DNS message, answers first, then
/// additional records, then authorities: nothing when there are none.
pub open spec fn dns_record_rows(d: Dns, packet_id: u128) -> Seq<char> {
    if d.responses@.len() == 0 && d.additional@.len() == 0 && d.authorities@.len() == 0 {
        Seq::empty()
    } else {
        DNS_RECORD_HEAD@ + join(
            dns_section_values(d.responses@, packet_id, 0) + dns_section_values(
                d.additional@,
                packet_id,
                1,
            ) + dns_section_values(d.authorities@, packet_id, 2),
            ","@,
        ) + ";"@
    }
}

/// The `Debug` form of bytes.
fn bytes_debug_exec(b: &Vec<u8>) -> (r: Vec<char>)
    ensures
        r@ == bytes_debug(b@),
{
    let mut parts: Vec<Vec<char>> = Vec::new();
    let mut i: usize = 0;
    while i < b.len()
        invariant
            i <= b@.len(),
            views(parts@) == b@.take(i as int).map_values(|x: u8| int_text(x as int)),
        decreases b@.len() - i,
    {
        push_piece(&mut parts, nat_text_exec(b[i] as u128));
        proof {
            assert(b@.take(i + 1) =~= b@.take(i as int).push(b@[i as int]));
            assert(views(parts@) =~= b@.take(i + 1).map_values(|x: u8| int_text(x as int)));
        }
        i = i + 1;
    }
    proof {
        assert(b@.take(b@.len() as int) =~= b@);
    }
    let mut out = chars_of("[");
    append_chars(&mut out, &join_exec(&parts, &chars_of(", ")));
    append_chars(&mut out, &chars_of("]"));
    out
}

/// The insert request of the header of a DNS message of the packet
/// `packet_id`.
pub fn bronze_dns_header(dns: &Dns, packet_id: u128) -> (r: String)
    ensures
        r@ == dns_header_row(*dns, packet_id),
{
    let mut parts: Vec<Vec<char>> = Vec::new();
    push_piece(&mut parts, nat_text_exec(dns.id as u128));
    push_piece(&mut parts, nat_text_exec(dns.is_response as u128));
    push_piece(&mut parts, nat_text_exec(dns.opcode as u128));
    push_piece(&mut parts, nat_text_exec(dns.is_authoriative as u128));
    push_piece(&mut parts, nat_text_exec(dns.is_truncated as u128));
    push_piece(&mut parts, nat_text_exec(dns.is_recursion_desirable as u128));
    push_piece(&mut parts, nat_text_exec(dns.is_recursion_available as u128));
    push_piece(&mut parts, nat_text_exec(dns.zero_reserved as u128));
    push_piece(&mut parts, nat_text_exec(dns.is_answer_authenticated as u128));
    push_piece(&mut parts, nat_text_exec(dns.is_non_authenticated_data as u128));
    push_piece(&mut parts, nat_text_exec(dns.rcode as u128));
    push_piece(&mut parts, nat_text_exec(dns.query_count as u128));
    push_piece(&mut parts, nat_text_exec(dns.response_count as u128));
    push_piece(&mut parts, nat_text_exec(dns.authority_rr_count as u128));
    push_piece(&mut parts, nat_text_exec(dns.additional_rr_count as u128));
    proof {
        assert(views(parts@) =~= dns_header_values(*dns));
    }
    let mut out = chars_of(DNS_HEADER_HEAD);
    append_chars(&mut out, &nat_text_exec(packet_id));
    append_chars(&mut out, &chars_of(", "));
    append_chars(&mut out, &join_exec(&parts, &chars_of(", ")));
    append_chars(&mut out, &chars_of(", CURRENT_TIMESTAMP);"));
    string_from_chars(&out)
}

/// The insert request of the questions of a DNS message of the packet
/// `packet_id`: empty when there are none.
pub fn bronze_dns_query(dns: &Dns, packet_id: u128) -> (r: String)
    ensures
        r@ == dns_query_rows(*dns, packet_id),
{
    if dns.queries.len() == 0 {
        return String::new();
    }
    let qs = &dns.queries;
    let mut parts: Vec<Vec<char>> = Vec::new();
    let mut i: usize = 0;
    while i < qs.len()
        invariant
            i <= qs@.len(),
            views(parts@) == qs@.take(i as int).map_values(|q: DnsQuery| dns_query_value(q, packet_id)),
        decreases qs@.len() - i,
    {
        let q = &qs[i];
        let mut v = chars_of("(");
        append_chars(&mut v, &nat_text_exec(packet_id));
        append_chars(&mut v, &chars_of(", "));
        append_chars(&mut v, &bytes_debug_exec(&q.qname));
        append_chars(&mut v, &chars_of(", '"));
        append_chars(&mut v, &chars_of(dns_type_name(q.qtype).as_str()));
        append_chars(&mut v, &chars_of("', '"));
        append_chars(&mut v, &chars_of(dns_class_name(q.qclass).as_str()));
        append_chars(&mut v, &chars_of("', CURRENT_TIMESTAMP)"));
        proof {
            assert(v@ =~= dns_query_value(*q, packet_id));
        }
        push_piece(&mut parts, v);
        proof {
            assert(qs@.take(i + 1) =~= qs@.take(i as int).push(qs@[i as int]));
            assert(views(parts@) =~= qs@.take(i + 1).map_values(
                |q: DnsQuery| dns_query_value(q, packet_id),
            ));
        }
        i = i + 1;
    }
    proof {
        assert(qs@.take(qs@.len() as int) =~= qs@);
    }
    let mut out = chars_of(DNS_QUERY_HEAD);
    append_chars(&mut out, &join_exec(&parts, &chars_of(",")));
    append_chars(&mut out, &chars_of(";"));
    string_from_chars(&out)
}

/// Appends the value tuples of the records of one section.
fn push_section_values(parts: &mut Vec<Vec<char>>, rs: &Vec<DnsRecord>, packet_id: u128, origin: u8)
    requires
        origin <= 2,
    ensures
        views(final(parts)@) == views(old(parts)@) + dns_section_values(rs@, packet_id, origin as int),
{
    let ghost start = views(parts@);
    let mut i: usize = 0;
    while i < rs.len()
        invariant
            i <= rs@.len(),
            origin <= 2,
            views(parts@) == start + dns_section_values(rs@.take(i as int), packet_id, origin as int),
        decreases rs@.len() - i,
    {
        let r = &rs[i];
        let mut v = chars_of("(");
        append_chars(&mut v, &nat_text_exec(packet_id));
        append_chars(&mut v, &chars_of(", "));
        append_chars(&mut v, &nat_text_exec(origin as u128));
        append_chars(&mut v, &chars_of(", '"));
        append_chars(&mut v, &nat_text_exec(r.name_tag as u128));
        append_chars(&mut v, &chars_of("', '"));
        append_chars(&mut v, &chars_of(dns_type_name(r.rtype).as_str()));
        append_chars(&mut v, &chars_of("', '"));
        append_chars(&mut v, &chars_of(dns_class_name(r.rclass).as_str()));
        append_chars(&mut v, &chars_of("', "));
        append_chars(&mut v, &nat_text_exec(r.ttl as u128));
        append_chars(&mut v, &chars_of(", "));
        append_chars(&mut v, &nat_text_exec(r.data_len as u128));
        append_chars(&mut v, &chars_of(", "));
        append_chars(&mut v, &bytes_debug_exec(&r.data));
        append_chars(&mut v, &chars_of(", CURRENT_TIMESTAMP)"));
        proof {
            assert(v@ =~= dns_record_value(*r, packet_id, origin as int));
        }
        let ghost before = views(parts@);
        push_piece(parts, v);
        proof {
            assert(rs@.take(i + 1) =~= rs@.take(i as int).push(rs@[i as int]));
            assert(dns_section_values(rs@.take(i + 1), packet_id, origin as int) =~= dns_section_values(
                rs@.take(i as int),
                packet_id,
                origin as int,
            ).push(v@));
            assert(views(parts@) =~= start + dns_section_values(rs@.take(i + 1), packet_id, origin as int));
        }
        i = i + 1;
    }
    proof {
        assert(rs@.take(rs@.len() as int) =~= rs@);
    }
}

/// The insert request of the records of a DNS message of the packet
/// `packet_id`, answers first, then additional records, then authorities:
/// empty when there are none.
pub fn bronze_dns_record(dns: &Dns, packet_id: u128) -> (r: String)
    ensures
        r@ == dns_record_rows(*dns, packet_id),
{
    if dns.responses.len() == 0 && dns.additional.len() == 0 && dns.authorities.len() == 0 {
        return String::new();
    }
    let mut parts: Vec<Vec<char>> = Vec::new();
    proof {
        assert(views(parts@) =~= Seq::<Seq<char>>::empty());
    }
    push_section_values(&mut parts, &dns.responses, packet_id, 0);
    push_section_values(&mut parts, &dns.additional, packet_id, 1);
    push_section_values(&mut parts, &dns.authorities, packet_id, 2);
    proof {
        assert(views(parts@) =~= dns_section_values(dns.responses@, packet_id, 0)
            + dns_section_values(dns.additional@, packet_id, 1) + dns_section_values(
            dns.authorities@,
            packet_id,
            2,
        ));
    }
    let mut out = chars_of(DNS_RECORD_HEAD);
    append_chars(&mut out, &join_exec(&parts, &chars_of(",")));
    append_chars(&mut out, &chars_of(";"));
    string_from_chars(&out)
}

/// The insert requests of a DNS message: header, questions, records.
pub open spec fn dns_rows(d: Dns, packet_id: u128) -> Seq<char> {
    dns_header_row(d, packet_id) + dns_query_rows(d, packet_id) + dns_record_rows(d, packet_id)
}

/// The insert requests of a DNS message of the packet `packet_id`: header,
/// questions, records.
pub fn bronze_dns(dns: &Dns, packet_id: u128) -> (r: String)
    ensures
        r@ == dns_rows(*dns, packet_id),
{
    let mut out = chars_of(bronze_dns_header(dns, packet_id).as_str());
    append_chars(&mut out, &chars_of(bronze_dns_query(dns, packet_id).as_str()));
    append_chars(&mut out, &chars_of(bronze_dns_record(dns, packet_id).as_str()));
    string_from_chars(&out)
}

} // verus!

verus! {

// ---------------------------------------------------------------------------
// Lower layers
// ---------------------------------------------------------------------------

/// The head of the insert request of an Ethernet frame, up to its values.
pub const ETHERNET_HEAD: &'static str = r#"INSERT INTO memory.bronze_network_ethernet (
                    packet_id,
                    source,
                    destination,
                    ether_type,
                    payload_length,
                    inserted_at
                    ) VALUES ("#;

/// The head of the insert request of an ARP message, up to its values.
pub const ARP_HEAD: &'static str = r#"INSERT INTO memory.bronze_network_arp (
                    packet_id,
                    hardware_type,
                    protocol_type,
                    hw_addr_len,
                    proto_addr_len,
                    operation,
                    sender_hw_addr,
                    sender_proto_addr,
                    target_hw_addr,
                    target_proto_addr,
                    inserted_at
                    ) VALUES ("#;

/// The head of the insert request of an IPv4 datagram, up to its values.
pub const IPV4_HEAD: &'static str = r#"INSERT INTO memory.bronze_network_ipv4 (
                    packet_id,
                    version,
                    header_length,
                    dscp,
                    ecn,
                    total_length,
                    identification,
                    flags,
                    fragment_offset,
                    ttl,
                    next_level_protocol,
                    checksum,
                    source,
                    destination,
                    inserted_at
                    ) VALUES ("#;

/// The head of the insert request of an IPv6 datagram, up to its values.
pub const IPV6_HEAD: &'static str = r#"INSERT INTO memory.bronze_network_ipv6 (
                    packet_id,
                    version,
                    traffic_class,
                    flow_label,
                    payload_length,
                    next_header,
                    hop_limit,
                    source,
                    destination,
                    inserted_at
                    ) VALUES ("#;

/// The head of the insert request of a TCP segment, up to its values.
pub const TCP_HEAD: &'static str = r#"INSERT INTO memory.bronze_network_tcp (
                    packet_id,
                    source,
                    destination,
                    sequence,
                    acknowledgement,
                    data_offset,
                    reserved,
                    flags,
                    _window,
                    checksum,
                    urgent_ptr,
                    options,
                    inserted_at
                    ) VALUES ("#;

/// The head of the insert request of a UDP datagram, up to its values.
pub const UDP_HEAD: &'static str = r#"INSERT INTO memory.bronze_network_udp (
                    packet_id,
                    source,
                    destination,
                    length,
                    checksum,
                    inserted_at
                    ) VALUES ("#;

/// The head of the insert request of an ICMP message, up to its values.
pub const CONTROL_MESSAGE_HEAD: &'static str = r#"INSERT INTO memory.bronze_network_icmp (
                    packet_id,
                    version,
                    type,
                    code,
                    checksum,
                    payload_length,
                    inserted_at
                    ) VALUES ("#;

/// The head of the insert request of an interface address, up to its values.
pub const INTERFACE_ADDRESS_HEAD: &'static str = r#"INSERT OR IGNORE INTO memory.bronze_network_interface_address (
                        interface,
                        address,
                        netmask,
                        broadcast_address,
                        destination_address,
                        inserted_at
                    )
                    VALUES ("#;

/// The head of the insert request of a captured packet, up to its values.
pub const PACKET_HEAD: &'static str = r#"INSERT OR REPLACE INTO memory.bronze_network_packet (
            _id,
            interface,
            length,
            created_at,
            inserted_at,
            brz_ingestion_duration
            ) VALUES ("#;

/// An insert request of one row: the head, the fields separated by commas,
/// and the insertion time.
pub open spec fn row_text(head: Seq<char>, fields: Seq<Seq<char>>) -> Seq<char> {
    head + join(fields, ", "@) + ", CURRENT_TIMESTAMP);"@
}

/// A text between single quotes.
pub open spec fn quoted(s: Seq<char>) -> Seq<char> {
    "'"@ + s + "'"@
}

/// A number in decimal.
pub open spec fn num(n: int) -> Seq<char> {
    int_text(n)
}

/// An insert request of one row.
fn row(head: &str, fields: &Vec<Vec<char>>) -> (r: Vec<char>)
    ensures
        r@ == row_text(head@, views(fields@)),
{
    let mut out = chars_of(head);
    append_chars(&mut out, &join_exec(fields, &chars_of(", ")));
    append_chars(&mut out, &chars_of(", CURRENT_TIMESTAMP);"));
    out
}

/// A text between single quotes.
fn quoted_exec(s: &[char]) -> (r: Vec<char>)
    ensures
        r@ == quoted(s@),
{
    let mut out = chars_of("'");
    append_chars(&mut out, s);
    append_chars(&mut out, &chars_of("'"));
    out
}

/// The fields of the row of an Ethernet frame.
pub open spec fn ethernet_fields(e: Ethernet, id: u128) -> Seq<Seq<char>> {
    seq![
        num(id as int),
        quoted(mac_text(e.source@)),
        quoted(mac_text(e.destination@)),
        num(e.ethertype as int),
        num(e.payload@.len() as int),
    ]
}

/// The insert request of an Ethernet frame of the packet `packet_id`.
pub fn bronze_ethernet(ethernet: &Ethernet, packet_id: u128) -> (r: String)
    ensures
        r@ == row_text(ETHERNET_HEAD@, ethernet_fields(*ethernet, packet_id)),
{
    let mut f: Vec<Vec<char>> = Vec::new();
    push_piece(&mut f, nat_text_exec(packet_id));
    push_piece(&mut f, quoted_exec(&chars_of(mac_string(&ethernet.source).as_str())));
    push_piece(&mut f, quoted_exec(&chars_of(mac_string(&ethernet.destination).as_str())));
    push_piece(&mut f, nat_text_exec(ethernet.ethertype as u128));
    push_piece(&mut f, nat_text_exec(ethernet.payload.len() as u128));
    proof {
        assert(views(f@) =~= ethernet_fields(*ethernet, packet_id));
    }
    string_from_chars(&row(ETHERNET_HEAD, &f))
}

/// The fields of the row of an ARP message.
pub open spec fn arp_fields(a: Arp, id: u128) -> Seq<Seq<char>> {
    seq![
        num(id as int),
        num(a.hardware_type as int),
        num(a.protocol_type as int),
        num(a.hw_addr_len as int),
        num(a.proto_addr_len as int),
        num(a.operation as int),
        quoted(mac_text(a.sender_hw_addr@)),
        quoted(ipv4_text(a.sender_proto_addr@)),
        quoted(mac_text(a.target_hw_addr@)),
        quoted(ipv4_text(a.target_proto_addr@)),
    ]
}

/// The insert request of an ARP message of the packet `packet_id`.
pub fn bronze_arp(arp: &Arp, packet_id: u128) -> (r: String)
    ensures
        r@ == row_text(ARP_HEAD@, arp_fields(*arp, packet_id)),
{
    let mut f: Vec<Vec<char>> = Vec::new();
    push_piece(&mut f, nat_text_exec(packet_id));
    push_piece(&mut f, nat_text_exec(arp.hardware_type as u128));
    push_piece(&mut f, nat_text_exec(arp.protocol_type as u128));
    push_piece(&mut f, nat_text_exec(arp.hw_addr_len as u128));
    push_piece(&mut f, nat_text_exec(arp.proto_addr_len as u128));
    push_piece(&mut f, nat_text_exec(arp.operation as u128));
    push_piece(&mut f, quoted_exec(&chars_of(mac_string(&arp.sender_hw_addr).as_str())));
    push_piece(&mut f, quoted_exec(&chars_of(ipv4_string(&arp.sender_proto_addr).as_str())));
    push_piece(&mut f, quoted_exec(&chars_of(mac_string(&arp.target_hw_addr).as_str())));
    push_piece(&mut f, quoted_exec(&chars_of(ipv4_string(&arp.target_proto_addr).as_str())));
    proof {
        assert(views(f@) =~= arp_fields(*arp, packet_id));
    }
    string_from_chars(&row(ARP_HEAD, &f))
}

/// The fields of the row of an IPv4 datagram.
pub open spec fn ipv4_fields(d: Ipv4, id: u128) -> Seq<Seq<char>> {
    seq![
        num(id as int),
        num(d.version as int),
        num(d.header_length as int),
        num(d.dscp as int),
        num(d.ecn as int),
        num(d.total_length as int),
        num(d.identification as int),
        num(d.flags as int),
        num(d.fragment_offset as int),
        num(d.ttl as int),
        num(d.next_level_protocol as int),
        num(d.checksum as int),
        quoted(ipv4_text(d.source@)),
        quoted(ipv4_text(d.destination@)),
    ]
}

/// The insert request of an IPv4 datagram of the packet `packet_id`.
pub fn bronze_ipv4(ipv4: &Ipv4, packet_id: u128) -> (r: String)
    ensures
        r@ == row_text(IPV4_HEAD@, ipv4_fields(*ipv4, packet_id)),
{
    let mut f: Vec<Vec<char>> = Vec::new();
    push_piece(&mut f, nat_text_exec(packet_id));
    push_piece(&mut f, nat_text_exec(ipv4.version as u128));
    push_piece(&mut f, nat_text_exec(ipv4.header_length as u128));
    push_piece(&mut f, nat_text_exec(ipv4.dscp as u128));
    push_piece(&mut f, nat_text_exec(ipv4.ecn as u128));
    push_piece(&mut f, nat_text_exec(ipv4.total_length as u128));
    push_piece(&mut f, nat_text_exec(ipv4.identification as u128));
    push_piece(&mut f, nat_text_exec(ipv4.flags as u128));
    push_piece(&mut f, nat_text_exec(ipv4.fragment_offset as u128));
    push_piece(&mut f, nat_text_exec(ipv4.ttl as u128));
    push_piece(&mut f, nat_text_exec(ipv4.next_level_protocol as u128));
    push_piece(&mut f, nat_text_exec(ipv4.checksum as u128));
    push_piece(&mut f, quoted_exec(&chars_of(ipv4_string(&ipv4.source).as_str())));
    push_piece(&mut f, quoted_exec(&chars_of(ipv4_string(&ipv4.destination).as_str())));
    proof {
        assert(views(f@) =~= ipv4_fields(*ipv4, packet_id));
    }
    string_from_chars(&row(IPV4_HEAD, &f))
}

/// The fields of the row of an IPv6 datagram.
pub open spec fn ipv6_fields(d: Ipv6, id: u128) -> Seq<Seq<char>> {
    seq![
        num(id as int),
        num(d.version as int),
        num(d.traffic_class as int),
        num(d.flow_label as int),
        num(d.payload_length as int),
        num(d.next_header as int),
        num(d.hop_limit as int),
        quoted(d.source_text@),
        quoted(d.destination_text@),
    ]
}

/// The insert request of an IPv6 datagram of the packet `packet_id`.
pub fn bronze_ipv6(ipv6: &Ipv6, packet_id: u128) -> (r: String)
    ensures
        r@ == row_text(IPV6_HEAD@, ipv6_fields(*ipv6, packet_id)),
{
    let mut f: Vec<Vec<char>> = Vec::new();
    push_piece(&mut f, nat_text_exec(packet_id));
    push_piece(&mut f, nat_text_exec(ipv6.version as u128));
    push_piece(&mut f, nat_text_exec(ipv6.traffic_class as u128));
    push_piece(&mut f, nat_text_exec(ipv6.flow_label as u128));
    push_piece(&mut f, nat_text_exec(ipv6.payload_length as u128));
    push_piece(&mut f, nat_text_exec(ipv6.next_header as u128));
    push_piece(&mut f, nat_text_exec(ipv6.hop_limit as u128));
    push_piece(&mut f, quoted_exec(&chars_of(ipv6.source_text.as_str())));
    push_piece(&mut f, quoted_exec(&chars_of(ipv6.destination_text.as_str())));
    proof {
        assert(views(f@) =~= ipv6_fields(*ipv6, packet_id));
    }
    string_from_chars(&row(IPV6_HEAD, &f))
}

/// The fields of the row of a TCP segment.
pub open spec fn tcp_fields(t: Tcp, id: u128) -> Seq<Seq<char>> {
    seq![
        num(id as int),
        num(t.source as int),
        num(t.destination as int),
        num(t.sequence as int),
        num(t.acknowledgement as int),
        num(t.data_offset as int),
        num(t.reserved as int),
        num(t.flags as int),
        num(t.window as int),
        num(t.checksum as int),
        num(t.urgent_ptr as int),
        quoted(t.options_text@),
    ]
}

/// The insert request of a TCP segment of the packet `packet_id`.
pub fn bronze_tcp(tcp: &Tcp, packet_id: u128) -> (r: String)
    ensures
        r@ == row_text(TCP_HEAD@, tcp_fields(*tcp, packet_id)),
{
    let mut f: Vec<Vec<char>> = Vec::new();
    push_piece(&mut f, nat_text_exec(packet_id));
    push_piece(&mut f, nat_text_exec(tcp.source as u128));
    push_piece(&mut f, nat_text_exec(tcp.destination as u128));
    push_piece(&mut f, nat_text_exec(tcp.sequence as u128));
    push_piece(&mut f, nat_text_exec(tcp.acknowledgement as u128));
    push_piece(&mut f, nat_text_exec(tcp.data_offset as u128));
    push_piece(&mut f, nat_text_exec(tcp.reserved as u128));
    push_piece(&mut f, nat_text_exec(tcp.flags as u128));
    push_piece(&mut f, nat_text_exec(tcp.window as u128));
    push_piece(&mut f, nat_text_exec(tcp.checksum as u128));
    push_piece(&mut f, nat_text_exec(tcp.urgent_ptr as u128));
    push_piece(&mut f, quoted_exec(&chars_of(tcp.options_text.as_str())));
    proof {
        assert(views(f@) =~= tcp_fields(*tcp, packet_id));
    }
    string_from_chars(&row(TCP_HEAD, &f))
}

/// The fields of the row of a UDP datagram.
pub open spec fn udp_fields(u: Udp, id: u128) -> Seq<Seq<char>> {
    seq![
        num(id as int),
        num(u.source as int),
        num(u.destination as int),
        num(u.length as int),
        num(u.checksum as int),
    ]
}

/// The insert request of a UDP datagram of the packet `packet_id`.
pub fn bronze_udp(udp: &Udp, packet_id: u128) -> (r: String)
    ensures
        r@ == row_text(UDP_HEAD@, udp_fields(*udp, packet_id)),
{
    let mut f: Vec<Vec<char>> = Vec::new();
    push_piece(&mut f, nat_text_exec(packet_id));
    push_piece(&mut f, nat_text_exec(udp.source as u128));
    push_piece(&mut f, nat_text_exec(udp.destination as u128));
    push_piece(&mut f, nat_text_exec(udp.length as u128));
    push_piece(&mut f, nat_text_exec(udp.checksum as u128));
    proof {
        assert(views(f@) =~= udp_fields(*udp, packet_id));
    }
    string_from_chars(&row(UDP_HEAD, &f))
}

/// The fields of the row of an ICMP message: its version (6 where `v6`,
/// else 4), type, code, checksum and payload length (quoted for version 4
/// only).
pub open spec fn control_fields(m: ControlMessage, id: u128, v6: bool) -> Seq<Seq<char>> {
    seq![
        num(id as int),
        if v6 { "6"@ } else { "4"@ },
        num(m.message_type as int),
        num(m.code as int),
        num(m.checksum as int),
        if v6 { num(m.payload@.len() as int) } else { quoted(num(m.payload@.len() as int)) },
    ]
}

/// The insert request of an ICMP message (an ICMPv6 one where `v6`) of the
/// packet `packet_id`.
pub fn bronze_control_message(message: &ControlMessage, packet_id: u128, v6: bool) -> (r: String)
    ensures
        r@ == row_text(CONTROL_MESSAGE_HEAD@, control_fields(*message, packet_id, v6)),
{
    let mut f: Vec<Vec<char>> = Vec::new();
    push_piece(&mut f, nat_text_exec(packet_id));
    push_piece(&mut f, if v6 { chars_of("6") } else { chars_of("4") });
    push_piece(&mut f, nat_text_exec(message.message_type as u128));
    push_piece(&mut f, nat_text_exec(message.code as u128));
    push_piece(&mut f, nat_text_exec(message.checksum as u128));
    let len = nat_text_exec(message.payload.len() as u128);
    push_piece(&mut f, if v6 { len } else { quoted_exec(&len) });
    proof {
        assert(views(f@) =~= control_fields(*message, packet_id, v6));
    }
    string_from_chars(&row(CONTROL_MESSAGE_HEAD, &f))
}

} // verus!

verus! {

// ---------------------------------------------------------------------------
// Layers
// ---------------------------------------------------------------------------

/// The insert request of the data link layer of the packet `id`.
pub open spec fn data_link_rows(d: DataLink, id: u128) -> Seq<char> {
    row_text(ETHERNET_HEAD@, ethernet_fields(d.ethernet->0, id))
}

impl Bronze for DataLink {
    open spec fn insertable(&self, foreign_id: Option<u128>) -> bool {
        foreign_id is Some && self.ethernet is Some
    }

    open spec fn is_insert_sql(&self, foreign_id: Option<u128>, text: Seq<char>) -> bool {
        text == data_link_rows(*self, foreign_id->0)
    }

    fn to_insert_sql(&self, foreign_id: Option<u128>) -> (r: String) {
        let id = match foreign_id {
            Some(id) => id,
            None => 0,
        };
        match &self.ethernet {
            Some(e) => bronze_ethernet(e, id),
            None => String::new(),
        }
    }
}

/// The network layer holds the datagram or message of its protocol.
pub open spec fn network_holds(n: Network) -> bool {
    match n.protocol {
        NetworkProtocol::Arp => n.arp is Some,
        NetworkProtocol::Ipv4 => n.ipv4 is Some,
        NetworkProtocol::Ipv6 => n.ipv6 is Some,
    }
}

/// The insert request of the network layer of the packet `id`.
pub open spec fn network_rows(n: Network, id: u128) -> Seq<char> {
    match n.protocol {
        NetworkProtocol::Arp => row_text(ARP_HEAD@, arp_fields(n.arp->0, id)),
        NetworkProtocol::Ipv4 => row_text(IPV4_HEAD@, ipv4_fields(n.ipv4->0, id)),
        NetworkProtocol::Ipv6 => row_text(IPV6_HEAD@, ipv6_fields(n.ipv6->0, id)),
    }
}

impl Bronze for Network {
    open spec fn insertable(&self, foreign_id: Option<u128>) -> bool {
        foreign_id is Some && network_holds(*self)
    }

    open spec fn is_insert_sql(&self, foreign_id: Option<u128>, text: Seq<char>) -> bool {
        text == network_rows(*self, foreign_id->0)
    }

    fn to_insert_sql(&self, foreign_id: Option<u128>) -> (r: String) {
        let id = match foreign_id {
            Some(id) => id,
            None => 0,
        };
        match self.protocol {
            NetworkProtocol::Arp => match &self.arp {
                Some(a) => bronze_arp(a, id),
                None => String::new(),
            },
            NetworkProtocol::Ipv4 => match &self.ipv4 {
                Some(d) => bronze_ipv4(d, id),
                None => String::new(),
            },
            NetworkProtocol::Ipv6 => match &self.ipv6 {
                Some(d) => bronze_ipv6(d, id),
                None => String::new(),
            },
        }
    }
}

/// The transport layer holds the segment or message of its protocol.
pub open spec fn transport_holds(t: Transport) -> bool {
    match t.protocol {
        TransportProtocol::Tcp => t.tcp is Some,
        TransportProtocol::Udp => t.udp is Some,
        TransportProtocol::Icmpv4 => t.icmpv4 is Some,
        TransportProtocol::Icmpv6 => t.icmpv6 is Some,
    }
}

/// The insert request of the transport layer of the packet `id`.
pub open spec fn transport_rows(t: Transport, id: u128) -> Seq<char> {
    match t.protocol {
        TransportProtocol::Tcp => row_text(TCP_HEAD@, tcp_fields(t.tcp->0, id)),
        TransportProtocol::Udp => row_text(UDP_HEAD@, udp_fields(t.udp->0, id)),
        TransportProtocol::Icmpv4 => row_text(CONTROL_MESSAGE_HEAD@, control_fields(t.icmpv4->0, id, false)),
        TransportProtocol::Icmpv6 => row_text(CONTROL_MESSAGE_HEAD@, control_fields(t.icmpv6->0, id, true)),
    }
}

impl Bronze for Transport {
    open spec fn insertable(&self, foreign_id: Option<u128>) -> bool {
        foreign_id is Some && transport_holds(*self)
    }

    open spec fn is_insert_sql(&self, foreign_id: Option<u128>, text: Seq<char>) -> bool {
        text == transport_rows(*self, foreign_id->0)
    }

    fn to_insert_sql(&self, foreign_id: Option<u128>) -> (r: String) {
        let id = match foreign_id {
            Some(id) => id,
            None => 0,
        };
        match self.protocol {
            TransportProtocol::Tcp => match &self.tcp {
                Some(s) => bronze_tcp(s, id),
                None => String::new(),
            },
            TransportProtocol::Udp => match &self.udp {
                Some(u) => bronze_udp(u, id),
                None => String::new(),
            },
            TransportProtocol::Icmpv4 => match &self.icmpv4 {
                Some(m) => bronze_control_message(m, id, false),
                None => String::new(),
            },
            TransportProtocol::Icmpv6 => match &self.icmpv6 {
                Some(m) => bronze_control_message(m, id, true),
                None => String::new(),
            },
        }
    }
}

/// The application layer holds the message or record of its protocol.
pub open spec fn application_holds(a: Application) -> bool {
    match a.protocol {
        ApplicationProtocol::Dns => a.dns is Some,
        ApplicationProtocol::Http => a.http is Some,
        ApplicationProtocol::Tls => a.tls is Some,
    }
}

/// The insert requests of the application layer of the packet `id`.
pub open spec fn application_rows(a: Application, id: u128) -> Seq<char> {
    match a.protocol {
        ApplicationProtocol::Dns => dns_rows(a.dns->0, id),
        ApplicationProtocol::Http => http_row(a.http->0@, id),
        ApplicationProtocol::Tls => tls_row(a.tls->0, id),
    }
}

impl Bronze for Application {
    open spec fn insertable(&self, foreign_id: Option<u128>) -> bool {
        foreign_id is Some && application_holds(*self)
    }

    open spec fn is_insert_sql(&self, foreign_id: Option<u128>, text: Seq<char>) -> bool {
        text == application_rows(*self, foreign_id->0)
    }

    fn to_insert_sql(&self, foreign_id: Option<u128>) -> (r: String) {
        let id = match foreign_id {
            Some(id) => id,
            None => 0,
        };
        match self.protocol {
            ApplicationProtocol::Dns => match &self.dns {
                Some(d) => bronze_dns(d, id),
                None => String::new(),
            },
            ApplicationProtocol::Http => match &self.http {
                Some(h) => bronze_http(h, id),
                None => String::new(),
            },
            ApplicationProtocol::Tls => match &self.tls {
                Some(t) => bronze_tls(t, id),
                None => String::new(),
            },
        }
    }
}

// ---------------------------------------------------------------------------
// Captured packets
// ---------------------------------------------------------------------------

/// An optional text between single quotes, or `NULL`.
pub open spec fn quoted_or_null_text(o: Option<String>) -> Seq<char> {
    match o {
        Some(t) => quoted(t@),
        None => "NULL"@,
    }
}

/// A network mask as `'/n'`, `n` the length of its prefix, or `NULL`.
pub open spec fn netmask_text(m: Option<Vec<u8>>) -> Seq<char> {
    match m {
        Some(b) => quoted("/"@ + num(ones_in(b@) as int)),
        None => "NULL"@,
    }
}

/// The fields of the row of an address of an interface.
pub open spec fn address_fields(name: Seq<char>, a: DeviceAddress) -> Seq<Seq<char>> {
    seq![
        quoted(name),
        quoted(a.addr@),
        netmask_text(a.netmask),
        quoted_or_null_text(a.broadcast_addr),
        quoted_or_null_text(a.dst_addr),
    ]
}

/// The insert requests of the addresses of an interface, one per address.
pub open spec fn device_rows(d: Device) -> Seq<char> {
    d.addresses@.map_values(|a: DeviceAddress| row_text(INTERFACE_ADDRESS_HEAD@, address_fields(d.name@, a))).flatten()
}

/// Every mask of an interface has at most sixteen bytes.
pub open spec fn masks_fit(d: Device) -> bool {
    forall|i: int| 0 <= i < d.addresses@.len() ==> ((#[trigger] d.addresses@[i]).netmask matches Some(m)
        ==> m@.len() <= 16)
}

/// Appends an optional text between single quotes, or `NULL`.
fn quoted_or_null_exec(o: &Option<String>) -> (r: Vec<char>)
    ensures
        r@ == quoted_or_null_text(*o),
{
    match o {
        Some(t) => quoted_exec(&chars_of(t.as_str())),
        None => chars_of("NULL"),
    }
}

/// The insert requests of the addresses of an interface.
pub fn device_addresses_to_sql(device: &Device) -> (r: String)
    requires
        masks_fit(*device),
    ensures
        r@ == device_rows(*device),
{
    let addresses = &device.addresses;
    let ghost f = |a: DeviceAddress| row_text(INTERFACE_ADDRESS_HEAD@, address_fields(device.name@, a));
    let mut out: Vec<char> = Vec::new();
    let mut i: usize = 0;
    while i < addresses.len()
        invariant
            i <= addresses@.len(),
            masks_fit(*device),
            addresses == &device.addresses,
            f == (|a: DeviceAddress| row_text(INTERFACE_ADDRESS_HEAD@, address_fields(device.name@, a))),
            out@ == addresses@.take(i as int).map_values(f).flatten(),
        decreases addresses@.len() - i,
    {
        let a = &addresses[i];
        let mut fields: Vec<Vec<char>> = Vec::new();
        push_piece(&mut fields, quoted_exec(&chars_of(device.name.as_str())));
        push_piece(&mut fields, quoted_exec(&chars_of(a.addr.as_str())));
        let mask = match &a.netmask {
            Some(m) => {
                proof {
                    assert(addresses@[i as int] == *a);
                }
                let mut t = chars_of("/");
                append_chars(&mut t, &nat_text_exec(prefix_length(m) as u128));
                quoted_exec(&t)
            },
            None => chars_of("NULL"),
        };
        push_piece(&mut fields, mask);
        push_piece(&mut fields, quoted_or_null_exec(&a.broadcast_addr));
        push_piece(&mut fields, quoted_or_null_exec(&a.dst_addr));
        proof {
            assert(views(fields@) =~= address_fields(device.name@, *a));
        }
        let line = row(INTERFACE_ADDRESS_HEAD, &fields);
        let ghost before = out@;
        append_chars(&mut out, &line);
        proof {
            let t = addresses@.take(i + 1);
            assert(t =~= addresses@.take(i as int).push(*a));
            assert(t.map_values(f) =~= addresses@.take(i as int).map_values(f).push(f(*a)));
            addresses@.take(i as int).map_values(f).lemma_flatten_push(f(*a));
        }
        i = i + 1;
    }
    proof {
        assert(addresses@.take(addresses@.len() as int) =~= addresses@);
    }
    string_from_chars(&out)
}

/// The row of the packet itself: identifier, interface, length and capture
/// time.
pub open spec fn packet_row(c: Capture, id: u128) -> Seq<char> {
    PACKET_HEAD@ + num(id as int) + ", '"@ + c.device.name@ + "', "@ + num(c.packet@.len() as int)
        + ", TO_TIMESTAMP("@ + num(c.created_at as int) + "), CURRENT_TIMESTAMP, AGE(TO_TIMESTAMP("@
        + num(c.created_at as int) + ")::TIMESTAMP));"@
}

/// The rows of a layer that is present, or nothing.
pub open spec fn layer_rows<T>(layer: Option<T>, rows: spec_fn(T) -> Seq<char>) -> Seq<char> {
    match layer {
        Some(l) => rows(l),
        None => Seq::empty(),
    }
}

/// The insert requests of a captured packet whose row is `id`: the packet,
/// the addresses of its interface, then each layer that was read, from the
/// data link up.
pub open spec fn capture_rows(c: Capture, id: u128) -> Seq<char> {
    packet_row(c, id) + device_rows(c.device) + layer_rows(c.data_link, |d: DataLink| data_link_rows(d, id))
        + layer_rows(c.network, |n: Network| network_rows(n, id)) + layer_rows(
        c.transport,
        |t: Transport| transport_rows(t, id),
    ) + layer_rows(c.application, |a: Application| application_rows(a, id))
}

/// Each layer that was read holds what its requests are made of, and the
/// masks of the interface fit.
pub open spec fn capture_holds(c: Capture) -> bool {
    &&& masks_fit(c.device)
    &&& c.data_link matches Some(d) ==> d.ethernet is Some
    &&& c.network matches Some(n) ==> network_holds(n)
    &&& c.transport matches Some(t) ==> transport_holds(t)
    &&& c.application matches Some(a) ==> application_holds(a)
}

/// A random identifier for the row of a packet (`uuid::Uuid::new_v4`, as a
/// number); nothing is claimed of its value.
#[verifier::external_body]
fn new_row_id() -> (r: u128) {
    uuid::Uuid::new_v4().as_u128()
}

impl Capture {
    /// The insert requests of a captured packet whose row is `row_id`.
    pub fn to_insert_sql_with_id(&self, row_id: u128) -> (r: String)
        requires
            capture_holds(*self),
        ensures
            r@ == capture_rows(*self, row_id),
    {
        let mut out = chars_of(PACKET_HEAD);
        append_chars(&mut out, &nat_text_exec(row_id));
        append_chars(&mut out, &chars_of(", '"));
        append_chars(&mut out, &chars_of(self.device.name.as_str()));
        append_chars(&mut out, &chars_of("', "));
        append_chars(&mut out, &nat_text_exec(self.packet.len() as u128));
        append_chars(&mut out, &chars_of(", TO_TIMESTAMP("));
        let created = int_text_exec(self.created_at as i128);
        append_chars(&mut out, &created);
        append_chars(&mut out, &chars_of("), CURRENT_TIMESTAMP, AGE(TO_TIMESTAMP("));
        append_chars(&mut out, &created);
        append_chars(&mut out, &chars_of(")::TIMESTAMP));"));
        proof {
            assert(out@ =~= packet_row(*self, row_id));
        }
        append_chars(&mut out, &chars_of(device_addresses_to_sql(&self.device).as_str()));
        let ghost before = out@;
        match &self.data_link {
            Some(d) => append_chars(&mut out, &chars_of(d.to_insert_sql(Some(row_id)).as_str())),
            None => {},
        }
        proof {
            assert(out@ =~= before + layer_rows(self.data_link, |d: DataLink| data_link_rows(d, row_id)));
        }
        let ghost before = out@;
        match &self.network {
            Some(n) => append_chars(&mut out, &chars_of(n.to_insert_sql(Some(row_id)).as_str())),
            None => {},
        }
        proof {
            assert(out@ =~= before + layer_rows(self.network, |n: Network| network_rows(n, row_id)));
        }
        let ghost before = out@;
        match &self.transport {
            Some(t) => append_chars(&mut out, &chars_of(t.to_insert_sql(Some(row_id)).as_str())),
            None => {},
        }
        proof {
            assert(out@ =~= before + layer_rows(self.transport, |t: Transport| transport_rows(t, row_id)));
        }
        let ghost before = out@;
        match &self.application {
            Some(a) => append_chars(&mut out, &chars_of(a.to_insert_sql(Some(row_id)).as_str())),
            None => {},
        }
        proof {
            assert(out@ =~= before + layer_rows(self.application, |a: Application| application_rows(a, row_id)));
            assert(out@ =~= capture_rows(*self, row_id));
        }
        string_from_chars(&out)
    }
}

impl Bronze for Capture {
    open spec fn insertable(&self, foreign_id: Option<u128>) -> bool {
        capture_holds(*self)
    }

    open spec fn is_insert_sql(&self, foreign_id: Option<u128>, text: Seq<char>) -> bool {
        exists|id: u128| text == #[trigger] capture_rows(*self, id)
    }

    fn to_insert_sql(&self, foreign_id: Option<u128>) -> (r: String) {
        let row_id = new_row_id();
        self.to_insert_sql_with_id(row_id)
    }
}


// ---------------------------------------------------------------------------
// Rows and their columns
// ---------------------------------------------------------------------------

/// The indentation of a column name in the heads of the rows.
pub open spec fn indent() -> Seq<char> {
    "                    "@
}

/// The column names of a row head, one per line, indented, each but the last
/// followed by a comma.
pub open spec fn column_lines(cs: Seq<Seq<char>>) -> Seq<char>
    decreases cs.len(),
{
    if cs.len() == 0 {
        Seq::empty()
    } else if cs.len() == 1 {
        indent() + cs[0] + "\n"@
    } else {
        indent() + cs[0] + ",\n"@ + column_lines(cs.drop_first())
    }
}

/// The head of an insert request into `table` that names the columns `cs`.
pub open spec fn insert_head(table: Seq<char>, cs: Seq<Seq<char>>) -> Seq<char> {
    "INSERT INTO "@ + table + " (\n"@ + column_lines(cs) + indent() + ") VALUES ("@
}

/// The columns of the TCP table, in the order in which its head names them.
pub open spec fn tcp_columns() -> Seq<Seq<char>> {
    seq![
        "packet_id"@,
        "source"@,
        "destination"@,
        "sequence"@,
        "acknowledgement"@,
        "data_offset"@,
        "reserved"@,
        "flags"@,
        "_window"@,
        "checksum"@,
        "urgent_ptr"@,
        "options"@,
        "inserted_at"@
    ]
}

/// What a TCP segment of the packet `id` stores in the column `column`,
/// column by column of the TCP table (the insertion time aside).
pub open spec fn tcp_column_value(t: Tcp, id: u128, column: Seq<char>) -> Option<Seq<char>> {
    if column == "packet_id"@ {
        Some(num(id as int))
    } else if column == "source"@ {
        Some(num(t.source as int))
    } else if column == "destination"@ {
        Some(num(t.destination as int))
    } else if column == "sequence"@ {
        Some(num(t.sequence as int))
    } else if column == "acknowledgement"@ {
        Some(num(t.acknowledgement as int))
    } else if column == "data_offset"@ {
        Some(num(t.data_offset as int))
    } else if column == "reserved"@ {
        Some(num(t.reserved as int))
    } else if column == "flags"@ {
        Some(num(t.flags as int))
    } else if column == "_window"@ {
        Some(num(t.window as int))
    } else if column == "checksum"@ {
        Some(num(t.checksum as int))
    } else if column == "urgent_ptr"@ {
        Some(num(t.urgent_ptr as int))
    } else if column == "options"@ {
        Some(quoted(t.options_text@))
    } else {
        None
    }
}

/// The row of a TCP segment follows its column list: the head names the
/// columns of the TCP table in order, and the value at each place is what the
/// segment stores in the column of that place (the packet id, then the
/// source port, the destination port, and so on); the insertion time closes
/// the row.
pub proof fn tcp_row_follows_its_columns(t: Tcp, id: u128)
    ensures
        TCP_HEAD@ == insert_head("memory.bronze_network_tcp"@, tcp_columns()),
        tcp_fields(t, id).len() + 1 == tcp_columns().len(),
        tcp_columns().last() == "inserted_at"@,
        forall|k: int|
            0 <= k < tcp_fields(t, id).len() ==> tcp_column_value(t, id, tcp_columns()[k]) == Some(
                #[trigger] tcp_fields(t, id)[k],
            ),
{
    reveal_strlit("INSERT INTO memory.bronze_network_tcp (\n                    packet_id,\n                    source,\n                    destination,\n                    sequence,\n                    acknowledgement,\n                    data_offset,\n                    reserved,\n                    flags,\n                    _window,\n                    checksum,\n                    urgent_ptr,\n                    options,\n                    inserted_at\n                    ) VALUES (");
    reveal_strlit("                    ");
    reveal_strlit("INSERT INTO ");
    reveal_strlit("memory.bronze_network_tcp");
    reveal_strlit(" (\n");
    reveal_strlit(",\n");
    reveal_strlit("\n");
    reveal_strlit(") VALUES (");
    reveal_strlit("packet_id");
    reveal_strlit("source");
    reveal_strlit("destination");
    reveal_strlit("sequence");
    reveal_strlit("acknowledgement");
    reveal_strlit("data_offset");
    reveal_strlit("reserved");
    reveal_strlit("flags");
    reveal_strlit("_window");
    reveal_strlit("checksum");
    reveal_strlit("urgent_ptr");
    reveal_strlit("options");
    reveal_strlit("inserted_at");
    reveal_with_fuel(column_lines, 14);
    assert(TCP_HEAD@ =~= insert_head("memory.bronze_network_tcp"@, tcp_columns()));
    let f = tcp_fields(t, id);
    assert forall|k: int| 0 <= k < f.len() implies tcp_column_value(t, id, tcp_columns()[k]) == Some(
        #[trigger] f[k],
    ) by {
        assert("data_offset"@[1] != "destination"@[1]);
        assert("reserved"@[0] != "sequence"@[0]);
        assert("checksum"@[0] != "sequence"@[0]);
        assert("checksum"@[0] != "reserved"@[0]);
        assert("options"@[0] != "_window"@[0]);
        assert("inserted_at"@[0] != "destination"@[0]);
        assert("inserted_at"@[0] != "data_offset"@[0]);
    }
}


/// The columns of the table of {'ethernet': 'an Ethernet frame', 'arp': 'an ARP message', 'ipv4': 'an IPv4 datagram', 'ipv6': 'an IPv6 datagram', 'udp': 'a UDP datagram', 'control_message': 'an ICMP message'}, in the order in which its head names
/// them.
pub open spec fn ethernet_columns() -> Seq<Seq<char>> {
    seq![
        "packet_id"@,
        "source"@,
        "destination"@,
        "ether_type"@,
        "payload_length"@,
        "inserted_at"@
    ]
}

/// What {'ethernet': 'an Ethernet frame', 'arp': 'an ARP message', 'ipv4': 'an IPv4 datagram', 'ipv6': 'an IPv6 datagram', 'udp': 'a UDP datagram', 'control_message': 'an ICMP message'} of the packet `id` stores in the column `column`, column by
/// column of its table (the insertion time aside).
pub open spec fn ethernet_column_value(e: Ethernet, id: u128, column: Seq<char>) -> Option<Seq<char>> {
    if column == "packet_id"@ {
        Some(num(id as int))
    } else if column == "source"@ {
        Some(quoted(mac_text(e.source@)))
    } else if column == "destination"@ {
        Some(quoted(mac_text(e.destination@)))
    } else if column == "ether_type"@ {
        Some(num(e.ethertype as int))
    } else if column == "payload_length"@ {
        Some(num(e.payload@.len() as int))
    } else {
        None
    }
}

/// The row of {'ethernet': 'an Ethernet frame', 'arp': 'an ARP message', 'ipv4': 'an IPv4 datagram', 'ipv6': 'an IPv6 datagram', 'udp': 'a UDP datagram', 'control_message': 'an ICMP message'} follows its column list: the head names the columns of
/// its table in order, and the value at each place is what is stored in the
/// column of that place; the insertion time closes the row.
pub proof fn ethernet_row_follows_its_columns(e: Ethernet, id: u128)
    ensures
        ETHERNET_HEAD@ == insert_head("memory.bronze_network_ethernet"@, ethernet_columns()),
        ethernet_fields(e, id).len() + 1 == ethernet_columns().len(),
        ethernet_columns().last() == "inserted_at"@,
        forall|k: int|
            0 <= k < ethernet_fields(e, id).len() ==> ethernet_column_value(e, id, ethernet_columns()[k])
                == Some(#[trigger] ethernet_fields(e, id)[k]),
{
    reveal_strlit("INSERT INTO memory.bronze_network_ethernet (\n                    packet_id,\n                    source,\n                    destination,\n                    ether_type,\n                    payload_length,\n                    inserted_at\n                    ) VALUES (");
    reveal_strlit("                    ");
    reveal_strlit("INSERT INTO ");
    reveal_strlit("memory.bronze_network_ethernet");
    reveal_strlit(" (\n");
    reveal_strlit(",\n");
    reveal_strlit("\n");
    reveal_strlit(") VALUES (");
    reveal_strlit("destination");
    reveal_strlit("ether_type");
    reveal_strlit("inserted_at");
    reveal_strlit("packet_id");
    reveal_strlit("payload_length");
    reveal_strlit("source");
    reveal_with_fuel(column_lines, 7);
    assert(ETHERNET_HEAD@ =~= insert_head("memory.bronze_network_ethernet"@, ethernet_columns()));
    let f = ethernet_fields(e, id);
    assert forall|k: int| 0 <= k < f.len() implies ethernet_column_value(e, id, ethernet_columns()[k])
        == Some(#[trigger] f[k]) by {
        assert("inserted_at"@[0] != "destination"@[0]);
    }
}

/// The columns of the table of {'ethernet': 'an Ethernet frame', 'arp': 'an ARP message', 'ipv4': 'an IPv4 datagram', 'ipv6': 'an IPv6 datagram', 'udp': 'a UDP datagram', 'control_message': 'an ICMP message'}, in the order in which its head names
/// them.
pub open spec fn arp_columns() -> Seq<Seq<char>> {
    seq![
        "packet_id"@,
        "hardware_type"@,
        "protocol_type"@,
        "hw_addr_len"@,
        "proto_addr_len"@,
        "operation"@,
        "sender_hw_addr"@,
        "sender_proto_addr"@,
        "target_hw_addr"@,
        "target_proto_addr"@,
        "inserted_at"@
    ]
}

/// What {'ethernet': 'an Ethernet frame', 'arp': 'an ARP message', 'ipv4': 'an IPv4 datagram', 'ipv6': 'an IPv6 datagram', 'udp': 'a UDP datagram', 'control_message': 'an ICMP message'} of the packet `id` stores in the column `column`, column by
/// column of its table (the insertion time aside).
pub open spec fn arp_column_value(a: Arp, id: u128, column: Seq<char>) -> Option<Seq<char>> {
    if column == "packet_id"@ {
        Some(num(id as int))
    } else if column == "hardware_type"@ {
        Some(num(a.hardware_type as int))
    } else if column == "protocol_type"@ {
        Some(num(a.protocol_type as int))
    } else if column == "hw_addr_len"@ {
        Some(num(a.hw_addr_len as int))
    } else if column == "proto_addr_len"@ {
        Some(num(a.proto_addr_len as int))
    } else if column == "operation"@ {
        Some(num(a.operation as int))
    } else if column == "sender_hw_addr"@ {
        Some(quoted(mac_text(a.sender_hw_addr@)))
    } else if column == "sender_proto_addr"@ {
        Some(quoted(ipv4_text(a.sender_proto_addr@)))
    } else if column == "target_hw_addr"@ {
        Some(quoted(mac_text(a.target_hw_addr@)))
    } else if column == "target_proto_addr"@ {
        Some(quoted(ipv4_text(a.target_proto_addr@)))
    } else {
        None
    }
}

/// The row of {'ethernet': 'an Ethernet frame', 'arp': 'an ARP message', 'ipv4': 'an IPv4 datagram', 'ipv6': 'an IPv6 datagram', 'udp': 'a UDP datagram', 'control_message': 'an ICMP message'} follows its column list: the head names the columns of
/// its table in order, and the value at each place is what is stored in the
/// column of that place; the insertion time closes the row.
pub proof fn arp_row_follows_its_columns(a: Arp, id: u128)
    ensures
        ARP_HEAD@ == insert_head("memory.bronze_network_arp"@, arp_columns()),
        arp_fields(a, id).len() + 1 == arp_columns().len(),
        arp_columns().last() == "inserted_at"@,
        forall|k: int|
            0 <= k < arp_fields(a, id).len() ==> arp_column_value(a, id, arp_columns()[k])
                == Some(#[trigger] arp_fields(a, id)[k]),
{
    reveal_strlit("INSERT INTO memory.bronze_network_arp (\n                    packet_id,\n                    hardware_type,\n                    protocol_type,\n                    hw_addr_len,\n                    proto_addr_len,\n                    operation,\n                    sender_hw_addr,\n                    sender_proto_addr,\n                    target_hw_addr,\n                    target_proto_addr,\n                    inserted_at\n                    ) VALUES (");
    reveal_strlit("                    ");
    reveal_strlit("INSERT INTO ");
    reveal_strlit("memory.bronze_network_arp");
    reveal_strlit(" (\n");
    reveal_strlit(",\n");
    reveal_strlit("\n");
    reveal_strlit(") VALUES (");
    reveal_strlit("hardware_type");
    reveal_strlit("hw_addr_len");
    reveal_strlit("inserted_at");
    reveal_strlit("operation");
    reveal_strlit("packet_id");
    reveal_strlit("proto_addr_len");
    reveal_strlit("protocol_type");
    reveal_strlit("sender_hw_addr");
    reveal_strlit("sender_proto_addr");
    reveal_strlit("target_hw_addr");
    reveal_strlit("target_proto_addr");
    reveal_with_fuel(column_lines, 12);
    assert(ARP_HEAD@ =~= insert_head("memory.bronze_network_arp"@, arp_columns()));
    let f = arp_fields(a, id);
    assert forall|k: int| 0 <= k < f.len() implies arp_column_value(a, id, arp_columns()[k])
        == Some(#[trigger] f[k]) by {
        assert("protocol_type"@[0] != "hardware_type"@[0]);
        assert("operation"@[0] != "packet_id"@[0]);
        assert("sender_hw_addr"@[0] != "proto_addr_len"@[0]);
        assert("target_hw_addr"@[0] != "proto_addr_len"@[0]);
        assert("target_hw_addr"@[0] != "sender_hw_addr"@[0]);
        assert("target_proto_addr"@[0] != "sender_proto_addr"@[0]);
        assert("inserted_at"@[0] != "hw_addr_len"@[0]);
    }
}

/// The columns of the table of {'ethernet': 'an Ethernet frame', 'arp': 'an ARP message', 'ipv4': 'an IPv4 datagram', 'ipv6': 'an IPv6 datagram', 'udp': 'a UDP datagram', 'control_message': 'an ICMP message'}, in the order in which its head names
/// them.
pub open spec fn ipv4_columns() -> Seq<Seq<char>> {
    seq![
        "packet_id"@,
        "version"@,
        "header_length"@,
        "dscp"@,
        "ecn"@,
        "total_length"@,
        "identification"@,
        "flags"@,
        "fragment_offset"@,
        "ttl"@,
        "next_level_protocol"@,
        "checksum"@,
        "source"@,
        "destination"@,
        "inserted_at"@
    ]
}

/// What {'ethernet': 'an Ethernet frame', 'arp': 'an ARP message', 'ipv4': 'an IPv4 datagram', 'ipv6': 'an IPv6 datagram', 'udp': 'a UDP datagram', 'control_message': 'an ICMP message'} of the packet `id` stores in the column `column`, column by
/// column of its table (the insertion time aside).
pub open spec fn ipv4_column_value(d: Ipv4, id: u128, column: Seq<char>) -> Option<Seq<char>> {
    if column == "packet_id"@ {
        Some(num(id as int))
    } else if column == "version"@ {
        Some(num(d.version as int))
    } else if column == "header_length"@ {
        Some(num(d.header_length as int))
    } else if column == "dscp"@ {
        Some(num(d.dscp as int))
    } else if column == "ecn"@ {
        Some(num(d.ecn as int))
    } else if column == "total_length"@ {
        Some(num(d.total_length as int))
    } else if column == "identification"@ {
        Some(num(d.identification as int))
    } else if column == "flags"@ {
        Some(num(d.flags as int))
    } else if column == "fragment_offset"@ {
        Some(num(d.fragment_offset as int))
    } else if column == "ttl"@ {
        Some(num(d.ttl as int))
    } else if column == "next_level_protocol"@ {
        Some(num(d.next_level_protocol as int))
    } else if column == "checksum"@ {
        Some(num(d.checksum as int))
    } else if column == "source"@ {
        Some(quoted(ipv4_text(d.source@)))
    } else if column == "destination"@ {
        Some(quoted(ipv4_text(d.destination@)))
    } else {
        None
    }
}

/// The row of {'ethernet': 'an Ethernet frame', 'arp': 'an ARP message', 'ipv4': 'an IPv4 datagram', 'ipv6': 'an IPv6 datagram', 'udp': 'a UDP datagram', 'control_message': 'an ICMP message'} follows its column list: the head names the columns of
/// its table in order, and the value at each place is what is stored in the
/// column of that place; the insertion time closes the row.
pub proof fn ipv4_row_follows_its_columns(d: Ipv4, id: u128)
    ensures
        IPV4_HEAD@ == insert_head("memory.bronze_network_ipv4"@, ipv4_columns()),
        ipv4_fields(d, id).len() + 1 == ipv4_columns().len(),
        ipv4_columns().last() == "inserted_at"@,
        forall|k: int|
            0 <= k < ipv4_fields(d, id).len() ==> ipv4_column_value(d, id, ipv4_columns()[k])
                == Some(#[trigger] ipv4_fields(d, id)[k]),
{
    reveal_strlit("INSERT INTO memory.bronze_network_ipv4 (\n                    packet_id,\n                    version,\n                    header_length,\n                    dscp,\n                    ecn,\n                    total_length,\n                    identification,\n                    flags,\n                    fragment_offset,\n                    ttl,\n                    next_level_protocol,\n                    checksum,\n                    source,\n                    destination,\n                    inserted_at\n                    ) VALUES (");
    reveal_strlit("                    ");
    reveal_strlit("INSERT INTO ");
    reveal_strlit("memory.bronze_network_ipv4");
    reveal_strlit(" (\n");
    reveal_strlit(",\n");
    reveal_strlit("\n");
    reveal_strlit(") VALUES (");
    reveal_strlit("checksum");
    reveal_strlit("destination");
    reveal_strlit("dscp");
    reveal_strlit("ecn");
    reveal_strlit("flags");
    reveal_strlit("fragment_offset");
    reveal_strlit("header_length");
    reveal_strlit("identification");
    reveal_strlit("inserted_at");
    reveal_strlit("next_level_protocol");
    reveal_strlit("packet_id");
    reveal_strlit("source");
    reveal_strlit("total_length");
    reveal_strlit("ttl");
    reveal_strlit("version");
    reveal_with_fuel(column_lines, 16);
    assert(IPV4_HEAD@ =~= insert_head("memory.bronze_network_ipv4"@, ipv4_columns()));
    let f = ipv4_fields(d, id);
    assert forall|k: int| 0 <= k < f.len() implies ipv4_column_value(d, id, ipv4_columns()[k])
        == Some(#[trigger] f[k]) by {
        assert("ttl"@[0] != "ecn"@[0]);
        assert("inserted_at"@[0] != "destination"@[0]);
    }
}

/// The columns of the table of {'ethernet': 'an Ethernet frame', 'arp': 'an ARP message', 'ipv4': 'an IPv4 datagram', 'ipv6': 'an IPv6 datagram', 'udp': 'a UDP datagram', 'control_message': 'an ICMP message'}, in the order in which its head names
/// them.
pub open spec fn ipv6_columns() -> Seq<Seq<char>> {
    seq![
        "packet_id"@,
        "version"@,
        "traffic_class"@,
        "flow_label"@,
        "payload_length"@,
        "next_header"@,
        "hop_limit"@,
        "source"@,
        "destination"@,
        "inserted_at"@
    ]
}

/// What {'ethernet': 'an Ethernet frame', 'arp': 'an ARP message', 'ipv4': 'an IPv4 datagram', 'ipv6': 'an IPv6 datagram', 'udp': 'a UDP datagram', 'control_message': 'an ICMP message'} of the packet `id` stores in the column `column`, column by
/// column of its table (the insertion time aside).
pub open spec fn ipv6_column_value(d: Ipv6, id: u128, column: Seq<char>) -> Option<Seq<char>> {
    if column == "packet_id"@ {
        Some(num(id as int))
    } else if column == "version"@ {
        Some(num(d.version as int))
    } else if column == "traffic_class"@ {
        Some(num(d.traffic_class as int))
    } else if column == "flow_label"@ {
        Some(num(d.flow_label as int))
    } else if column == "payload_length"@ {
        Some(num(d.payload_length as int))
    } else if column == "next_header"@ {
        Some(num(d.next_header as int))
    } else if column == "hop_limit"@ {
        Some(num(d.hop_limit as int))
    } else if column == "source"@ {
        Some(quoted(d.source_text@))
    } else if column == "destination"@ {
        Some(quoted(d.destination_text@))
    } else {
        None
    }
}

/// The row of {'ethernet': 'an Ethernet frame', 'arp': 'an ARP message', 'ipv4': 'an IPv4 datagram', 'ipv6': 'an IPv6 datagram', 'udp': 'a UDP datagram', 'control_message': 'an ICMP message'} follows its column list: the head names the columns of
/// its table in order, and the value at each place is what is stored in the
/// column of that place; the insertion time closes the row.
pub proof fn ipv6_row_follows_its_columns(d: Ipv6, id: u128)
    ensures
        IPV6_HEAD@ == insert_head("memory.bronze_network_ipv6"@, ipv6_columns()),
        ipv6_fields(d, id).len() + 1 == ipv6_columns().len(),
        ipv6_columns().last() == "inserted_at"@,
        forall|k: int|
            0 <= k < ipv6_fields(d, id).len() ==> ipv6_column_value(d, id, ipv6_columns()[k])
                == Some(#[trigger] ipv6_fields(d, id)[k]),
{
    reveal_strlit("INSERT INTO memory.bronze_network_ipv6 (\n                    packet_id,\n                    version,\n                    traffic_class,\n                    flow_label,\n                    payload_length,\n                    next_header,\n                    hop_limit,\n                    source,\n                    destination,\n                    inserted_at\n                    ) VALUES (");
    reveal_strlit("                    ");
    reveal_strlit("INSERT INTO ");
    reveal_strlit("memory.bronze_network_ipv6");
    reveal_strlit(" (\n");
    reveal_strlit(",\n");
    reveal_strlit("\n");
    reveal_strlit(") VALUES (");
    reveal_strlit("destination");
    reveal_strlit("flow_label");
    reveal_strlit("hop_limit");
    reveal_strlit("inserted_at");
    reveal_strlit("next_header");
    reveal_strlit("packet_id");
    reveal_strlit("payload_length");
    reveal_strlit("source");
    reveal_strlit("traffic_class");
    reveal_strlit("version");
    reveal_with_fuel(column_lines, 11);
    assert(IPV6_HEAD@ =~= insert_head("memory.bronze_network_ipv6"@, ipv6_columns()));
    let f = ipv6_fields(d, id);
    assert forall|k: int| 0 <= k < f.len() implies ipv6_column_value(d, id, ipv6_columns()[k])
        == Some(#[trigger] f[k]) by {
        assert("hop_limit"@[0] != "packet_id"@[0]);
        assert("destination"@[0] != "next_header"@[0]);
        assert("inserted_at"@[0] != "next_header"@[0]);
        assert("inserted_at"@[0] != "destination"@[0]);
    }
}

/// The columns of the table of {'ethernet': 'an Ethernet frame', 'arp': 'an ARP message', 'ipv4': 'an IPv4 datagram', 'ipv6': 'an IPv6 datagram', 'udp': 'a UDP datagram', 'control_message': 'an ICMP message'}, in the order in which its head names
/// them.
pub open spec fn udp_columns() -> Seq<Seq<char>> {
    seq![
        "packet_id"@,
        "source"@,
        "destination"@,
        "length"@,
        "checksum"@,
        "inserted_at"@
    ]
}

/// What {'ethernet': 'an Ethernet frame', 'arp': 'an ARP message', 'ipv4': 'an IPv4 datagram', 'ipv6': 'an IPv6 datagram', 'udp': 'a UDP datagram', 'control_message': 'an ICMP message'} of the packet `id` stores in the column `column`, column by
/// column of its table (the insertion time aside).
pub open spec fn udp_column_value(u: Udp, id: u128, column: Seq<char>) -> Option<Seq<char>> {
    if column == "packet_id"@ {
        Some(num(id as int))
    } else if column == "source"@ {
        Some(num(u.source as int))
    } else if column == "destination"@ {
        Some(num(u.destination as int))
    } else if column == "length"@ {
        Some(num(u.length as int))
    } else if column == "checksum"@ {
        Some(num(u.checksum as int))
    } else {
        None
    }
}

/// The row of {'ethernet': 'an Ethernet frame', 'arp': 'an ARP message', 'ipv4': 'an IPv4 datagram', 'ipv6': 'an IPv6 datagram', 'udp': 'a UDP datagram', 'control_message': 'an ICMP message'} follows its column list: the head names the columns of
/// its table in order, and the value at each place is what is stored in the
/// column of that place; the insertion time closes the row.
pub proof fn udp_row_follows_its_columns(u: Udp, id: u128)
    ensures
        UDP_HEAD@ == insert_head("memory.bronze_network_udp"@, udp_columns()),
        udp_fields(u, id).len() + 1 == udp_columns().len(),
        udp_columns().last() == "inserted_at"@,
        forall|k: int|
            0 <= k < udp_fields(u, id).len() ==> udp_column_value(u, id, udp_columns()[k])
                == Some(#[trigger] udp_fields(u, id)[k]),
{
    reveal_strlit("INSERT INTO memory.bronze_network_udp (\n                    packet_id,\n                    source,\n                    destination,\n                    length,\n                    checksum,\n                    inserted_at\n                    ) VALUES (");
    reveal_strlit("                    ");
    reveal_strlit("INSERT INTO ");
    reveal_strlit("memory.bronze_network_udp");
    reveal_strlit(" (\n");
    reveal_strlit(",\n");
    reveal_strlit("\n");
    reveal_strlit(") VALUES (");
    reveal_strlit("checksum");
    reveal_strlit("destination");
    reveal_strlit("inserted_at");
    reveal_strlit("length");
    reveal_strlit("packet_id");
    reveal_strlit("source");
    reveal_with_fuel(column_lines, 7);
    assert(UDP_HEAD@ =~= insert_head("memory.bronze_network_udp"@, udp_columns()));
    let f = udp_fields(u, id);
    assert forall|k: int| 0 <= k < f.len() implies udp_column_value(u, id, udp_columns()[k])
        == Some(#[trigger] f[k]) by {
        assert("length"@[0] != "source"@[0]);
        assert("inserted_at"@[0] != "destination"@[0]);
    }
}

/// The columns of the table of {'ethernet': 'an Ethernet frame', 'arp': 'an ARP message', 'ipv4': 'an IPv4 datagram', 'ipv6': 'an IPv6 datagram', 'udp': 'a UDP datagram', 'control_message': 'an ICMP message'}, in the order in which its head names
/// them.
pub open spec fn control_message_columns() -> Seq<Seq<char>> {
    seq![
        "packet_id"@,
        "version"@,
        "type"@,
        "code"@,
        "checksum"@,
        "payload_length"@,
        "inserted_at"@
    ]
}

/// What {'ethernet': 'an Ethernet frame', 'arp': 'an ARP message', 'ipv4': 'an IPv4 datagram', 'ipv6': 'an IPv6 datagram', 'udp': 'a UDP datagram', 'control_message': 'an ICMP message'} of the packet `id` stores in the column `column`, column by
/// column of its table (the insertion time aside).
pub open spec fn control_message_column_value(m: ControlMessage, id: u128, v6: bool, column: Seq<char>) -> Option<Seq<char>> {
    if column == "packet_id"@ {
        Some(num(id as int))
    } else if column == "version"@ {
        Some(if v6 { "6"@ } else { "4"@ })
    } else if column == "type"@ {
        Some(num(m.message_type as int))
    } else if column == "code"@ {
        Some(num(m.code as int))
    } else if column == "checksum"@ {
        Some(num(m.checksum as int))
    } else if column == "payload_length"@ {
        Some(if v6 { num(m.payload@.len() as int) } else { quoted(num(m.payload@.len() as int)) })
    } else {
        None
    }
}

/// The row of {'ethernet': 'an Ethernet frame', 'arp': 'an ARP message', 'ipv4': 'an IPv4 datagram', 'ipv6': 'an IPv6 datagram', 'udp': 'a UDP datagram', 'control_message': 'an ICMP message'} follows its column list: the head names the columns of
/// its table in order, and the value at each place is what is stored in the
/// column of that place; the insertion time closes the row.
pub proof fn control_message_row_follows_its_columns(m: ControlMessage, id: u128, v6: bool)
    ensures
        CONTROL_MESSAGE_HEAD@ == insert_head("memory.bronze_network_icmp"@, control_message_columns()),
        control_fields(m, id, v6).len() + 1 == control_message_columns().len(),
        control_message_columns().last() == "inserted_at"@,
        forall|k: int|
            0 <= k < control_fields(m, id, v6).len() ==> control_message_column_value(m, id, v6, control_message_columns()[k])
                == Some(#[trigger] control_fields(m, id, v6)[k]),
{
    reveal_strlit("INSERT INTO memory.bronze_network_icmp (\n                    packet_id,\n                    version,\n                    type,\n                    code,\n                    checksum,\n                    payload_length,\n                    inserted_at\n                    ) VALUES (");
    reveal_strlit("                    ");
    reveal_strlit("INSERT INTO ");
    reveal_strlit("memory.bronze_network_icmp");
    reveal_strlit(" (\n");
    reveal_strlit(",\n");
    reveal_strlit("\n");
    reveal_strlit(") VALUES (");
    reveal_strlit("checksum");
    reveal_strlit("code");
    reveal_strlit("inserted_at");
    reveal_strlit("packet_id");
    reveal_strlit("payload_length");
    reveal_strlit("type");
    reveal_strlit("version");
    reveal_with_fuel(column_lines, 8);
    assert(CONTROL_MESSAGE_HEAD@ =~= insert_head("memory.bronze_network_icmp"@, control_message_columns()));
    let f = control_fields(m, id, v6);
    assert forall|k: int| 0 <= k < f.len() implies control_message_column_value(m, id, v6, control_message_columns()[k])
        == Some(#[trigger] f[k]) by {
        assert("code"@[0] != "type"@[0]);
    }
}


/// The values of the row of a TLS record, one per column.
pub open spec fn tls_fields(t: Tls, id: u128) -> Seq<Seq<char>> {
    seq![
        num(id as int),
        num(t.content_type.code() as int),
        num(t.version.code() as int),
        num(t.length as int)
    ]
}

/// The columns of the table of a TLS record, in the order in which its head names
/// them.
pub open spec fn tls_columns() -> Seq<Seq<char>> {
    seq![
        "packet_id"@,
        "content_type"@,
        "version"@,
        "length"@,
        "inserted_at"@
    ]
}

/// What a TLS record of the packet `id` stores in the column `column`, column by
/// column of its table (the insertion time aside).
pub open spec fn tls_column_value(t: Tls, id: u128, column: Seq<char>) -> Option<Seq<char>> {
    if column == "packet_id"@ {
        Some(num(id as int))
    } else if column == "content_type"@ {
        Some(num(t.content_type.code() as int))
    } else if column == "version"@ {
        Some(num(t.version.code() as int))
    } else if column == "length"@ {
        Some(num(t.length as int))
    } else {
        None
    }
}

/// The row of a TLS record follows its column list: the request is the head and
/// one value per column; the head names the columns of its table in order,
/// and the value at each place is what is stored in the column of that
/// place; the insertion time closes the row.
pub proof fn tls_row_follows_its_columns(t: Tls, id: u128)
    ensures
        tls_row(t, id) == row_text(TLS_HEAD@, tls_fields(t, id)),
        TLS_HEAD@ == insert_head("memory.bronze_network_tls"@, tls_columns()),
        tls_fields(t, id).len() + 1 == tls_columns().len(),
        tls_columns().last() == "inserted_at"@,
        forall|k: int|
            0 <= k < tls_fields(t, id).len() ==> tls_column_value(t, id, tls_columns()[k])
                == Some(#[trigger] tls_fields(t, id)[k]),
{
    reveal_strlit("INSERT INTO memory.bronze_network_tls (\n                    packet_id,\n                    content_type,\n                    version,\n                    length,\n                    inserted_at\n                    ) VALUES (");
    reveal_strlit("                    ");
    reveal_strlit("INSERT INTO ");
    reveal_strlit("memory.bronze_network_tls");
    reveal_strlit(" (\n");
    reveal_strlit(",\n");
    reveal_strlit("\n");
    reveal_strlit(") VALUES (");
    reveal_strlit(", ");
    reveal_strlit("'");
    reveal_strlit(", '");
    reveal_strlit("', ");
    reveal_strlit(", CURRENT_TIMESTAMP);");
    reveal_strlit("', CURRENT_TIMESTAMP);");
    reveal_strlit("content_type");
    reveal_strlit("inserted_at");
    reveal_strlit("length");
    reveal_strlit("packet_id");
    reveal_strlit("version");
    reveal_with_fuel(column_lines, 6);
    reveal_with_fuel(join, 5);
    assert(TLS_HEAD@ =~= insert_head("memory.bronze_network_tls"@, tls_columns()));
    assert(tls_row(t, id) =~= row_text(TLS_HEAD@, tls_fields(t, id)));
    let f = tls_fields(t, id);
    assert forall|k: int| 0 <= k < f.len() implies tls_column_value(t, id, tls_columns()[k])
        == Some(#[trigger] f[k]) by {

    }
}


/// The column names of the DNS header head, one per line, indented further
/// than in the other heads, each but the last followed by a comma.
pub open spec fn dns_column_lines(cs: Seq<Seq<char>>) -> Seq<char>
    decreases cs.len(),
{
    if cs.len() == 0 {
        Seq::empty()
    } else if cs.len() == 1 {
        indent() + "    "@ + cs[0] + "\n"@
    } else {
        indent() + "    "@ + cs[0] + ",\n"@ + dns_column_lines(cs.drop_first())
    }
}

/// The columns of the DNS header table, in the order in which its head
/// names them.
pub open spec fn dns_header_columns() -> Seq<Seq<char>> {
    seq![
        "packet_id"@,
        "id"@,
        "is_response"@,
        "opcode"@,
        "is_authoriative"@,
        "is_truncated"@,
        "is_recursion_desirable"@,
        "is_recursion_available"@,
        "zero_reserved"@,
        "is_answer_authenticated"@,
        "is_non_authenticated_data"@,
        "rcode"@,
        "query_count"@,
        "response_count"@,
        "authority_rr_count"@,
        "additional_rr_count"@,
        "inserted_at"@
    ]
}

/// The values of the row of a DNS header, one per column.
pub open spec fn dns_header_fields(d: Dns, id: u128) -> Seq<Seq<char>> {
    seq![num(id as int)] + dns_header_values(d)
}

/// What the header of a DNS message of the packet `id` stores in the column
/// `column`, column by column of its table (the insertion time aside).
pub open spec fn dns_header_column_value(d: Dns, id: u128, column: Seq<char>) -> Option<Seq<char>> {
    if column == "packet_id"@ {
        Some(num(id as int))
    } else if column == "id"@ {
        Some(num(d.id as int))
    } else if column == "is_response"@ {
        Some(num(d.is_response as int))
    } else if column == "opcode"@ {
        Some(num(d.opcode as int))
    } else if column == "is_authoriative"@ {
        Some(num(d.is_authoriative as int))
    } else if column == "is_truncated"@ {
        Some(num(d.is_truncated as int))
    } else if column == "is_recursion_desirable"@ {
        Some(num(d.is_recursion_desirable as int))
    } else if column == "is_recursion_available"@ {
        Some(num(d.is_recursion_available as int))
    } else if column == "zero_reserved"@ {
        Some(num(d.zero_reserved as int))
    } else if column == "is_answer_authenticated"@ {
        Some(num(d.is_answer_authenticated as int))
    } else if column == "is_non_authenticated_data"@ {
        Some(num(d.is_non_authenticated_data as int))
    } else if column == "rcode"@ {
        Some(num(d.rcode as int))
    } else if column == "query_count"@ {
        Some(num(d.query_count as int))
    } else if column == "response_count"@ {
        Some(num(d.response_count as int))
    } else if column == "authority_rr_count"@ {
        Some(num(d.authority_rr_count as int))
    } else if column == "additional_rr_count"@ {
        Some(num(d.additional_rr_count as int))
    } else {
        None
    }
}

/// The row of a DNS header follows its column list: the request is the head
/// and one value per column; the head names the columns of the table in
/// order, and the value at each place is the header field of that column's
/// name; the insertion time closes the row.
pub proof fn dns_header_row_follows_its_columns(d: Dns, id: u128)
    ensures
        dns_header_row(d, id) == row_text(DNS_HEADER_HEAD@, dns_header_fields(d, id)),
        DNS_HEADER_HEAD@ == "INSERT INTO memory.bronze_network_dns_header (\n"@ + dns_column_lines(
            dns_header_columns(),
        ) + indent() + ") VALUES ("@,
        dns_header_fields(d, id).len() + 1 == dns_header_columns().len(),
        dns_header_columns().last() == "inserted_at"@,
        forall|k: int|
            0 <= k < dns_header_fields(d, id).len() ==> dns_header_column_value(d, id, dns_header_columns()[k])
                == Some(#[trigger] dns_header_fields(d, id)[k]),
{
    reveal_strlit("INSERT INTO memory.bronze_network_dns_header (\n                        packet_id,\n                        id,\n                        is_response,\n                        opcode,\n                        is_authoriative,\n                        is_truncated,\n                        is_recursion_desirable,\n                        is_recursion_available,\n                        zero_reserved,\n                        is_answer_authenticated,\n                        is_non_authenticated_data,\n                        rcode,\n                        query_count,\n                        response_count,\n                        authority_rr_count,\n                        additional_rr_count,\n                        inserted_at\n                    ) VALUES (");
    reveal_strlit("                    ");
    reveal_strlit("    ");
    reveal_strlit("INSERT INTO memory.bronze_network_dns_header (\n");
    reveal_strlit(",\n");
    reveal_strlit("\n");
    reveal_strlit(") VALUES (");
    reveal_strlit("additional_rr_count");
    reveal_strlit("authority_rr_count");
    reveal_strlit("id");
    reveal_strlit("inserted_at");
    reveal_strlit("is_answer_authenticated");
    reveal_strlit("is_authoriative");
    reveal_strlit("is_non_authenticated_data");
    reveal_strlit("is_recursion_available");
    reveal_strlit("is_recursion_desirable");
    reveal_strlit("is_response");
    reveal_strlit("is_truncated");
    reveal_strlit("opcode");
    reveal_strlit("packet_id");
    reveal_strlit("query_count");
    reveal_strlit("rcode");
    reveal_strlit("response_count");
    reveal_strlit("zero_reserved");
    reveal_with_fuel(dns_column_lines, 18);
    assert(DNS_HEADER_HEAD@ =~= "INSERT INTO memory.bronze_network_dns_header (\n"@ + dns_column_lines(
        dns_header_columns(),
    ) + indent() + ") VALUES ("@);
    let vs = dns_header_values(d);
    crate::text::lemma_join_prepend(num(id as int), vs, ", "@);
    assert(dns_header_row(d, id) =~= row_text(DNS_HEADER_HEAD@, dns_header_fields(d, id)));
    let f = dns_header_fields(d, id);
    assert forall|k: int| 0 <= k < f.len() implies dns_header_column_value(d, id, dns_header_columns()[k])
        == Some(#[trigger] f[k]) by {
        assert("is_recursion_available"@[13] != "is_recursion_desirable"@[13]);
        assert("query_count"@[0] != "is_response"@[0]);
        assert("inserted_at"@[1] != "is_response"@[1]);
        assert("inserted_at"@[0] != "query_count"@[0]);
        if k > 0 {
            assert(f[k] == vs[k - 1]);
        }
    }
}



/// The columns of the table of an HTTP message, in the order in which its head names
/// them.
pub open spec fn http_columns() -> Seq<Seq<char>> {
    seq![
        "packet_id"@,
        "type"@,
        "method"@,
        "uri"@,
        "version"@,
        "status_code"@,
        "status_text"@,
        "headers"@,
        "body"@,
        "inserted_at"@
    ]
}

/// What an HTTP message of the packet `id` stores in the column `column`, column by
/// column of its table (the insertion time aside).
pub open spec fn http_column_value(h: HttpView, id: u128, column: Seq<char>) -> Option<Seq<char>> {
    if column == "packet_id"@ {
        Some(num(id as int))
    } else if column == "type"@ {
        Some(quoted(h.instruction._type.name()))
    } else if column == "method"@ {
        Some(method_or_null(h.instruction.method))
    } else if column == "uri"@ {
        Some(quoted_or_null(h.instruction.uri))
    } else if column == "version"@ {
        Some(quoted(h.instruction.version.name()))
    } else if column == "status_code"@ {
        Some(number_or_null(h.instruction.status_code))
    } else if column == "status_text"@ {
        Some(quoted_or_null(h.instruction.status_text))
    } else if column == "headers"@ {
        Some(quoted(sql_escaped(headers_debug(h.headers))))
    } else if column == "body"@ {
        Some(quoted(sql_escaped(h.body)))
    } else {
        None
    }
}

/// The row of an HTTP message follows its column list: the request is the head and
/// one value per column; the head names the columns of its table in order,
/// and the value at each place is what is stored in the column of that
/// place; the insertion time closes the row.
pub proof fn http_row_follows_its_columns(h: HttpView, id: u128)
    ensures
        http_row(h, id) == row_text(HTTP_HEAD@, http_fields(h, id)),
        HTTP_HEAD@ == insert_head("memory.bronze_network_http"@, http_columns()),
        http_fields(h, id).len() + 1 == http_columns().len(),
        http_columns().last() == "inserted_at"@,
        forall|k: int|
            0 <= k < http_fields(h, id).len() ==> http_column_value(h, id, http_columns()[k])
                == Some(#[trigger] http_fields(h, id)[k]),
{
    reveal_strlit("INSERT INTO memory.bronze_network_http (\n                    packet_id,\n                    type,\n                    method,\n                    uri,\n                    version,\n                    status_code,\n                    status_text,\n                    headers,\n                    body,\n                    inserted_at\n                    ) VALUES (");
    reveal_strlit("                    ");
    reveal_strlit("INSERT INTO ");
    reveal_strlit("memory.bronze_network_http");
    reveal_strlit(" (\n");
    reveal_strlit(",\n");
    reveal_strlit("\n");
    reveal_strlit(") VALUES (");
    reveal_strlit(", ");
    reveal_strlit("'");
    reveal_strlit(", '");
    reveal_strlit("', ");
    reveal_strlit(", CURRENT_TIMESTAMP);");
    reveal_strlit("', CURRENT_TIMESTAMP);");
    reveal_strlit("body");
    reveal_strlit("headers");
    reveal_strlit("inserted_at");
    reveal_strlit("method");
    reveal_strlit("packet_id");
    reveal_strlit("status_code");
    reveal_strlit("status_text");
    reveal_strlit("type");
    reveal_strlit("uri");
    reveal_strlit("version");
    reveal_with_fuel(column_lines, 11);
    reveal_with_fuel(join, 10);
    assert(HTTP_HEAD@ =~= insert_head("memory.bronze_network_http"@, http_columns()));
    assert(http_row(h, id) =~= row_text(HTTP_HEAD@, http_fields(h, id)));
    let f = http_fields(h, id);
    assert forall|k: int| 0 <= k < f.len() implies http_column_value(h, id, http_columns()[k])
        == Some(#[trigger] f[k]) by {
        assert("status_text"@[7] != "status_code"@[7]);
        assert("headers"@[0] != "version"@[0]);
        assert("body"@[0] != "type"@[0]);
        assert("inserted_at"@[0] != "status_code"@[0]);
        assert("inserted_at"@[0] != "status_text"@[0]);
    }
}

} // verus!
