//! DNS messages: the fields that are read of a message, whether its header
//! agrees with its sections, and the names of record types and classes.
use vstd::prelude::*;

verus! {

/// A question of a message.
#[derive(Debug, Clone)]
pub struct DnsQuery {
    /// The queried name, in its wire form (labels with their lengths).
    pub qname: Vec<u8>,
    pub qtype: u16,
    pub qclass: u16,
}

/// A resource record of a message.
#[derive(Debug, Clone)]
pub struct DnsRecord {
    pub name_tag: u16,
    pub rtype: u16,
    pub rclass: u16,
    pub ttl: u32,
    pub data_len: u16,
    pub data: Vec<u8>,
}

/// A message: its header (flags as 0 or 1, operation and result codes as
/// numbers) and its four sections.
#[derive(Debug, Clone)]
pub struct Dns {
    pub id: u16,
    pub is_response: u8,
    pub opcode: u8,
    pub is_authoriative: u8,
    pub is_truncated: u8,
    pub is_recursion_desirable: u8,
    pub is_recursion_available: u8,
    pub zero_reserved: u8,
    pub is_answer_authenticated: u8,
    pub is_non_authenticated_data: u8,
    pub rcode: u8,
    pub query_count: u16,
    pub response_count: u16,
    pub authority_rr_count: u16,
    pub additional_rr_count: u16,
    pub queries: Vec<DnsQuery>,
    pub responses: Vec<DnsRecord>,
    pub authorities: Vec<DnsRecord>,
    pub additional: Vec<DnsRecord>,
}

/// The header of a message agrees with its sections: it asks or answers
/// something, its counts of questions and answers are those of the
/// sections, and its operation and result codes fit in four bits.
pub open spec fn header_valid(dns: Dns) -> bool {
    &&& (dns.query_count > 0 || dns.response_count > 0)
    &&& dns.query_count == dns.queries@.len()
    &&& dns.response_count == dns.responses@.len()
    &&& dns.opcode < 16
    &&& dns.rcode < 16
}

/// Whether the header of a message agrees with its sections.
pub fn valid_header(dns: &Dns) -> (r: bool)
    ensures
        r == header_valid(*dns),
{
    (dns.query_count > 0 || dns.response_count > 0) && (dns.query_count as usize
        == dns.queries.len() && dns.response_count as usize == dns.responses.len()) && (dns.opcode
        < 16 && dns.rcode < 16)
}

/// What `pnet`'s `DnsType` writes for a record type: its mnemonic, or
/// `unknown`.
pub uninterp spec fn dns_type_text(t: u16) -> Seq<char>;

/// The mnemonic of a record type (`Display` of `pnet::packet::dns::DnsType`);
/// the contract names the result `dns_type_text` of the number.
#[verifier::external_body]
pub fn dns_type_name(t: u16) -> (r: String)
    ensures
        r@ == dns_type_text(t),
{
    pnet::packet::dns::DnsType::new(t).to_string()
}

/// The mnemonic of a record class, or `unknown`.
pub open spec fn dns_class_text(c: u16) -> Seq<char> {
    if c == 1 {
        "IN"@
    } else if c == 2 {
        "CS"@
    } else if c == 3 {
        "CH"@
    } else if c == 4 {
        "HS"@
    } else {
        "unknown"@
    }
}

/// The mnemonic of a record class (`Display` of
/// `pnet::packet::dns::DnsClass`), or `unknown`.
#[verifier::external_body]
pub fn dns_class_name(c: u16) -> (r: String)
    ensures
        r@ == dns_class_text(c),
{
    pnet::packet::dns::DnsClass(c).to_string()
}


/// A valid header counts its sections: its question and answer counts are
/// the numbers of questions and answers, which are not both zero; a header
/// whose counts disagree with its sections, or whose operation or result
/// code does not fit in four bits, is not valid.
pub proof fn valid_headers_count_their_sections(d: Dns)
    ensures
        header_valid(d) ==> d.query_count as int == d.queries@.len() && d.response_count as int
            == d.responses@.len() && d.queries@.len() + d.responses@.len() > 0,
        d.query_count as int != d.queries@.len() ==> !header_valid(d),
        d.response_count as int != d.responses@.len() ==> !header_valid(d),
        d.opcode >= 16 || d.rcode >= 16 ==> !header_valid(d),
        (d.query_count as int == d.queries@.len() && d.response_count as int == d.responses@.len()
            && d.queries@.len() + d.responses@.len() > 0 && d.opcode < 16 && d.rcode < 16)
            ==> header_valid(d),
{
}

} // verus!
