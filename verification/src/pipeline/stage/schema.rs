//! The database schema: the requests that create the tables of each layer,
//! and the names of those tables.
use vstd::prelude::*;
use crate::pattern::{captures_all, compile, matches_view, regex_builds, regex_captures_all};
use crate::text::{append_chars, chars_of, join, join_exec, push_piece, string_from_chars, strings, views};

verus! {
pub const BRONZE_PROCESS_LIST: &'static str = r#"
CREATE SEQUENCE IF NOT EXISTS bronze_process_list_serial;
CREATE OR REPLACE TABLE bronze_process_list (
    _id INTEGER PRIMARY KEY DEFAULT nextval('bronze_process_list_serial'),
    pid UINTEGER,
    ppid UINTEGER,
    uid INTEGER,
    lstart TIMESTAMP,
    pcpu FLOAT,
    pmem FLOAT,
    status TEXT,
    command TEXT,
    created_at TIMESTAMP,
    inserted_at TIMESTAMP,
    brz_ingestion_duration INTERVAL
);
"#;
pub const BRONZE_OPEN_FILES: &'static str = r#"
CREATE SEQUENCE IF NOT EXISTS bronze_open_files_serial;
CREATE OR REPLACE TABLE bronze_open_files (
    _id INTEGER PRIMARY KEY DEFAULT nextval('bronze_open_files_serial'),
    command TEXT,
    pid UINTEGER,
    uid INTEGER,
    fd TEXT,
    type TEXT,
    device TEXT,
    size UBIGINT,
    node TEXT,
    name TEXT,
    created_at TIMESTAMP,
    inserted_at TIMESTAMP,
    brz_ingestion_duration INTERVAL
);
"#;
pub const BRONZE_NETWORK_PACKET: &'static str = r#"
CREATE OR REPLACE TABLE bronze_network_packet (
    _id UHUGEINT PRIMARY KEY,
    interface TEXT,
    length UINTEGER,
    created_at TIMESTAMP,
    inserted_at TIMESTAMP,
    brz_ingestion_duration INTERVAL
);
"#;
pub const BRONZE_NETWORK_INTERFACE_ADDRESS: &'static str = r#"
CREATE SEQUENCE IF NOT EXISTS bronze_network_interface_address_serial;
CREATE OR REPLACE TABLE bronze_network_interface_address (
    _id INTEGER DEFAULT nextval('bronze_network_interface_address_serial'),
    interface TEXT,
    address TEXT,
    netmask TEXT,
    broadcast_address TEXT,
    destination_address TEXT,
    inserted_at TIMESTAMP,
    PRIMARY KEY (interface, address)
);
"#;
pub const BRONZE_NETWORK_ETHERNET: &'static str = r#"
CREATE SEQUENCE IF NOT EXISTS bronze_network_ethernet_serial;
CREATE OR REPLACE TABLE bronze_network_ethernet (
    _id INTEGER PRIMARY KEY DEFAULT nextval('bronze_network_ethernet_serial'),
    packet_id UHUGEINT,
    source TEXT,
    destination TEXT,
    ether_type USMALLINT,
    payload_length UINTEGER,
    inserted_at TIMESTAMP,
);
"#;
pub const BRONZE_NETWORK_IPV4: &'static str = r#"
CREATE SEQUENCE IF NOT EXISTS bronze_network_ipv4_serial;
CREATE OR REPLACE TABLE bronze_network_ipv4 (
    _id INTEGER PRIMARY KEY DEFAULT nextval('bronze_network_ipv4_serial'),
    packet_id UHUGEINT,
    version USMALLINT,
    header_length USMALLINT,
    dscp USMALLINT,
    ecn USMALLINT,
    total_length USMALLINT,
    identification USMALLINT,
    flags USMALLINT,
    fragment_offset USMALLINT,
    ttl USMALLINT,
    next_level_protocol USMALLINT,
    checksum USMALLINT,
    source TEXT,
    destination TEXT,
    inserted_at TIMESTAMP,
);
"#;
pub const BRONZE_NETWORK_IPV6: &'static str = r#"
CREATE SEQUENCE IF NOT EXISTS bronze_network_ipv6_serial;
CREATE OR REPLACE TABLE bronze_network_ipv6 (
    _id INTEGER PRIMARY KEY DEFAULT nextval('bronze_network_ipv6_serial'),
    packet_id UHUGEINT,
    version USMALLINT,
    traffic_class USMALLINT,
    flow_label UINTEGER,
    payload_length USMALLINT,
    next_header USMALLINT,
    hop_limit USMALLINT,
    source TEXT,
    destination TEXT,
    inserted_at TIMESTAMP,
);
"#;
pub const BRONZE_NETWORK_ARP: &'static str = r#"
CREATE SEQUENCE IF NOT EXISTS bronze_network_arp_serial;
CREATE OR REPLACE TABLE bronze_network_arp (
    _id INTEGER PRIMARY KEY DEFAULT nextval('bronze_network_arp_serial'),
    packet_id UHUGEINT,
    hardware_type USMALLINT,
    protocol_type USMALLINT,
    hw_addr_len USMALLINT,
    proto_addr_len USMALLINT,
    operation USMALLINT,
    sender_hw_addr TEXT,
    sender_proto_addr TEXT,
    target_hw_addr TEXT,
    target_proto_addr TEXT,
    inserted_at TIMESTAMP,
);
"#;
pub const BRONZE_NETWORK_TCP: &'static str = r#"
CREATE SEQUENCE IF NOT EXISTS bronze_network_tcp_serial;
CREATE OR REPLACE TABLE bronze_network_tcp (
    _id INTEGER PRIMARY KEY DEFAULT nextval('bronze_network_tcp_serial'),
    packet_id UHUGEINT,
    source USMALLINT,
    destination USMALLINT,
    sequence UINTEGER,
    acknowledgement UINTEGER,
    data_offset USMALLINT,
    reserved USMALLINT,
    flags USMALLINT,
    _window USMALLINT,
    checksum USMALLINT,
    urgent_ptr USMALLINT,
    options TEXT,
    inserted_at TIMESTAMP,
);
"#;
pub const BRONZE_NETWORK_UDP: &'static str = r#"
CREATE SEQUENCE IF NOT EXISTS bronze_network_udp_serial;
CREATE OR REPLACE TABLE bronze_network_udp (
    _id INTEGER PRIMARY KEY DEFAULT nextval('bronze_network_udp_serial'),
    packet_id UHUGEINT,
    source USMALLINT,
    destination USMALLINT,
    length USMALLINT,
    checksum USMALLINT,
    inserted_at TIMESTAMP,
);
"#;
pub const BRONZE_NETWORK_ICMP: &'static str = r#"
CREATE SEQUENCE IF NOT EXISTS bronze_network_icmp_serial;
CREATE OR REPLACE TABLE bronze_network_icmp (
    _id INTEGER PRIMARY KEY DEFAULT nextval('bronze_network_icmp_serial'),
    packet_id UHUGEINT,
    version USMALLINT,
    type USMALLINT,
    code USMALLINT,
    checksum USMALLINT,
    payload_length UINTEGER,
    inserted_at TIMESTAMP,
);
"#;
pub const BRONZE_NETWORK_TLS: &'static str = r#"
CREATE SEQUENCE IF NOT EXISTS bronze_network_tls_serial;
CREATE OR REPLACE TABLE bronze_network_tls (
    _id INTEGER PRIMARY KEY DEFAULT nextval('bronze_network_tls_serial'),
    packet_id UHUGEINT,
    content_type USMALLINT,
    version USMALLINT,
    length USMALLINT,
    inserted_at TIMESTAMP,
);
"#;
pub const BRONZE_NETWORK_DNS_HEADER: &'static str = r#"
CREATE SEQUENCE IF NOT EXISTS bronze_network_dns_header_serial;
CREATE OR REPLACE TABLE bronze_network_dns_header (
    _id INTEGER PRIMARY KEY DEFAULT nextval('bronze_network_dns_header_serial'),
    packet_id UHUGEINT,
    id USMALLINT,
    is_response USMALLINT,
    opcode USMALLINT,
    is_authoriative USMALLINT,
    is_truncated USMALLINT,
    is_recursion_desirable USMALLINT,
    is_recursion_available USMALLINT,
    zero_reserved USMALLINT,
    is_answer_authenticated USMALLINT,
    is_non_authenticated_data USMALLINT,
    rcode USMALLINT,
    query_count USMALLINT,
    response_count USMALLINT,
    authority_rr_count USMALLINT,
    additional_rr_count USMALLINT,
    inserted_at TIMESTAMP,
);
"#;
pub const BRONZE_NETWORK_DNS_QUERY: &'static str = r#"
CREATE SEQUENCE IF NOT EXISTS bronze_network_dns_query_serial;
CREATE OR REPLACE TABLE bronze_network_dns_query (
    _id INTEGER PRIMARY KEY DEFAULT nextval('bronze_network_dns_query_serial'),
    packet_id UHUGEINT,
    qname UTINYINT[],
    qtype TEXT,
    qclass TEXT,
    inserted_at TIMESTAMP,
);
"#;
pub const BRONZE_NETWORK_DNS_RECORD: &'static str = r#"
CREATE SEQUENCE IF NOT EXISTS bronze_network_dns_response_serial;
CREATE OR REPLACE TABLE bronze_network_dns_response (
    _id INTEGER PRIMARY KEY DEFAULT nextval('bronze_network_dns_response_serial'),
    packet_id UHUGEINT,
    origin USMALLINT,
    name_tag USMALLINT,
    rtype TEXT,
    rclass TEXT,
    ttl UINTEGER,
    rdlength USMALLINT,
    rdata UTINYINT[],
    inserted_at TIMESTAMP,
);"#;
pub const BRONZE_NETWORK_HTTP: &'static str = r#"
CREATE SEQUENCE IF NOT EXISTS bronze_network_http_serial;
CREATE OR REPLACE TABLE bronze_network_http (
    _id INTEGER PRIMARY KEY DEFAULT nextval('bronze_network_http_serial'),
    packet_id UHUGEINT,
    type TEXT,
    method TEXT,
    uri TEXT,
    version TEXT,
    status_code USMALLINT,
    status_text TEXT,
    headers TEXT,
    body TEXT,
    inserted_at TIMESTAMP,
);
"#;
pub const SILVER_PROCESS_LIST: &'static str = r#"
CREATE OR REPLACE TABLE silver_process_list (
    _id INTEGER PRIMARY KEY,
    pid UINTEGER,
    ppid UINTEGER,
    uid INTEGER,
    lstart TIMESTAMP,
    pcpu FLOAT,
    pmem FLOAT,
    status TEXT,
    command TEXT,
    created_at TIMESTAMP,
    brz_ingestion_duration INTERVAL,
    duration INTERVAL,
    inserted_at TIMESTAMP,
    svr_ingestion_duration INTERVAL
);
"#;
pub const SILVER_OPEN_FILES: &'static str = r#"
CREATE OR REPLACE TABLE silver_open_files (
    _id INTEGER PRIMARY KEY,
    command TEXT,
    pid UINTEGER,
    uid INTEGER,
    fd TEXT,
    type TEXT,
    device TEXT,
    size UBIGINT,
    node TEXT,
    name TEXT,
    created_at TIMESTAMP,
    brz_ingestion_duration INTERVAL,
    ip_source_address TEXT,
    ip_source_port TEXT,
    ip_destination_address TEXT,
    ip_destination_port TEXT,
    inserted_at TIMESTAMP,
    svr_ingestion_duration INTERVAL
);
"#;
pub const SILVER_NETWORK_PACKET: &'static str = r#"
CREATE OR REPLACE TABLE silver_network_packet (
    _id UHUGEINT PRIMARY KEY,
    interface TEXT,
    length UINTEGER,
    created_at TIMESTAMP,
    brz_ingestion_duration INTERVAL,
    data_link TEXT,
    network TEXT,
    transport TEXT,
    application TEXT,
    inserted_at TIMESTAMP,
    svr_ingestion_duration INTERVAL
);
"#;
pub const SILVER_NETWORK_INTERFACE_ADDRESS: &'static str = r#"
CREATE OR REPLACE TABLE silver_network_interface_address (
    _id INTEGER PRIMARY KEY,
    interface TEXT,
    address INET,
    broadcast_address INET,
    destination_address INET,
    inserted_at TIMESTAMP,
    svr_ingestion_duration INTERVAL,
);
"#;
pub const SILVER_NETWORK_ETHERNET: &'static str = r#"
CREATE OR REPLACE TABLE silver_network_ethernet (
    _id UHUGEINT PRIMARY KEY,
    source TEXT,
    destination TEXT,
    ether_type USMALLINT,
    payload_length UINTEGER,
    packet_length UINTEGER,
    interface TEXT,
    created_at TIMESTAMP,
    brz_ingestion_duration INTERVAL,
    inserted_at TIMESTAMP,
    svr_ingestion_duration INTERVAL
);
"#;
pub const SILVER_NETWORK_DNS: &'static str = r#"
CREATE OR REPLACE TABLE silver_network_dns (
    _id TEXT PRIMARY KEY,
    packet_id UHUGEINT,
    id USMALLINT,
    is_response USMALLINT,
    opcode USMALLINT,
    is_authoriative USMALLINT,
    is_truncated USMALLINT,
    is_recursion_desirable USMALLINT,
    is_recursion_available USMALLINT,
    zero_reserved USMALLINT,
    is_answer_authenticated USMALLINT,
    is_non_authenticated_data USMALLINT,
    rcode USMALLINT,
    query_count USMALLINT,
    response_count USMALLINT,
    authority_rr_count USMALLINT,
    additional_rr_count USMALLINT,
    qname UTINYINT[],
    qtype TEXT,
    qclass TEXT,
    origin USMALLINT,
    name_tag USMALLINT,
    rtype TEXT,
    rclass TEXT,
    ttl UINTEGER,
    rdlength USMALLINT,
    rdata UTINYINT[],
    created_at TIMESTAMP,
    brz_ingestion_duration INTERVAL,
    question_parsed TEXT,
    response_parsed TEXT,
    inserted_at TIMESTAMP,
    svr_ingestion_duration INTERVAL
);
"#;
pub const SILVER_NETWORK_IP: &'static str = r#"
CREATE OR REPLACE TABLE silver_network_ip (
    _id UHUGEINT PRIMARY KEY,
    version USMALLINT,
    length USMALLINT,
    hop_limit USMALLINT,
    next_protocol USMALLINT,
    source INET,
    destination INET,
    packet_length UINTEGER,
    interface TEXT,
    created_at TIMESTAMP,
    brz_ingestion_duration INTERVAL,
    inserted_at TIMESTAMP,
    svr_ingestion_duration INTERVAL
);
"#;
pub const SILVER_NETWORK_TRANSPORT: &'static str = r#"
CREATE OR REPLACE TABLE silver_network_transport (
    _id UHUGEINT PRIMARY KEY,
    protocol TEXT,
    source USMALLINT,
    destination USMALLINT,
    packet_length UINTEGER,
    interface TEXT,
    created_at TIMESTAMP,
    brz_ingestion_duration INTERVAL,
    inserted_at TIMESTAMP,
    svr_ingestion_duration INTERVAL
);
"#;
pub const SILVER_NETWORK_ARP: &'static str = r#"
CREATE OR REPLACE TABLE silver_network_arp (
    _id UHUGEINT PRIMARY KEY,
    hardware_type USMALLINT,
    protocol_type USMALLINT,
    hw_addr_len USMALLINT,
    proto_addr_len USMALLINT,
    operation USMALLINT,
    sender_hw_addr TEXT,
    sender_proto_addr TEXT,
    target_hw_addr TEXT,
    target_proto_addr TEXT,
    packet_length UINTEGER,
    interface TEXT,
    created_at TIMESTAMP,
    brz_ingestion_duration INTERVAL,
    inserted_at TIMESTAMP,
    svr_ingestion_duration INTERVAL
);
"#;
pub const GOLD_FILE_SERVICE: &'static str = r#"
CREATE OR REPLACE TABLE gold_file_service (
    name TEXT,
    port USMALLINT,
    protocol TEXT,
    inserted_at TIMESTAMP,
    PRIMARY KEY (name, port, protocol)
);
"#;
pub const GOLD_FILE_HOST: &'static str = r#"
CREATE OR REPLACE TABLE gold_file_host (
    name TEXT,
    address TEXT,
    inserted_at TIMESTAMP,
    PRIMARY KEY (name, address)
);
"#;
pub const GOLD_FILE_USER: &'static str = r#"
CREATE OR REPLACE TABLE gold_file_user (
    name TEXT,
    uid INTEGER,
    inserted_at TIMESTAMP,
    PRIMARY KEY (name, uid)
);
"#;
pub const GOLD_DIM_PROCESS: &'static str = r#"
CREATE OR REPLACE TABLE gold_dim_process (
	pid UINTEGER,
	ppid UINTEGER,
	uid INTEGER,
	command TEXT,
	full_command TEXT,
	started_at TIMESTAMP,
	inserted_at TIMESTAMP,
	PRIMARY KEY (pid, started_at)
);
"#;
pub const GOLD_DIM_FILE_REG: &'static str = r#"
CREATE OR REPLACE TABLE gold_dim_file_reg (
	pid UINTEGER,
	uid INTEGER,
	fd TEXT,
	node TEXT,
	command TEXT,
	name TEXT,
	started_at TIMESTAMP,
	inserted_at TIMESTAMP,
	PRIMARY KEY (pid, fd, node)
);
"#;
pub const GOLD_DIM_NETWORK_SOCKET: &'static str = r#"
CREATE OR REPLACE TABLE gold_dim_network_socket (
    _id UBIGINT PRIMARY KEY,
    pid UINTEGER,
    uid INTEGER,
    command TEXT,
    source_address INET,
    source_port USMALLINT,
    destination_address TEXT,
    destination_port USMALLINT,
    started_at TIMESTAMP,
    inserted_at TIMESTAMP
);
"#;
pub const GOLD_DIM_NETWORK_OPEN_PORT: &'static str = r#"
CREATE OR REPLACE TABLE gold_dim_network_open_port (
    pid UINTEGER,
    uid INTEGER,
    command TEXT,
    port USMALLINT,
    started_at TIMESTAMP,
    inserted_at TIMESTAMP,
    PRIMARY KEY (pid, port)
);
"#;
pub const GOLD_DIM_NETWORK_LOCAL_IP: &'static str = r#"
CREATE OR REPLACE TABLE gold_dim_network_local_ip (
    _id UBIGINT PRIMARY KEY,
    address INET,
    interface TEXT,
    started_at TIMESTAMP,
    inserted_at TIMESTAMP,
);
"#;
pub const GOLD_DIM_NETWORK_FOREIGN_IP: &'static str = r#"
CREATE OR REPLACE TABLE gold_dim_network_foreign_ip (
    _id UBIGINT PRIMARY KEY,
    address INET,
    domain_name TEXT,
    started_at TIMESTAMP,
    inserted_at TIMESTAMP,
);
"#;
pub const GOLD_DIM_NETWORK_HOST: &'static str = r#"
CREATE OR REPLACE TABLE gold_dim_network_host (
    _id UBIGINT PRIMARY KEY,
    address INET,
    host TEXT,
    inserted_at TIMESTAMP,
);
"#;
pub const GOLD_FACT_PROCESS: &'static str = r#"
CREATE OR REPLACE TABLE gold_fact_process (
    pid UINTEGER,
    started_at TIMESTAMP,
    created_at TIMESTAMP,
    pcpu FLOAT,
    pmem FLOAT,
    inserted_at TIMESTAMP,
    PRIMARY KEY (pid, started_at, created_at)
);
"#;
pub const GOLD_FACT_FILE_REG: &'static str = r#"
CREATE OR REPLACE TABLE gold_fact_file_reg (
    pid UINTEGER,
	fd TEXT,
	node TEXT,
	created_at TIMESTAMP,
    size UBIGINT,
	inserted_at TIMESTAMP,
	PRIMARY KEY (pid, fd, node, created_at)
);
"#;
pub const GOLD_FACT_NETWORK_PACKET: &'static str = r#"
CREATE OR REPLACE TABLE gold_fact_network_packet (
    _id UHUGEINT PRIMARY KEY,
    interface TEXT,
    length UINTEGER,
    created_at TIMESTAMP,
    data_link TEXT,
    network TEXT,
    transport TEXT,
    application TEXT,
    inserted_at TIMESTAMP
);
"#;
pub const GOLD_FACT_NETWORK_IP: &'static str = r#"
CREATE OR REPLACE TABLE gold_fact_network_ip (
    _id UHUGEINT PRIMARY KEY,
    ip_version UTINYINT,
    transport_protocol TEXT,
    source_address INET,
    source_port USMALLINT,
    destination_address INET,
    destination_port USMALLINT,
    created_at TIMESTAMP,
    inserted_at TIMESTAMP
);
"#;
pub const GOLD_FACT_PROCESS_NETWORK: &'static str = r#"
CREATE OR REPLACE TABLE gold_fact_process_network (
    _id UBIGINT PRIMARY KEY,
    pid UINTEGER,
    packet_id UHUGEINT,
    send BOOLEAN,
    inserted_at TIMESTAMP
);
"#;
pub const GOLD_TECH_TABLE_COUNT: &'static str = r#"
CREATE OR REPLACE TABLE gold_tech_table_count (
	_id USMALLINT PRIMARY KEY,
	name TEXT,
	max_count BIGINT,
	last_count BIGINT,
	inserted_at TIMESTAMP
);
"#;
pub const GOLD_TECH_CHRONO: &'static str = r#"
CREATE OR REPLACE TABLE gold_tech_chrono (
	name TEXT PRIMARY KEY,
	brz_max_ingest FLOAT,
	brz_min_ingest FLOAT,
	svr_max_ingest FLOAT,
	svr_min_ingest FLOAT,
	max_ingest FLOAT,
	min_ingest FLOAT,
	inserted_at TIMESTAMP
);
"#;
/// The table requests written on the first line of the schema request.
pub open spec fn schema_head() -> Seq<Seq<char>> {
    seq![
        BRONZE_PROCESS_LIST@,
        BRONZE_OPEN_FILES@,
        BRONZE_NETWORK_PACKET@,
        BRONZE_NETWORK_INTERFACE_ADDRESS@,
        BRONZE_NETWORK_ETHERNET@,
        BRONZE_NETWORK_IPV4@,
        BRONZE_NETWORK_IPV6@,
        BRONZE_NETWORK_ARP@,
        BRONZE_NETWORK_TCP@,
        BRONZE_NETWORK_UDP@,
        BRONZE_NETWORK_ICMP@,
        BRONZE_NETWORK_TLS@,
        BRONZE_NETWORK_DNS_HEADER@,
        BRONZE_NETWORK_DNS_QUERY@,
        BRONZE_NETWORK_DNS_RECORD@,
        BRONZE_NETWORK_HTTP@,
        SILVER_PROCESS_LIST@,
        SILVER_OPEN_FILES@,
        SILVER_NETWORK_PACKET@,
        SILVER_NETWORK_INTERFACE_ADDRESS@,
        SILVER_NETWORK_ETHERNET@,
        SILVER_NETWORK_DNS@,
        SILVER_NETWORK_IP@,
        SILVER_NETWORK_TRANSPORT@,
        SILVER_NETWORK_ARP@,
        GOLD_FILE_SERVICE@,
        GOLD_FILE_HOST@,
        GOLD_FILE_USER@,
        GOLD_DIM_PROCESS@,
    ]
}

/// The table requests written on the second line of the schema request.
pub open spec fn schema_tail() -> Seq<Seq<char>> {
    seq![
        GOLD_DIM_FILE_REG@,
        GOLD_DIM_NETWORK_SOCKET@,
        GOLD_DIM_NETWORK_OPEN_PORT@,
        GOLD_DIM_NETWORK_LOCAL_IP@,
        GOLD_DIM_NETWORK_FOREIGN_IP@,
        GOLD_DIM_NETWORK_HOST@,
        GOLD_FACT_PROCESS@,
        GOLD_FACT_FILE_REG@,
        GOLD_FACT_NETWORK_PACKET@,
        GOLD_FACT_NETWORK_IP@,
        GOLD_FACT_PROCESS_NETWORK@,
        GOLD_TECH_TABLE_COUNT@,
        GOLD_TECH_CHRONO@,
    ]
}

/// What parts the two lines of the schema request.
pub open spec fn line_break() -> Seq<char> {
    "\n           "@
}

/// The request that creates every table: the requests of the first line
/// joined by spaces, a line break, and those of the second line joined by
/// spaces.
pub open spec fn schema_text() -> Seq<char> {
    join(schema_head(), " "@) + line_break() + join(schema_tail(), " "@)
}
/// The character vectors of the given table requests.
fn head_parts() -> (r: Vec<Vec<char>>)
    ensures
        views(r@) == schema_head(),
{
    let mut parts: Vec<Vec<char>> = Vec::new();
    push_piece(&mut parts, chars_of(BRONZE_PROCESS_LIST));
    push_piece(&mut parts, chars_of(BRONZE_OPEN_FILES));
    push_piece(&mut parts, chars_of(BRONZE_NETWORK_PACKET));
    push_piece(&mut parts, chars_of(BRONZE_NETWORK_INTERFACE_ADDRESS));
    push_piece(&mut parts, chars_of(BRONZE_NETWORK_ETHERNET));
    push_piece(&mut parts, chars_of(BRONZE_NETWORK_IPV4));
    push_piece(&mut parts, chars_of(BRONZE_NETWORK_IPV6));
    push_piece(&mut parts, chars_of(BRONZE_NETWORK_ARP));
    push_piece(&mut parts, chars_of(BRONZE_NETWORK_TCP));
    push_piece(&mut parts, chars_of(BRONZE_NETWORK_UDP));
    push_piece(&mut parts, chars_of(BRONZE_NETWORK_ICMP));
    push_piece(&mut parts, chars_of(BRONZE_NETWORK_TLS));
    push_piece(&mut parts, chars_of(BRONZE_NETWORK_DNS_HEADER));
    push_piece(&mut parts, chars_of(BRONZE_NETWORK_DNS_QUERY));
    push_piece(&mut parts, chars_of(BRONZE_NETWORK_DNS_RECORD));
    push_piece(&mut parts, chars_of(BRONZE_NETWORK_HTTP));
    push_piece(&mut parts, chars_of(SILVER_PROCESS_LIST));
    push_piece(&mut parts, chars_of(SILVER_OPEN_FILES));
    push_piece(&mut parts, chars_of(SILVER_NETWORK_PACKET));
    push_piece(&mut parts, chars_of(SILVER_NETWORK_INTERFACE_ADDRESS));
    push_piece(&mut parts, chars_of(SILVER_NETWORK_ETHERNET));
    push_piece(&mut parts, chars_of(SILVER_NETWORK_DNS));
    push_piece(&mut parts, chars_of(SILVER_NETWORK_IP));
    push_piece(&mut parts, chars_of(SILVER_NETWORK_TRANSPORT));
    push_piece(&mut parts, chars_of(SILVER_NETWORK_ARP));
    push_piece(&mut parts, chars_of(GOLD_FILE_SERVICE));
    push_piece(&mut parts, chars_of(GOLD_FILE_HOST));
    push_piece(&mut parts, chars_of(GOLD_FILE_USER));
    push_piece(&mut parts, chars_of(GOLD_DIM_PROCESS));
    proof {
        assert(views(parts@) =~= schema_head());
    }
    parts
}

/// The character vectors of the table requests of the second line.
fn tail_parts() -> (r: Vec<Vec<char>>)
    ensures
        views(r@) == schema_tail(),
{
    let mut parts: Vec<Vec<char>> = Vec::new();
    push_piece(&mut parts, chars_of(GOLD_DIM_FILE_REG));
    push_piece(&mut parts, chars_of(GOLD_DIM_NETWORK_SOCKET));
    push_piece(&mut parts, chars_of(GOLD_DIM_NETWORK_OPEN_PORT));
    push_piece(&mut parts, chars_of(GOLD_DIM_NETWORK_LOCAL_IP));
    push_piece(&mut parts, chars_of(GOLD_DIM_NETWORK_FOREIGN_IP));
    push_piece(&mut parts, chars_of(GOLD_DIM_NETWORK_HOST));
    push_piece(&mut parts, chars_of(GOLD_FACT_PROCESS));
    push_piece(&mut parts, chars_of(GOLD_FACT_FILE_REG));
    push_piece(&mut parts, chars_of(GOLD_FACT_NETWORK_PACKET));
    push_piece(&mut parts, chars_of(GOLD_FACT_NETWORK_IP));
    push_piece(&mut parts, chars_of(GOLD_FACT_PROCESS_NETWORK));
    push_piece(&mut parts, chars_of(GOLD_TECH_TABLE_COUNT));
    push_piece(&mut parts, chars_of(GOLD_TECH_CHRONO));
    proof {
        assert(views(parts@) =~= schema_tail());
    }
    parts
}

/// The request that creates every table of the pipeline.
pub fn create_schema_request() -> (r: String)
    ensures
        r@ == schema_text(),
{
    let mut text = join_exec(&head_parts(), &chars_of(" "));
    append_chars(&mut text, &chars_of("\n           "));
    append_chars(&mut text, &join_exec(&tail_parts(), &chars_of(" ")));
    string_from_chars(&text)
}

} // verus!

verus! {

// ---------------------------------------------------------------------------
// Table names
// ---------------------------------------------------------------------------

/// The pattern of a table creation, the table's name as its first group.
pub const TABLE_REGEX: &'static str = r"CREATE OR REPLACE TABLE\s+(\w+)\s*\(";

/// The groups of each table creation that the pattern finds in the schema
/// request.
pub open spec fn schema_matches() -> Seq<Seq<Option<Seq<char>>>> {
    regex_captures_all(TABLE_REGEX@, schema_text())
}

/// Each match has a first group.
pub open spec fn all_named(ms: Seq<Seq<Option<Seq<char>>>>) -> bool {
    forall|i: int| 0 <= i < ms.len() ==> #[trigger] ms[i].len() > 1 && ms[i][1] is Some
}

/// The table names can be read from the schema request: the pattern builds
/// and each of its matches has a first group.
pub open spec fn schema_readable() -> bool {
    regex_builds(TABLE_REGEX@) && all_named(schema_matches())
}

/// The first group of each match.
pub open spec fn first_groups(ms: Seq<Seq<Option<Seq<char>>>>) -> Seq<Seq<char>> {
    ms.map_values(|m: Seq<Option<Seq<char>>>| m[1]->0)
}

/// The names of the tables, in the order in which the schema request creates
/// them.
pub open spec fn table_names() -> Seq<Seq<char>> {
    first_groups(schema_matches())
}

/// The first group of each match, or `None` when a match has none.
fn first_groups_exec(ms: &Vec<Vec<Option<String>>>) -> (r: Option<Vec<String>>)
    ensures
        r is Some <==> all_named(matches_view(ms@)),
        r matches Some(v) ==> strings(v@) == first_groups(matches_view(ms@)),
{
    let ghost mv = matches_view(ms@);
    let mut out: Vec<String> = Vec::new();
    let mut i: usize = 0;
    while i < ms.len()
        invariant
            i <= ms@.len(),
            mv == matches_view(ms@),
            all_named(mv.take(i as int)),
            strings(out@) == first_groups(mv.take(i as int)),
        decreases ms@.len() - i,
    {
        let m = &ms[i];
        proof {
            assert(mv[i as int] == crate::pattern::groups_view(m@));
        }
        if m.len() < 2 || m[1].is_none() {
            proof {
                assert(!(mv[i as int].len() > 1 && mv[i as int][1] is Some));
            }
            return None;
        }
        let name = match &m[1] {
            Some(s) => s.clone(),
            None => String::new(),
        };
        proof {
            assert(mv[i as int][1] == Some(name@));
        }
        let ghost before = out@;
        out.push(name);
        proof {
            let t = mv.take(i + 1);
            assert(t =~= mv.take(i as int).push(mv[i as int]));
            assert(strings(out@) =~= strings(before).push(name@));
            assert(first_groups(t) =~= first_groups(mv.take(i as int)).push(name@));
            assert(strings(out@) =~= first_groups(t));
            assert forall|k: int| 0 <= k < t.len() implies #[trigger] t[k].len() > 1 && t[k][1] is Some by {
                if k < i {
                    assert(t[k] == mv.take(i as int)[k]);
                }
            }
        }
        i = i + 1;
    }
    proof {
        assert(mv.take(ms@.len() as int) =~= mv);
    }
    Some(out)
}

/// The names of the tables that the schema request creates, in order.
pub fn get_schema() -> (r: Vec<String>)
    requires
        schema_readable(),
    ensures
        strings(r@) == table_names(),
{
    let p = match compile(TABLE_REGEX) {
        Some(p) => p,
        None => return Vec::new(),
    };
    let text = create_schema_request();
    let ms = captures_all(&p, text.as_str());
    match first_groups_exec(&ms) {
        Some(v) => v,
        None => Vec::new(),
    }
}

/// The names of the tables that the schema request creates, or `None` when
/// they cannot be read from it.
pub fn try_get_schema() -> (r: Option<Vec<String>>)
    ensures
        r is Some <==> schema_readable(),
        r matches Some(v) ==> strings(v@) == table_names(),
{
    let p = match compile(TABLE_REGEX) {
        Some(p) => p,
        None => return None,
    };
    let text = create_schema_request();
    let ms = captures_all(&p, text.as_str());
    match first_groups_exec(&ms) {
        Some(_) => Some(get_schema()),
        None => None,
    }
}

// ---------------------------------------------------------------------------
// Table descriptions
// ---------------------------------------------------------------------------

/// A column of a table.
#[derive(Debug, Clone)]
pub struct Column {
    pub name: String,
    pub is_autoincrement: bool,
}

/// A table and its columns, in order.
#[derive(Debug, Clone)]
pub struct Table {
    pub name: String,
    pub columns: Vec<Column>,
}

/// The tables of a database.
#[derive(Debug, Clone)]
pub struct Schema {
    pub tables: Vec<Table>,
}

} // verus!
