use rstracer::etc::host::{parse_host_row, Host};
use rstracer::etc::service::Service;
use rstracer::etc::{passwd, user};

fn host(name: &str, address: &str) -> Host {
    Host {
        name: name.to_string(),
        address: address.to_string(),
    }
}

#[test]
fn test_read_etc_file() {
    let contents = "127.0.0.1\tlocalhost\n255.255.255.255\tbroadcasthost\n# Comment line\n172.22.17.10\thello.database.windows.net other.net\n";
    let hosts = Host::parse_etc_file(contents);
    assert_eq!(hosts.len(), 4);
    assert!(hosts.contains(&host("hello.database.windows.net", "172.22.17.10")));
    assert!(hosts.contains(&host("other.net", "172.22.17.10")));
    assert!(hosts.contains(&host("localhost", "127.0.0.1")));
    assert!(hosts.contains(&host("broadcasthost", "255.255.255.255")));
}

#[test]
fn test_read_etc_file_with_duplicates() {
    let contents = "127.0.0.1\tlocalhost\n127.0.0.1\tlocalhost\n# Comment line\n172.22.17.10\thello.database.windows.net\n";
    let hosts = Host::parse_etc_file(contents);
    assert_eq!(hosts.len(), 2);
    assert!(hosts.contains(&host("hello.database.windows.net", "172.22.17.10")));
    assert!(hosts.contains(&host("localhost", "127.0.0.1")));
}

#[test]
fn test_read_etc_file_empty() {
    let hosts = Host::parse_etc_file("");
    assert_eq!(hosts.len(), 0);
}

#[test]
fn test_read_etc_file_no_hosts() {
    let hosts = Host::parse_etc_file("# This is a comment\n# Another comment\n");
    assert_eq!(hosts.len(), 0);
}

#[test]
fn test_parse_host_row_simple() {
    let host_row = parse_host_row("127.0.0.1\tlocalhost");
    assert_eq!(host_row.len(), 1);
    assert_eq!(host_row[0], host("localhost", "127.0.0.1"));
}

#[test]
fn test_parse_host_row_multiple() {
    let host_row = parse_host_row("127.0.0.1\tlocalhost loopback");
    assert_eq!(host_row.len(), 2);
    assert_eq!(host_row[0], host("localhost", "127.0.0.1"));
    assert_eq!(host_row[1], host("loopback", "127.0.0.1"));
}

#[test]
fn hosts_keep_first_occurrence_order() {
    let hosts = Host::parse_etc_file("10.0.0.1 a b\n10.0.0.2 b\n10.0.0.1 b a\n#10.0.0.3 c\n");
    assert_eq!(
        hosts,
        vec![host("a", "10.0.0.1"), host("b", "10.0.0.1"), host("b", "10.0.0.2")]
    );
}

#[test]
fn host_row_with_single_word_gives_nothing() {
    assert!(parse_host_row("127.0.0.1").is_empty());
    assert!(parse_host_row("   ").is_empty());
}

#[test]
fn test_parse_dscl_output_success() {
    let output = "user1 501\nuser2 502\n";
    let result = passwd::parse_dscl_output(output).unwrap();
    let expected = vec![
        passwd::User {
            name: "user1".to_string(),
            uid: 501,
        },
        passwd::User {
            name: "user2".to_string(),
            uid: 502,
        },
    ];
    assert_eq!(result, expected);
}

#[test]
fn test_parse_dscl_with_space_name() {
    let output = "user one 10";
    let result = passwd::parse_dscl_output(output).unwrap();
    assert_eq!(
        result,
        vec![passwd::User {
            name: "user one".to_string(),
            uid: 10,
        }]
    );
}

#[test]
fn test_parse_dscl_output_malformed_input() {
    let output = "user1\nuser2 502";
    let result = passwd::parse_dscl_output(output);
    assert!(result.is_err());
}

#[test]
fn test_parse_dscl_output_empty_output() {
    let result = passwd::parse_dscl_output("").unwrap();
    let expected: Vec<passwd::User> = vec![];
    assert_eq!(result, expected);
}

#[test]
fn passwd_cut_output_reads_16_bit_uids() {
    let result = passwd::parse_cut_output("root:0\n# c\nnobody:-2\n").unwrap();
    assert_eq!(
        result,
        vec![
            passwd::User { name: "root".to_string(), uid: 0 },
            passwd::User { name: "nobody".to_string(), uid: -2 },
        ]
    );
    assert_eq!(passwd::parse_cut_output("big:40000"), Err(rstracer::etc::Error::ParseInt));
}

#[test]
fn test_parse_cut_output_valid_data() {
    let output = "john:1000\nmary:1001\n# comment line\npaul:1002";
    let expected = vec![
        user::User {
            name: "john".to_string(),
            uid: 1000,
        },
        user::User {
            name: "mary".to_string(),
            uid: 1001,
        },
        user::User {
            name: "paul".to_string(),
            uid: 1002,
        },
    ];
    let result = user::parse_cut_output(output).unwrap();
    assert_eq!(result, expected);
}

#[test]
fn test_parse_cut_output_invalid_uid() {
    let output = "john:not_a_number\nmary:1001";
    let result = user::parse_cut_output(output);
    assert!(result.is_err());
}

#[test]
fn test_parse_cut_output_empty_lines_and_comments() {
    let output = "# this is a comment line\n\nmary:1001\n\n";
    let expected = vec![user::User {
        name: "mary".to_string(),
        uid: 1001,
    }];
    let result = user::parse_cut_output(output).unwrap();
    assert_eq!(result, expected);
}

#[test]
fn test_parse_cut_output_empty_input() {
    let output = "";
    let expected: Vec<user::User> = vec![];
    let result = user::parse_cut_output(output).unwrap();
    assert_eq!(result, expected);
}

fn service(name: &str, port: u16, protocol: &str) -> Service {
    Service {
        name: name.to_string(),
        port,
        protocol: protocol.to_string(),
    }
}

#[test]
fn test_read_etc_file_valid_content() {
    let contents = "http           80/tcp\nhttps          443/tcp\nntp            123/udp\n";
    let services = Service::parse_etc_file(contents).unwrap();
    let expected = vec![
        service("http", 80, "tcp"),
        service("https", 443, "tcp"),
        service("ntp", 123, "udp"),
    ];
    assert_eq!(services, expected);
}

#[test]
fn test_read_etc_file_invalid_content() {
    let services = Service::parse_etc_file("invalid_entry\nhttp           eighty/tcp\n").unwrap();
    assert_eq!(services.len(), 0);
}

#[test]
fn test_read_etc_file_empty_file() {
    let services = Service::parse_etc_file("").unwrap();
    assert_eq!(services.len(), 0);
}

#[test]
fn service_port_out_of_range_is_an_error() {
    assert_eq!(
        Service::parse_etc_file("big 99999/tcp\n"),
        Err(rstracer::etc::Error::ParseInt)
    );
}

#[test]
fn readability_of_user_listings() {
    assert!(passwd::cut_output_readable("john:1000\n# comment\nmary:1001"));
    assert!(!passwd::cut_output_readable("john:1000\nnobody"));
    assert!(passwd::cut_output_readable("john:x\nnobody"));
    assert!(!passwd::cut_output_readable("john:1000\n\n"));
    assert!(user::cut_output_readable("john:1000\n\nmary:1001\n"));
    assert!(passwd::dscl_output_readable("user1 501\nuser2 502\n"));
    assert!(!passwd::dscl_output_readable("user1 501\n\nuser2 502"));
}
