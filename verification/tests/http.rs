use rstracer::network::http::{Http, HttpHeader, HttpInstruction, HttpMethod, HttpType, HttpVersion};
use rstracer::network::Error;

fn create_http_packet() -> Vec<u8> {
    let content = "name=ChatGPT&language=Rust";
    format!(
        "POST /submit HTTP/1.1\r\n\
    Host: example.com\r\n\
    Content-Type: application/x-www-form-urlencoded\r\n\
    Content-Length: {}\r\n\
    Connection: close\r\n\r\n\
    {}",
        content.len(),
        content
    )
    .as_bytes()
    .to_vec()
}

#[test]
fn test_http_instruction_request_from_str() {
    let instruction = "GET /websiteos/example.com HTTP/1.1";
    let instruction = HttpInstruction::from_str(instruction).unwrap();

    assert_eq!(instruction._type, HttpType::Request);
    assert_eq!(instruction.method.unwrap(), HttpMethod::Get);
    assert_eq!(instruction.uri.unwrap(), "/websiteos/example.com");
    assert_eq!(instruction.version, HttpVersion::V1_1);
    assert!(instruction.status_code.is_none());
    assert!(instruction.status_text.is_none());
}

#[test]
fn test_http_instruction_response_from_str() {
    let instruction = "HTTP/2 304 Not Modified";
    let instruction = HttpInstruction::from_str(instruction).unwrap();

    assert_eq!(instruction._type, HttpType::Response);
    assert!(instruction.method.is_none());
    assert!(instruction.uri.is_none());
    assert_eq!(instruction.version, HttpVersion::V2);
    assert_eq!(instruction.status_code.unwrap(), 304);
    assert_eq!(instruction.status_text.unwrap(), "Not Modified");
}

#[test]
fn test_http_instruction_from_str_invalid() {
    let instruction = "invalid HTTP/1.1 304 Not Modified";
    let instruction = HttpInstruction::from_str(instruction);
    assert!(instruction.is_err());
}

#[test]
fn test_http_header_from_lines() {
    let header = vec![
        "Host: example.com",
        "Content-Type: application/x-www-form-urlencoded",
        "Content-Length: 26",
        "Connection: close",
    ];
    let header = HttpHeader::from_lines(&header);

    let headers = header.unwrap().headers;
    assert_eq!(headers.get("Host").unwrap(), "example.com");
    assert_eq!(
        headers.get("Content-Type").unwrap(),
        "application/x-www-form-urlencoded"
    );
    assert_eq!(headers.get("Content-Length").unwrap(), "26");
    assert_eq!(headers.get("Connection").unwrap(), "close");
}

#[test]
fn test_http_header_from_lines_invalid() {
    let header = vec!["Host example.com"];
    let header = HttpHeader::from_lines(&header);

    assert!(header.is_err())
}

#[test]
fn test_http_from_bytes() {
    let packet = create_http_packet();

    let http = Http::from_bytes(&packet).unwrap();

    let instruction = http.instruction;
    assert_eq!(instruction.method.unwrap(), HttpMethod::Post);
    let headers = http.headers;
    assert_eq!(headers.headers.get("Host").unwrap(), "example.com");
    assert_eq!(http.body, "name=ChatGPT&language=Rust");
}

#[test]
fn test_http_from_bytes_invalid() {
    let packet = "POST /submit HTTP/1.1\r\n\
    Host: example.com\r\n\
    Connection: close"
        .as_bytes();

    let http = Http::from_bytes(packet);
    assert!(http.is_err());
}

#[test]
fn later_header_line_replaces_earlier_one() {
    let header = HttpHeader::from_lines(&["A: 1", "B: 2", "a: 3", "A:4"]).unwrap();
    assert_eq!(header.headers.len(), 3);
    assert_eq!(header.headers.get("A").unwrap(), "4");
    assert_eq!(header.headers.get("a").unwrap(), "3");
    assert!(header.headers.get("C").is_none());
    assert_eq!(header.headers.entry(0).0, "A");
}

#[test]
fn header_value_keeps_later_colons() {
    let header = HttpHeader::from_lines(&["Host:  example.com:8080  "]).unwrap();
    assert_eq!(header.headers.get("Host").unwrap(), "example.com:8080");
}

#[test]
fn methods_and_versions_ignore_case() {
    assert_eq!(HttpMethod::from_str("gEt"), Ok(HttpMethod::Get));
    assert_eq!(HttpMethod::from_str("TRACE"), Ok(HttpMethod::Trace));
    assert_eq!(HttpMethod::from_str("fetch"), Err(()));
    assert_eq!(HttpVersion::from_str("Http/3"), Ok(HttpVersion::V3));
    assert_eq!(HttpVersion::from_str("HTTP/4"), Err(()));
    assert_eq!(HttpVersion::V0_9.to_string(), "HTTP/0.9");
    assert_eq!(HttpMethod::Connect.to_string(), "connect");
}

#[test]
fn body_keeps_its_line_breaks() {
    let packet = b"HTTP/1.0 200 OK\r\nA: b\r\n\r\nline1\r\nline2".to_vec();
    let http = Http::from_bytes(&packet).unwrap();
    assert_eq!(http.instruction._type, HttpType::Response);
    assert_eq!(http.instruction.status_code, Some(200));
    assert_eq!(http.instruction.status_text.unwrap(), "OK");
    assert_eq!(http.body, "line1\r\nline2");
}

#[test]
fn invalid_utf8_and_empty_packets_are_errors() {
    assert_eq!(Http::from_bytes(&[]).unwrap_err(), Error::NomParsing);
    assert_eq!(Http::from_bytes(&[0xff, 0xfe, b'\r', b'\n', b'\r', b'\n']).unwrap_err(), Error::NomParsing);
}

#[test]
fn response_with_bad_status_code_is_an_error() {
    assert!(HttpInstruction::from_str("HTTP/1.1 70000 Too Big").is_err());
}

#[test]
fn request_and_status_lines_read_alone() {
    let request = HttpInstruction::request_from_str("DELETE /item/3 HTTP/1.0").unwrap();
    assert_eq!(request.method.unwrap(), HttpMethod::Delete);
    assert_eq!(request.uri.unwrap(), "/item/3");
    assert_eq!(request.version, HttpVersion::V1_0);
    assert!(HttpInstruction::request_from_str("HTTP/1.1 200 OK").is_err());

    let status = HttpInstruction::response_from_str("HTTP/1.1 404   Not   Found").unwrap();
    assert_eq!(status.status_code.unwrap(), 404);
    assert_eq!(status.status_text.unwrap(), "Not Found");
    assert!(HttpInstruction::response_from_str("HTTP/1.1 OK").is_err());
}
