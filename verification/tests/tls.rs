use rstracer::network::tls::{Tls, TlsContentType, TlsVersion};

#[test]
fn test_tls_content_type_try_from() {
    assert_eq!(TlsContentType::try_from(0x14).unwrap(), TlsContentType::ChangeCipherSpec);
    assert_eq!(TlsContentType::try_from(0x15).unwrap(), TlsContentType::Alert);
    assert_eq!(TlsContentType::try_from(0x16).unwrap(), TlsContentType::Handshake);
    assert_eq!(TlsContentType::try_from(0x17).unwrap(), TlsContentType::ApplicationData);
    assert_eq!(TlsContentType::try_from(0x18).unwrap(), TlsContentType::Heartbeat);
    assert!(TlsContentType::try_from(0x19).is_err());
}

#[test]
fn test_tls_version_try_from() {
    assert_eq!(TlsVersion::try_from(2).unwrap(), TlsVersion::SSL20);
    assert_eq!(TlsVersion::try_from(768).unwrap(), TlsVersion::SSL30);
    assert_eq!(TlsVersion::try_from(769).unwrap(), TlsVersion::TLS10);
    assert_eq!(TlsVersion::try_from(770).unwrap(), TlsVersion::TLS11);
    assert_eq!(TlsVersion::try_from(771).unwrap(), TlsVersion::TLS12);
    assert_eq!(TlsVersion::try_from(772).unwrap(), TlsVersion::TLS13);
    assert!(TlsVersion::try_from(773).is_err());
}

#[test]
fn test_parse_header_bytes() {
    let bytes = [0x16, 0x03, 0x03, 0x00, 0x05];
    let (remaining, (content_type, version, length)) = Tls::parse_header_bytes(&bytes).unwrap();
    assert_eq!(content_type, 0x16);
    assert_eq!(version, 0x0303);
    assert_eq!(length, 5);
    assert!(remaining.is_empty());
}

#[test]
fn test_tls_from_bytes_valid() {
    let bytes = [0x16, 0x03, 0x03, 0x00, 0x05, 0x01, 0x02, 0x03, 0x04, 0x05];
    let tls = Tls::from_bytes(&bytes).unwrap();
    assert_eq!(tls.content_type, TlsContentType::Handshake);
    assert_eq!(tls.version, TlsVersion::TLS12);
    assert_eq!(tls.length, 5);
    assert_eq!(tls.payload, vec![0x01, 0x02, 0x03, 0x04, 0x05]);
}

#[test]
fn test_tls_from_bytes_invalid() {
    let bytes = [0xFF, 0x03, 0x03, 0x00, 0x05, 0x01, 0x02, 0x03, 0x04, 0x05];
    let tls = Tls::from_bytes(&bytes);
    assert!(tls.is_err());
}

#[test]
fn test_tls_new_valid() {
    let payload = [0x01, 0x02, 0x03, 0x04, 0x05];
    let tls = Tls::new(0x16, 0x0303, 5, &payload).unwrap();
    assert_eq!(tls.content_type, TlsContentType::Handshake);
    assert_eq!(tls.version, TlsVersion::TLS12);
    assert_eq!(tls.length, 5);
    assert_eq!(tls.payload, vec![0x01, 0x02, 0x03, 0x04, 0x05]);
}

#[test]
fn test_tls_new_invalid_content_type() {
    let payload = [0x01, 0x02, 0x03, 0x04, 0x05];
    assert!(Tls::new(0xFF, 0x0303, 5, &payload).is_err());
}

#[test]
fn test_tls_new_invalid_version() {
    let payload = [0x01, 0x02, 0x03, 0x04, 0x05];
    assert!(Tls::new(0x16, 0xFFFF, 5, &payload).is_err());
}

#[test]
fn short_record_header_is_an_error() {
    assert!(Tls::parse_header_bytes(&[0x16, 0x03, 0x03, 0x00]).is_err());
    assert!(Tls::from_bytes(&[]).is_err());
}

#[test]
fn codes_round_trip() {
    for t in [
        TlsContentType::ChangeCipherSpec,
        TlsContentType::Alert,
        TlsContentType::Handshake,
        TlsContentType::ApplicationData,
        TlsContentType::Heartbeat,
    ] {
        assert_eq!(TlsContentType::try_from(t.to_u8()).unwrap(), t);
    }
    assert_eq!(TlsVersion::TLS13.to_u16(), 772);
    assert_eq!(TlsVersion::try_from(TlsVersion::SSL20.to_u16()).unwrap(), TlsVersion::SSL20);
}
