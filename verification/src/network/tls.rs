//! TLS records: the five-byte record header and the payload after it.
use vstd::prelude::*;
use crate::network::Error;

verus! {

/// The content type of a record.
#[derive(Debug, Clone, Copy, PartialEq, Eq, Structural)]
pub enum TlsContentType {
    ChangeCipherSpec,
    Alert,
    Handshake,
    ApplicationData,
    Heartbeat,
}

/// The protocol version of a record.
#[derive(Debug, Clone, Copy, PartialEq, Eq, Structural)]
pub enum TlsVersion {
    SSL20,
    SSL30,
    TLS10,
    TLS11,
    TLS12,
    TLS13,
}

impl TlsContentType {
    /// The byte that stands for the content type.
    pub open spec fn code(self) -> u8 {
        match self {
            TlsContentType::ChangeCipherSpec => 20,
            TlsContentType::Alert => 21,
            TlsContentType::Handshake => 22,
            TlsContentType::ApplicationData => 23,
            TlsContentType::Heartbeat => 24,
        }
    }

    /// The content type that a byte stands for.
    pub open spec fn of_code(b: u8) -> Option<TlsContentType> {
        if b == 20 {
            Some(TlsContentType::ChangeCipherSpec)
        } else if b == 21 {
            Some(TlsContentType::Alert)
        } else if b == 22 {
            Some(TlsContentType::Handshake)
        } else if b == 23 {
            Some(TlsContentType::ApplicationData)
        } else if b == 24 {
            Some(TlsContentType::Heartbeat)
        } else {
            None
        }
    }

    /// The content type that a byte stands for.
    pub fn try_from(byte: u8) -> (r: Result<Self, ()>)
        ensures
            r matches Ok(t) ==> Self::of_code(byte) == Some(t),
            r is Err ==> Self::of_code(byte) is None,
    {
        match byte {
            0x14 => Ok(TlsContentType::ChangeCipherSpec),
            0x15 => Ok(TlsContentType::Alert),
            0x16 => Ok(TlsContentType::Handshake),
            0x17 => Ok(TlsContentType::ApplicationData),
            0x18 => Ok(TlsContentType::Heartbeat),
            _ => Err(()),
        }
    }

    /// The byte that stands for the content type.
    pub fn to_u8(&self) -> (r: u8)
        ensures
            r == self.code(),
    {
        match self {
            TlsContentType::ChangeCipherSpec => 20,
            TlsContentType::Alert => 21,
            TlsContentType::Handshake => 22,
            TlsContentType::ApplicationData => 23,
            TlsContentType::Heartbeat => 24,
        }
    }
}

impl TlsVersion {
    /// The number that stands for the version.
    pub open spec fn code(self) -> u16 {
        match self {
            TlsVersion::SSL20 => 2,
            TlsVersion::SSL30 => 768,
            TlsVersion::TLS10 => 769,
            TlsVersion::TLS11 => 770,
            TlsVersion::TLS12 => 771,
            TlsVersion::TLS13 => 772,
        }
    }

    /// The version that a number stands for.
    pub open spec fn of_code(v: u16) -> Option<TlsVersion> {
        if v == 2 {
            Some(TlsVersion::SSL20)
        } else if v == 768 {
            Some(TlsVersion::SSL30)
        } else if v == 769 {
            Some(TlsVersion::TLS10)
        } else if v == 770 {
            Some(TlsVersion::TLS11)
        } else if v == 771 {
            Some(TlsVersion::TLS12)
        } else if v == 772 {
            Some(TlsVersion::TLS13)
        } else {
            None
        }
    }

    /// The version that a number stands for.
    pub fn try_from(version: u16) -> (r: Result<Self, ()>)
        ensures
            r matches Ok(t) ==> Self::of_code(version) == Some(t),
            r is Err ==> Self::of_code(version) is None,
    {
        match version {
            2 => Ok(TlsVersion::SSL20),
            768 => Ok(TlsVersion::SSL30),
            769 => Ok(TlsVersion::TLS10),
            770 => Ok(TlsVersion::TLS11),
            771 => Ok(TlsVersion::TLS12),
            772 => Ok(TlsVersion::TLS13),
            _ => Err(()),
        }
    }

    /// The number that stands for the version.
    pub fn to_u16(&self) -> (r: u16)
        ensures
            r == self.code(),
    {
        match self {
            TlsVersion::SSL20 => 2,
            TlsVersion::SSL30 => 768,
            TlsVersion::TLS10 => 769,
            TlsVersion::TLS11 => 770,
            TlsVersion::TLS12 => 771,
            TlsVersion::TLS13 => 772,
        }
    }
}

/// Each byte that a content type stands for reads back as that content type.
pub proof fn tls_content_type_code_roundtrip(t: TlsContentType)
    ensures
        TlsContentType::of_code(t.code()) == Some(t),
{
}

/// Each number that a version stands for reads back as that version.
pub proof fn tls_version_code_roundtrip(v: TlsVersion)
    ensures
        TlsVersion::of_code(v.code()) == Some(v),
{
}

/// A record.
#[derive(Debug, Clone)]
pub struct Tls {
    pub content_type: TlsContentType,
    pub version: TlsVersion,
    pub length: u16,
    pub payload: Vec<u8>,
}

/// A big-endian 16-bit number.
pub open spec fn be_u16(hi: u8, lo: u8) -> u16 {
    (hi as int * 256 + lo as int) as u16
}

/// The record header that starts `bytes`: content type byte, version and
/// length (both big-endian), and the bytes after it; `None` when fewer than
/// five bytes are given.
pub open spec fn header_spec(bytes: Seq<u8>) -> Option<(Seq<u8>, (u8, u16, u16))> {
    if bytes.len() < 5 {
        None
    } else {
        Some((bytes.skip(5), (bytes[0], be_u16(bytes[1], bytes[2]), be_u16(bytes[3], bytes[4]))))
    }
}

/// The record that the header fields and the payload make, if the content
/// type and the version are known.
pub open spec fn record_spec(content_type: u8, version: u16, length: u16, payload: Seq<u8>) -> Option<
    (TlsContentType, TlsVersion, u16, Seq<u8>),
> {
    match TlsContentType::of_code(content_type) {
        Some(t) => match TlsVersion::of_code(version) {
            Some(v) => Some((t, v, length, payload)),
            None => None,
        },
        None => None,
    }
}

/// The record that the bytes hold.
pub open spec fn tls_spec(bytes: Seq<u8>) -> Option<(TlsContentType, TlsVersion, u16, Seq<u8>)> {
    match header_spec(bytes) {
        Some((rest, (t, v, l))) => record_spec(t, v, l, rest),
        None => None,
    }
}

impl Tls {
    /// Reads a record from the bytes of a packet.
    pub fn from_bytes(bytes: &[u8]) -> (r: Result<Self, Error>)
        ensures
            r matches Ok(t) ==> tls_spec(bytes@) == Some((t.content_type, t.version, t.length, t.payload@)),
            r is Err ==> tls_spec(bytes@) is None && r == Err::<Tls, Error>(Error::PacketParsing),
            r matches Ok(t) ==> {
                &&& bytes@.len() >= 5
                &&& t.content_type.code() == bytes@[0]
                &&& t.version.code() as int == bytes@[1] as int * 256 + bytes@[2] as int
                &&& t.length as int == bytes@[3] as int * 256 + bytes@[4] as int
                &&& t.payload@ == bytes@.skip(5)
            },
            r is Ok <== bytes@.len() >= 5 && TlsContentType::of_code(bytes@[0]) is Some
                && TlsVersion::of_code((bytes@[1] as int * 256 + bytes@[2] as int) as u16) is Some,
    {
        proof {
            tls_record_is_read_big_endian(bytes@);
        }
        match Self::parse_header_bytes(bytes) {
            Ok((rest, (content_type, version, length))) => Self::new(content_type, version, length, rest),
            Err(_) => Err(Error::PacketParsing),
        }
    }

    /// A record from its header fields and payload.
    pub fn new(content_type: u8, version: u16, length: u16, payload: &[u8]) -> (r: Result<Self, Error>)
        ensures
            r matches Ok(t) ==> record_spec(content_type, version, length, payload@) == Some(
                (t.content_type, t.version, t.length, t.payload@),
            ),
            r is Err ==> record_spec(content_type, version, length, payload@) is None && r == Err::<
                Tls,
                Error,
            >(Error::PacketParsing),
    {
        let content_type = match TlsContentType::try_from(content_type) {
            Ok(t) => t,
            Err(_) => return Err(Error::PacketParsing),
        };
        let version = match TlsVersion::try_from(version) {
            Ok(v) => v,
            Err(_) => return Err(Error::PacketParsing),
        };
        Ok(Tls { content_type, version, length, payload: vstd::slice::slice_to_vec(payload) })
    }

    /// Reads the five-byte record header: content type, version, length.
    pub fn parse_header_bytes(bytes: &[u8]) -> (r: Result<(&[u8], (u8, u16, u16)), Error>)
        ensures
            r matches Ok((rest, h)) ==> header_spec(bytes@) == Some((rest@, h)),
            r is Err ==> header_spec(bytes@) is None && r == Err::<(&[u8], (u8, u16, u16)), Error>(
                Error::PacketParsing,
            ),
            r is Ok <==> bytes@.len() >= 5,
            r matches Ok((rest, (c, v, l))) ==> {
                &&& c == bytes@[0]
                &&& v as int == bytes@[1] as int * 256 + bytes@[2] as int
                &&& l as int == bytes@[3] as int * 256 + bytes@[4] as int
                &&& rest@ == bytes@.skip(5)
            },
    {
        let n = bytes.len();
        if n < 5 {
            return Err(Error::PacketParsing);
        }
        let version: u16 = (bytes[1] as u16) * 256 + (bytes[2] as u16);
        let length: u16 = (bytes[3] as u16) * 256 + (bytes[4] as u16);
        let rest = vstd::slice::slice_subrange(bytes, 5, n);
        proof {
            assert(rest@ =~= bytes@.skip(5));
        }
        Ok((rest, (bytes[0], version, length)))
    }
}


/// A record header is read big-endian: of at least five bytes, the first is
/// the content type, the next two are the version with the first of them
/// high, the two after are the length the same way, and the payload is what
/// follows.
pub proof fn tls_header_is_read_big_endian(bytes: Seq<u8>)
    ensures
        bytes.len() >= 5 <==> header_spec(bytes) is Some,
        header_spec(bytes) matches Some((rest, (c, v, l))) ==> {
            &&& c == bytes[0]
            &&& v as int == bytes[1] as int * 256 + bytes[2] as int
            &&& l as int == bytes[3] as int * 256 + bytes[4] as int
            &&& rest == bytes.skip(5)
        },
{
    if bytes.len() >= 5 {
        assert(bytes[1] as int * 256 + bytes[2] as int <= 65535);
        assert(bytes[3] as int * 256 + bytes[4] as int <= 65535);
    }
}

/// A record read from bytes has the content type of the first byte, the
/// version of the next two read big-endian, the length of the two after, and
/// the remaining bytes as payload; the bytes give a record whenever there are
/// five of them and the type and version are known.
pub proof fn tls_record_is_read_big_endian(bytes: Seq<u8>)
    ensures
        tls_spec(bytes) matches Some((t, v, l, p)) ==> {
            &&& bytes.len() >= 5
            &&& t.code() == bytes[0]
            &&& v.code() as int == bytes[1] as int * 256 + bytes[2] as int
            &&& l as int == bytes[3] as int * 256 + bytes[4] as int
            &&& p == bytes.skip(5)
        },
        (bytes.len() >= 5 && TlsContentType::of_code(bytes[0]) is Some && TlsVersion::of_code(
            (bytes[1] as int * 256 + bytes[2] as int) as u16,
        ) is Some) ==> tls_spec(bytes) is Some,
{
    tls_header_is_read_big_endian(bytes);
    if bytes.len() >= 5 {
        match TlsContentType::of_code(bytes[0]) {
            Some(t) => {
                tls_content_type_code_roundtrip(t);
            },
            None => {},
        }
        let v = (bytes[1] as int * 256 + bytes[2] as int) as u16;
        match TlsVersion::of_code(v) {
            Some(x) => {
                tls_version_code_roundtrip(x);
            },
            None => {},
        }
    }
}

} // verus!
