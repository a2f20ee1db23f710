//! HTTP/1 messages: the start line, the header fields and the body.
use vstd::prelude::*;
use vstd::utf8::{decode_utf8, valid_utf8};
use crate::network::Error;
use crate::num::{parse_u16, parse_u16_exec};
use crate::text::{
    ascii_lower, chars_eq, chars_of, eq_ignore_ascii_case, eq_ignore_ascii_case_exec, join, join_exec,
    push_piece, slice_copy, split, split_exec, split_once, split_once_exec, string_from_chars, string_from_utf8,
    trim, trim_exec, views, words, words_exec,
};

verus! {

/// A request method.
#[derive(Debug, Clone, Copy, PartialEq, Eq, Structural)]
pub enum HttpMethod {
    Get,
    Post,
    Put,
    Delete,
    Patch,
    Options,
    Head,
    Connect,
    Trace,
}

/// Whether a message is a request or a response.
#[derive(Debug, Clone, Copy, PartialEq, Eq, Structural)]
pub enum HttpType {
    Request,
    Response,
}

/// A protocol version.
#[derive(Debug, Clone, Copy, PartialEq, Eq, Structural)]
pub enum HttpVersion {
    V0_9,
    V1_0,
    V1_1,
    V2,
    V3,
}

impl HttpMethod {
    /// The name of the method, in lower case.
    pub open spec fn name(self) -> Seq<char> {
        match self {
            HttpMethod::Get => "get"@,
            HttpMethod::Post => "post"@,
            HttpMethod::Put => "put"@,
            HttpMethod::Delete => "delete"@,
            HttpMethod::Patch => "patch"@,
            HttpMethod::Options => "options"@,
            HttpMethod::Head => "head"@,
            HttpMethod::Connect => "connect"@,
            HttpMethod::Trace => "trace"@,
        }
    }

    /// The method that a word names, in any case.
    pub open spec fn parse(w: Seq<char>) -> Option<HttpMethod> {
        if eq_ignore_ascii_case(w, "get"@) {
            Some(HttpMethod::Get)
        } else if eq_ignore_ascii_case(w, "post"@) {
            Some(HttpMethod::Post)
        } else if eq_ignore_ascii_case(w, "put"@) {
            Some(HttpMethod::Put)
        } else if eq_ignore_ascii_case(w, "delete"@) {
            Some(HttpMethod::Delete)
        } else if eq_ignore_ascii_case(w, "patch"@) {
            Some(HttpMethod::Patch)
        } else if eq_ignore_ascii_case(w, "options"@) {
            Some(HttpMethod::Options)
        } else if eq_ignore_ascii_case(w, "head"@) {
            Some(HttpMethod::Head)
        } else if eq_ignore_ascii_case(w, "connect"@) {
            Some(HttpMethod::Connect)
        } else if eq_ignore_ascii_case(w, "trace"@) {
            Some(HttpMethod::Trace)
        } else {
            None
        }
    }

    /// The name of the method, in lower case.
    pub fn to_string(&self) -> (r: String)
        ensures
            r@ == self.name(),
    {
        match self {
            HttpMethod::Get => String::from_str("get"),
            HttpMethod::Post => String::from_str("post"),
            HttpMethod::Put => String::from_str("put"),
            HttpMethod::Delete => String::from_str("delete"),
            HttpMethod::Patch => String::from_str("patch"),
            HttpMethod::Options => String::from_str("options"),
            HttpMethod::Head => String::from_str("head"),
            HttpMethod::Connect => String::from_str("connect"),
            HttpMethod::Trace => String::from_str("trace"),
        }
    }

    /// The method that a word names, in any case (the names compared in lower
    /// case, as `to_lowercase` gives it for these ASCII names).
    pub fn from_str(s: &str) -> (r: Result<HttpMethod, ()>)
        ensures
            r matches Ok(m) ==> HttpMethod::parse(s@) == Some(m),
            r is Err ==> HttpMethod::parse(s@) is None,
    {
        Self::from_chars(&chars_of(s))
    }

    fn from_chars(w: &[char]) -> (r: Result<HttpMethod, ()>)
        ensures
            r matches Ok(m) ==> HttpMethod::parse(w@) == Some(m),
            r is Err ==> HttpMethod::parse(w@) is None,
    {
        if eq_ignore_ascii_case_exec(w, &chars_of("get")) {
            Ok(HttpMethod::Get)
        } else if eq_ignore_ascii_case_exec(w, &chars_of("post")) {
            Ok(HttpMethod::Post)
        } else if eq_ignore_ascii_case_exec(w, &chars_of("put")) {
            Ok(HttpMethod::Put)
        } else if eq_ignore_ascii_case_exec(w, &chars_of("delete")) {
            Ok(HttpMethod::Delete)
        } else if eq_ignore_ascii_case_exec(w, &chars_of("patch")) {
            Ok(HttpMethod::Patch)
        } else if eq_ignore_ascii_case_exec(w, &chars_of("options")) {
            Ok(HttpMethod::Options)
        } else if eq_ignore_ascii_case_exec(w, &chars_of("head")) {
            Ok(HttpMethod::Head)
        } else if eq_ignore_ascii_case_exec(w, &chars_of("connect")) {
            Ok(HttpMethod::Connect)
        } else if eq_ignore_ascii_case_exec(w, &chars_of("trace")) {
            Ok(HttpMethod::Trace)
        } else {
            Err(())
        }
    }
}

impl HttpType {
    /// The name of the kind of message, in lower case.
    pub open spec fn name(self) -> Seq<char> {
        match self {
            HttpType::Request => "request"@,
            HttpType::Response => "response"@,
        }
    }

    /// The name of the kind of message, in lower case.
    pub fn to_string(&self) -> (r: String)
        ensures
            r@ == self.name(),
    {
        match self {
            HttpType::Request => String::from_str("request"),
            HttpType::Response => String::from_str("response"),
        }
    }
}

impl HttpVersion {
    /// The version as it stands in a start line.
    pub open spec fn name(self) -> Seq<char> {
        match self {
            HttpVersion::V0_9 => "HTTP/0.9"@,
            HttpVersion::V1_0 => "HTTP/1.0"@,
            HttpVersion::V1_1 => "HTTP/1.1"@,
            HttpVersion::V2 => "HTTP/2"@,
            HttpVersion::V3 => "HTTP/3"@,
        }
    }

    /// The version that a word names, in any case.
    pub open spec fn parse(w: Seq<char>) -> Option<HttpVersion> {
        if eq_ignore_ascii_case(w, "http/0.9"@) {
            Some(HttpVersion::V0_9)
        } else if eq_ignore_ascii_case(w, "http/1.0"@) {
            Some(HttpVersion::V1_0)
        } else if eq_ignore_ascii_case(w, "http/1.1"@) {
            Some(HttpVersion::V1_1)
        } else if eq_ignore_ascii_case(w, "http/2"@) {
            Some(HttpVersion::V2)
        } else if eq_ignore_ascii_case(w, "http/3"@) {
            Some(HttpVersion::V3)
        } else {
            None
        }
    }

    /// The version as it stands in a start line.
    pub fn to_string(&self) -> (r: String)
        ensures
            r@ == self.name(),
    {
        match self {
            HttpVersion::V0_9 => String::from_str("HTTP/0.9"),
            HttpVersion::V1_0 => String::from_str("HTTP/1.0"),
            HttpVersion::V1_1 => String::from_str("HTTP/1.1"),
            HttpVersion::V2 => String::from_str("HTTP/2"),
            HttpVersion::V3 => String::from_str("HTTP/3"),
        }
    }

    /// The version that a word names, in any case (compared in lower case).
    pub fn from_str(s: &str) -> (r: Result<HttpVersion, ()>)
        ensures
            r matches Ok(v) ==> HttpVersion::parse(s@) == Some(v),
            r is Err ==> HttpVersion::parse(s@) is None,
    {
        Self::from_chars(&chars_of(s))
    }

    fn from_chars(w: &[char]) -> (r: Result<HttpVersion, ()>)
        ensures
            r matches Ok(v) ==> HttpVersion::parse(w@) == Some(v),
            r is Err ==> HttpVersion::parse(w@) is None,
    {
        if eq_ignore_ascii_case_exec(w, &chars_of("http/0.9")) {
            Ok(HttpVersion::V0_9)
        } else if eq_ignore_ascii_case_exec(w, &chars_of("http/1.0")) {
            Ok(HttpVersion::V1_0)
        } else if eq_ignore_ascii_case_exec(w, &chars_of("http/1.1")) {
            Ok(HttpVersion::V1_1)
        } else if eq_ignore_ascii_case_exec(w, &chars_of("http/2")) {
            Ok(HttpVersion::V2)
        } else if eq_ignore_ascii_case_exec(w, &chars_of("http/3")) {
            Ok(HttpVersion::V3)
        } else {
            Err(())
        }
    }
}

// ---------------------------------------------------------------------------
// Start line
// ---------------------------------------------------------------------------

/// The start line of a message.
#[derive(Debug, Clone)]
pub struct HttpInstruction {
    pub _type: HttpType,
    pub method: Option<HttpMethod>,
    pub uri: Option<String>,
    pub version: HttpVersion,
    pub status_code: Option<u16>,
    pub status_text: Option<String>,
}

/// What a start line holds.
pub struct InstructionView {
    pub _type: HttpType,
    pub method: Option<HttpMethod>,
    pub uri: Option<Seq<char>>,
    pub version: HttpVersion,
    pub status_code: Option<u16>,
    pub status_text: Option<Seq<char>>,
}

/// The text of an optional string.
pub open spec fn opt_view(s: Option<String>) -> Option<Seq<char>> {
    match s {
        Some(t) => Some(t@),
        None => None,
    }
}

impl View for HttpInstruction {
    type V = InstructionView;

    open spec fn view(&self) -> InstructionView {
        InstructionView {
            _type: self._type,
            method: self.method,
            uri: opt_view(self.uri),
            version: self.version,
            status_code: self.status_code,
            status_text: opt_view(self.status_text),
        }
    }
}

/// A request line: method, target, version.
pub open spec fn request_view(m: HttpMethod, uri: Seq<char>, v: HttpVersion) -> InstructionView {
    InstructionView {
        _type: HttpType::Request,
        method: Some(m),
        uri: Some(uri),
        version: v,
        status_code: None,
        status_text: None,
    }
}

/// A status line: version, code, reason.
pub open spec fn response_view(v: HttpVersion, code: u16, text: Seq<char>) -> InstructionView {
    InstructionView {
        _type: HttpType::Response,
        method: None,
        uri: None,
        version: v,
        status_code: Some(code),
        status_text: Some(text),
    }
}

/// Reading `row` as a request line indexes a word that it lacks.
pub open spec fn request_panics(row: Seq<char>) -> bool {
    let f = words(row);
    f.len() == 0 || (HttpMethod::parse(f[0]) is Some && f.len() < 3)
}

/// `row` read as a request line: a method, a target, a version.
pub open spec fn request_spec(row: Seq<char>) -> Option<InstructionView> {
    let f = words(row);
    match HttpMethod::parse(f[0]) {
        Some(m) => match HttpVersion::parse(f[2]) {
            Some(v) => Some(request_view(m, f[1], v)),
            None => None,
        },
        None => None,
    }
}

/// Reading `row` as a status line indexes a word that it lacks.
pub open spec fn response_panics(row: Seq<char>) -> bool {
    let f = words(row);
    f.len() == 0 || (HttpVersion::parse(f[0]) is Some && f.len() < 2)
}

/// `row` read as a status line: a version, a code, the reason (the further
/// words joined by single spaces).
pub open spec fn response_spec(row: Seq<char>) -> Option<InstructionView> {
    let f = words(row);
    match HttpVersion::parse(f[0]) {
        Some(v) => match parse_u16(f[1]) {
            Some(c) => Some(response_view(v, c as u16, join(f.skip(2), " "@))),
            None => None,
        },
        None => None,
    }
}

/// Reading the start line `row` indexes a word that it lacks.
pub open spec fn instruction_panics(row: Seq<char>) -> bool {
    request_panics(row) || (request_spec(row) is None && response_panics(row))
}

/// The start line `row`: a request line if it reads as one, else a status line.
pub open spec fn instruction_spec(row: Seq<char>) -> Option<InstructionView> {
    match request_spec(row) {
        Some(i) => Some(i),
        None => response_spec(row),
    }
}

impl HttpInstruction {
    /// A request line.
    pub fn request(method: HttpMethod, uri: String, version: HttpVersion) -> (r: Self)
        ensures
            r@ == request_view(method, uri@, version),
    {
        HttpInstruction {
            _type: HttpType::Request,
            method: Some(method),
            uri: Some(uri),
            version,
            status_code: None,
            status_text: None,
        }
    }

    /// A status line.
    pub fn response(version: HttpVersion, status_code: u16, status_text: String) -> (r: Self)
        ensures
            r@ == response_view(version, status_code, status_text@),
    {
        HttpInstruction {
            _type: HttpType::Response,
            method: None,
            uri: None,
            version,
            status_code: Some(status_code),
            status_text: Some(status_text),
        }
    }

    /// Reads a request line: method, target and version, separated by whitespace.
    pub fn request_from_str(row: &str) -> (r: Result<HttpInstruction, Error>)
        requires
            !request_panics(row@),
        ensures
            r matches Ok(i) ==> request_spec(row@) == Some(i@),
            r is Err ==> request_spec(row@) is None && r == Err::<HttpInstruction, Error>(
                Error::NomParsing,
            ),
    {
        Self::request_from_chars(&chars_of(row))
    }

    fn request_from_chars(row: &[char]) -> (r: Result<HttpInstruction, Error>)
        requires
            !request_panics(row@),
        ensures
            r matches Ok(i) ==> request_spec(row@) == Some(i@),
            r is Err ==> request_spec(row@) is None && r == Err::<HttpInstruction, Error>(
                Error::NomParsing,
            ),
    {
        let fields = words_exec(row);
        proof {
            assert(views(fields@)[0] == fields@[0]@);
        }
        let method = match HttpMethod::from_chars(&fields[0]) {
            Ok(m) => m,
            Err(_) => return Err(Error::NomParsing),
        };
        proof {
            assert(views(fields@)[1] == fields@[1]@);
            assert(views(fields@)[2] == fields@[2]@);
        }
        let version = match HttpVersion::from_chars(&fields[2]) {
            Ok(v) => v,
            Err(_) => return Err(Error::NomParsing),
        };
        Ok(HttpInstruction::request(method, string_from_chars(&fields[1]), version))
    }

    /// Reads a status line: version, code, and the reason words joined by spaces.
    pub fn response_from_str(row: &str) -> (r: Result<HttpInstruction, Error>)
        requires
            !response_panics(row@),
        ensures
            r matches Ok(i) ==> response_spec(row@) == Some(i@),
            r is Err ==> response_spec(row@) is None && r == Err::<HttpInstruction, Error>(
                Error::NomParsing,
            ),
    {
        Self::response_from_chars(&chars_of(row))
    }

    fn response_from_chars(row: &[char]) -> (r: Result<HttpInstruction, Error>)
        requires
            !response_panics(row@),
        ensures
            r matches Ok(i) ==> response_spec(row@) == Some(i@),
            r is Err ==> response_spec(row@) is None && r == Err::<HttpInstruction, Error>(
                Error::NomParsing,
            ),
    {
        let fields = words_exec(row);
        let ghost fs = views(fields@);
        proof {
            assert(fs[0] == fields@[0]@);
        }
        let version = match HttpVersion::from_chars(&fields[0]) {
            Ok(v) => v,
            Err(_) => return Err(Error::NomParsing),
        };
        proof {
            assert(fs[1] == fields@[1]@);
        }
        let code = match parse_u16_exec(&fields[1]) {
            Some(c) => c,
            None => return Err(Error::NomParsing),
        };
        let mut rest: Vec<Vec<char>> = Vec::new();
        let mut i: usize = 2;
        while i < fields.len()
            invariant
                2 <= i <= fields@.len(),
                fs == views(fields@),
                views(rest@) == fs.subrange(2, i as int),
            decreases fields@.len() - i,
        {
            let c = slice_copy(&fields[i], 0, fields[i].len());
            proof {
                assert(fs[i as int] == fields@[i as int]@);
                assert(fs[i as int].subrange(0, fs[i as int].len() as int) =~= fs[i as int]);
            }
            push_piece(&mut rest, c);
            proof {
                assert(fs.subrange(2, i + 1) =~= fs.subrange(2, i as int).push(fs[i as int]));
            }
            i = i + 1;
        }
        proof {
            assert(fs.subrange(2, fs.len() as int) =~= fs.skip(2));
        }
        let text = join_exec(&rest, &chars_of(" "));
        Ok(HttpInstruction::response(version, code, string_from_chars(&text)))
    }

    /// Reads a start line: as a request line if it is one, else as a status line.
    pub fn from_str(row: &str) -> (r: Result<HttpInstruction, Error>)
        requires
            !instruction_panics(row@),
        ensures
            r matches Ok(i) ==> instruction_spec(row@) == Some(i@),
            r is Err ==> instruction_spec(row@) is None && r == Err::<HttpInstruction, Error>(
                Error::NomParsing,
            ),
    {
        Self::from_chars(&chars_of(row))
    }

    fn from_chars(row: &[char]) -> (r: Result<HttpInstruction, Error>)
        requires
            !instruction_panics(row@),
        ensures
            r matches Ok(i) ==> instruction_spec(row@) == Some(i@),
            r is Err ==> instruction_spec(row@) is None && r == Err::<HttpInstruction, Error>(
                Error::NomParsing,
            ),
    {
        match Self::request_from_chars(row) {
            Ok(i) => Ok(i),
            Err(_) => Self::response_from_chars(row),
        }
    }
}

// ---------------------------------------------------------------------------
// Header fields
// ---------------------------------------------------------------------------

/// Header fields by name; a name occurs once, with the value it was last given.
#[derive(Debug, Clone)]
pub struct HeaderMap {
    entries: Vec<(String, String)>,
}

/// The texts of (name, value) pairs.
pub open spec fn pair_views(v: Seq<(String, String)>) -> Seq<(Seq<char>, Seq<char>)> {
    v.map_values(|e: (String, String)| (e.0@, e.1@))
}

impl View for HeaderMap {
    type V = Seq<(Seq<char>, Seq<char>)>;

    closed spec fn view(&self) -> Seq<(Seq<char>, Seq<char>)> {
        pair_views(self.entries@)
    }
}

/// The position, at or after `i`, of the field named `k`.
pub open spec fn field_pos(es: Seq<(Seq<char>, Seq<char>)>, k: Seq<char>, i: int) -> Option<int>
    decreases es.len() - i,
{
    if i < 0 || i >= es.len() {
        None
    } else if es[i].0 == k {
        Some(i)
    } else {
        field_pos(es, k, i + 1)
    }
}

/// The fields after setting `k` to `v`: the value replaced where `k` is
/// present, else the pair added at the end.
pub open spec fn map_insert(es: Seq<(Seq<char>, Seq<char>)>, k: Seq<char>, v: Seq<char>) -> Seq<
    (Seq<char>, Seq<char>),
> {
    match field_pos(es, k, 0) {
        Some(j) => es.update(j, (k, v)),
        None => es.push((k, v)),
    }
}

/// The value of the field named `k`.
pub open spec fn lookup(es: Seq<(Seq<char>, Seq<char>)>, k: Seq<char>) -> Option<Seq<char>> {
    match field_pos(es, k, 0) {
        Some(j) => Some(es[j].1),
        None => None,
    }
}

/// The header lines read as fields: each line cut at its first `:`, name and
/// value trimmed; `None` when a line has no `:`.
pub open spec fn header_lines(lines: Seq<Seq<char>>) -> Option<Seq<(Seq<char>, Seq<char>)>>
    decreases lines.len(),
{
    if lines.len() == 0 {
        Some(seq![])
    } else {
        match header_lines(lines.drop_last()) {
            Some(es) => {
                let parts = split_once(lines.last(), ":"@);
                if parts.len() == 2 {
                    Some(map_insert(es, trim(parts[0]), trim(parts[1])))
                } else {
                    None
                }
            },
            None => None,
        }
    }
}

impl HeaderMap {
    /// No fields.
    pub fn new() -> (r: HeaderMap)
        ensures
            r@ == Seq::<(Seq<char>, Seq<char>)>::empty(),
    {
        HeaderMap { entries: Vec::new() }
    }

    /// The number of fields.
    pub fn len(&self) -> (r: usize)
        ensures
            r == self@.len(),
    {
        self.entries.len()
    }

    /// Sets the field `k` to `v`.
    pub fn insert(&mut self, k: String, v: String)
        ensures
            final(self)@ == map_insert(old(self)@, k@, v@),
    {
        let ghost es = self@;
        let n = self.entries.len();
        let mut j: usize = 0;
        while j < n
            invariant
                n == self.entries@.len(),
                es == self@,
                self.entries@ == old(self).entries@,
                j <= n,
                field_pos(es, k@, 0) == field_pos(es, k@, j as int),
            decreases n - j,
        {
            if chars_eq(&chars_of(self.entries[j].0.as_str()), &chars_of(k.as_str())) {
                let ghost kv = k@;
                let ghost vv = v@;
                self.entries[j] = (k, v);
                proof {
                    assert(self@ =~= es.update(j as int, (kv, vv)));
                }
                return;
            }
            j = j + 1;
        }
        let ghost kv = k@;
        let ghost vv = v@;
        self.entries.push((k, v));
        proof {
            assert(self@ =~= es.push((kv, vv)));
        }
    }

    /// The value of the field named `key`.
    pub fn get(&self, key: &str) -> (r: Option<&String>)
        ensures
            r matches Some(v) ==> lookup(self@, key@) == Some(v@),
            r is None ==> lookup(self@, key@) is None,
    {
        let ghost es = self@;
        let k = chars_of(key);
        let n = self.entries.len();
        let mut j: usize = 0;
        while j < n
            invariant
                n == self.entries@.len(),
                es == self@,
                k@ == key@,
                j <= n,
                field_pos(es, key@, 0) == field_pos(es, key@, j as int),
            decreases n - j,
        {
            if chars_eq(&chars_of(self.entries[j].0.as_str()), &k) {
                return Some(&self.entries[j].1);
            }
            j = j + 1;
        }
        None
    }

    /// The (name, value) pair at position `i`.
    pub fn entry(&self, i: usize) -> (r: (&String, &String))
        requires
            i < self@.len(),
        ensures
            (r.0@, r.1@) == self@[i as int],
    {
        (&self.entries[i].0, &self.entries[i].1)
    }
}

/// The header fields of a message.
#[derive(Debug, Clone)]
pub struct HttpHeader {
    pub headers: HeaderMap,
}

impl HttpHeader {
    /// Reads the header lines: each is cut at its first `:` into a name and
    /// a value, both trimmed; a later line replaces an earlier one of the same
    /// name; an error when a line has no `:`.
    pub fn from_lines(lines: &[&str]) -> (r: Result<HttpHeader, Error>)
        ensures
            r matches Ok(h) ==> header_lines(lines@.map_values(|l: &str| l@)) == Some(h.headers@),
            r is Err ==> header_lines(lines@.map_values(|l: &str| l@)) is None && r == Err::<
                HttpHeader,
                Error,
            >(Error::NomParsing),
    {
        let mut v: Vec<Vec<char>> = Vec::new();
        let mut i: usize = 0;
        while i < lines.len()
            invariant
                i <= lines@.len(),
                views(v@) == lines@.map_values(|l: &str| l@).take(i as int),
            decreases lines@.len() - i,
        {
            push_piece(&mut v, chars_of(lines[i]));
            proof {
                assert(lines@.map_values(|l: &str| l@).take(i + 1) =~= lines@.map_values(
                    |l: &str| l@,
                ).take(i as int).push(lines@[i as int]@));
            }
            i = i + 1;
        }
        proof {
            assert(lines@.map_values(|l: &str| l@).take(lines@.len() as int) =~= lines@.map_values(
                |l: &str| l@,
            ));
        }
        Self::from_char_lines(&v)
    }

    fn from_char_lines(lines: &Vec<Vec<char>>) -> (r: Result<HttpHeader, Error>)
        ensures
            r matches Ok(h) ==> header_lines(views(lines@)) == Some(h.headers@),
            r is Err ==> header_lines(views(lines@)) is None && r == Err::<HttpHeader, Error>(
                Error::NomParsing,
            ),
    {
        let ghost ls = views(lines@);
        let colon = chars_of(":");
        let mut map = HeaderMap::new();
        let mut i: usize = 0;
        while i < lines.len()
            invariant
                i <= lines@.len(),
                ls == views(lines@),
                colon@ == ":"@,
                header_lines(ls.take(i as int)) == Some(map@),
            decreases lines@.len() - i,
        {
            let parts = split_once_exec(&lines[i], &colon);
            proof {
                assert(ls.take(i + 1).drop_last() =~= ls.take(i as int));
                assert(ls.take(i + 1).last() == lines@[i as int]@);
            }
            if parts.len() != 2 {
                proof {
                    lemma_header_lines_none(ls, i as int);
                }
                return Err(Error::NomParsing);
            }
            let k = trim_exec(&parts[0]);
            let v = trim_exec(&parts[1]);
            map.insert(string_from_chars(&k), string_from_chars(&v));
            i = i + 1;
        }
        proof {
            assert(ls.take(lines@.len() as int) =~= ls);
        }
        Ok(HttpHeader { headers: map })
    }
}

/// Once a header line has no `:`, no longer list of lines reads.
proof fn lemma_header_lines_none(ls: Seq<Seq<char>>, i: int)
    requires
        0 <= i < ls.len(),
        split_once(ls[i], ":"@).len() != 2,
    ensures
        header_lines(ls) is None,
{
    lemma_header_lines_prefix_none(ls, i + 1);
}

proof fn lemma_header_lines_prefix_none(ls: Seq<Seq<char>>, j: int)
    requires
        1 <= j <= ls.len(),
        header_lines(ls.take(j)) is None || split_once(ls[j - 1], ":"@).len() != 2,
    ensures
        header_lines(ls) is None,
    decreases ls.len() - j,
{
    assert(ls.take(j).drop_last() =~= ls.take(j - 1));
    assert(ls.take(j).last() == ls[j - 1]);
    if j == ls.len() {
        assert(ls.take(j) =~= ls);
    } else {
        assert(ls.take(j + 1).drop_last() =~= ls.take(j));
        lemma_header_lines_prefix_none(ls, j + 1);
    }
}

} // verus!

verus! {

// ---------------------------------------------------------------------------
// Messages
// ---------------------------------------------------------------------------

/// A message: start line, header fields, body.
#[derive(Debug, Clone)]
pub struct Http {
    pub instruction: HttpInstruction,
    pub headers: HttpHeader,
    pub body: String,
}

/// What a message holds.
pub struct HttpView {
    pub instruction: InstructionView,
    pub headers: Seq<(Seq<char>, Seq<char>)>,
    pub body: Seq<char>,
}

impl View for Http {
    type V = HttpView;

    open spec fn view(&self) -> HttpView {
        HttpView { instruction: self.instruction@, headers: self.headers.headers@, body: self.body@ }
    }
}

/// The lines of a message: its text cut at each CRLF.
pub open spec fn message_rows(bytes: Seq<u8>) -> Seq<Seq<char>> {
    split(decode_utf8(bytes), "\r\n"@)
}

/// The first empty line at or after `i`.
pub open spec fn first_empty(rows: Seq<Seq<char>>, i: int) -> Option<int>
    decreases rows.len() - i,
{
    if i < 0 || i >= rows.len() {
        None
    } else if rows[i].len() == 0 {
        Some(i)
    } else {
        first_empty(rows, i + 1)
    }
}

/// Reading the bytes as a message indexes a word that the start line lacks.
pub open spec fn from_bytes_panics(bytes: Seq<u8>) -> bool {
    &&& bytes.len() > 0
    &&& valid_utf8(bytes)
    &&& first_empty(message_rows(bytes), 0) is Some
    &&& instruction_panics(message_rows(bytes)[0])
}

/// The message that the bytes hold: non-empty UTF-8 text whose lines are the
/// start line, the header lines up to the first empty line, and the body (the
/// further lines joined by CRLF).
pub open spec fn http_spec(bytes: Seq<u8>) -> Option<HttpView> {
    if bytes.len() == 0 || !valid_utf8(bytes) {
        None
    } else {
        let rows = message_rows(bytes);
        match first_empty(rows, 0) {
            Some(e) => match instruction_spec(rows[0]) {
                Some(ins) => match header_lines(rows.subrange(1, e)) {
                    Some(hs) => Some(
                        HttpView { instruction: ins, headers: hs, body: join(rows.skip(e + 1), "\r\n"@) },
                    ),
                    None => None,
                },
                None => None,
            },
            None => None,
        }
    }
}

impl Http {
    /// Reads a message from the bytes of a packet.
    pub fn from_bytes(bytes: &[u8]) -> (r: Result<Self, Error>)
        requires
            !from_bytes_panics(bytes@),
        ensures
            r matches Ok(h) ==> http_spec(bytes@) == Some(h@),
            r is Err ==> http_spec(bytes@) is None && r == Err::<Http, Error>(Error::NomParsing),
    {
        if bytes.len() == 0 {
            return Err(Error::NomParsing);
        }
        let text = match string_from_utf8(bytes) {
            Some(t) => t,
            None => return Err(Error::NomParsing),
        };
        let crlf = chars_of("\r\n");
        proof {
            reveal_strlit("\r\n");
        }
        let rows = split_exec(&chars_of(text.as_str()), &crlf);
        let ghost rs = views(rows@);
        let n = rows.len();
        let mut e: usize = 0;
        while e < n && rows[e].len() != 0
            invariant
                n == rows@.len(),
                rs == views(rows@),
                e <= n,
                first_empty(rs, 0) == first_empty(rs, e as int),
            decreases n - e,
        {
            proof {
                assert(rs[e as int] == rows@[e as int]@);
            }
            e = e + 1;
        }
        if e == n {
            return Err(Error::NomParsing);
        }
        proof {
            assert(rs[e as int] == rows@[e as int]@);
            assert(first_empty(rs, e as int) == Some(e as int));
            assert(rs[0] == rows@[0]@);
        }
        let instruction = match HttpInstruction::from_chars(&rows[0]) {
            Ok(i) => i,
            Err(x) => return Err(x),
        };
        let mut header_rows: Vec<Vec<char>> = Vec::new();
        let mut i: usize = 1;
        while i < e
            invariant
                n == rows@.len(),
                rs == views(rows@),
                1 <= i <= e,
                e < n,
                views(header_rows@) == rs.subrange(1, i as int),
            decreases e - i,
        {
            let c = slice_copy(&rows[i], 0, rows[i].len());
            proof {
                assert(rs[i as int] == rows@[i as int]@);
                assert(rs[i as int].subrange(0, rs[i as int].len() as int) =~= rs[i as int]);
            }
            push_piece(&mut header_rows, c);
            proof {
                assert(rs.subrange(1, i + 1) =~= rs.subrange(1, i as int).push(rs[i as int]));
            }
            i = i + 1;
        }
        let headers = match HttpHeader::from_char_lines(&header_rows) {
            Ok(h) => h,
            Err(x) => return Err(x),
        };
        let mut body_rows: Vec<Vec<char>> = Vec::new();
        let mut i: usize = e + 1;
        while i < n
            invariant
                n == rows@.len(),
                rs == views(rows@),
                e + 1 <= i <= n,
                views(body_rows@) == rs.subrange(e + 1, i as int),
            decreases n - i,
        {
            let c = slice_copy(&rows[i], 0, rows[i].len());
            proof {
                assert(rs[i as int] == rows@[i as int]@);
                assert(rs[i as int].subrange(0, rs[i as int].len() as int) =~= rs[i as int]);
            }
            push_piece(&mut body_rows, c);
            proof {
                assert(rs.subrange(e + 1, i + 1) =~= rs.subrange(e + 1, i as int).push(rs[i as int]));
            }
            i = i + 1;
        }
        proof {
            assert(rs.subrange(e + 1, n as int) =~= rs.skip(e + 1));
        }
        let body = string_from_chars(&join_exec(&body_rows, &crlf));
        Ok(Http { instruction, headers, body })
    }
}

} // verus!

verus! {

// ---------------------------------------------------------------------------
// Laws
// ---------------------------------------------------------------------------

/// A method is read back from its name.
pub proof fn method_name_read_back(m: HttpMethod)
    ensures
        HttpMethod::parse(m.name()) == Some(m),
{
    reveal_strlit("get");
    reveal_strlit("post");
    reveal_strlit("put");
    reveal_strlit("delete");
    reveal_strlit("patch");
    reveal_strlit("options");
    reveal_strlit("head");
    reveal_strlit("connect");
    reveal_strlit("trace");
    let n = m.name();
    assert(eq_ignore_ascii_case(n, n));
    match m {
        HttpMethod::Get => {},
        HttpMethod::Post => {
            assert(ascii_lower(n[0]) != ascii_lower("get"@[0]) || n.len() != 3);
        },
        HttpMethod::Put => {
            assert(ascii_lower(n[0]) != ascii_lower("get"@[0]));
            assert(!eq_ignore_ascii_case(n, "post"@));
        },
        HttpMethod::Delete => {},
        HttpMethod::Patch => {},
        HttpMethod::Options => {},
        HttpMethod::Head => {
            assert(ascii_lower(n[0]) != ascii_lower("post"@[0]));
        },
        HttpMethod::Connect => {
            assert(ascii_lower(n[0]) != ascii_lower("options"@[0]));
        },
        HttpMethod::Trace => {
            assert(ascii_lower(n[0]) != ascii_lower("patch"@[0]));
        },
    }
}

/// A version is read back from the way a start line writes it.
pub proof fn version_name_read_back(v: HttpVersion)
    ensures
        HttpVersion::parse(v.name()) == Some(v),
{
    reveal_strlit("HTTP/0.9");
    reveal_strlit("HTTP/1.0");
    reveal_strlit("HTTP/1.1");
    reveal_strlit("HTTP/2");
    reveal_strlit("HTTP/3");
    reveal_strlit("http/0.9");
    reveal_strlit("http/1.0");
    reveal_strlit("http/1.1");
    reveal_strlit("http/2");
    reveal_strlit("http/3");
    let n = v.name();
    match v {
        HttpVersion::V0_9 => {
            assert(eq_ignore_ascii_case(n, "http/0.9"@));
        },
        HttpVersion::V1_0 => {
            assert(ascii_lower(n[5]) != ascii_lower("http/0.9"@[5]));
            assert(eq_ignore_ascii_case(n, "http/1.0"@));
        },
        HttpVersion::V1_1 => {
            assert(ascii_lower(n[5]) != ascii_lower("http/0.9"@[5]));
            assert(ascii_lower(n[7]) != ascii_lower("http/1.0"@[7]));
            assert(eq_ignore_ascii_case(n, "http/1.1"@));
        },
        HttpVersion::V2 => {
            assert(eq_ignore_ascii_case(n, "http/2"@));
        },
        HttpVersion::V3 => {
            assert(ascii_lower(n[5]) != ascii_lower("http/2"@[5]));
            assert(eq_ignore_ascii_case(n, "http/3"@));
        },
    }
}

/// No two fields have the same name.
pub open spec fn names_unique(es: Seq<(Seq<char>, Seq<char>)>) -> bool {
    forall|i: int, j: int| 0 <= i < j < es.len() ==> #[trigger] es[i].0 != #[trigger] es[j].0
}

proof fn lemma_field_pos(es: Seq<(Seq<char>, Seq<char>)>, k: Seq<char>, i: int)
    requires
        0 <= i <= es.len(),
    ensures
        field_pos(es, k, i) matches Some(j) ==> i <= j < es.len() && es[j].0 == k && forall|l: int|
            i <= l < j ==> es[l].0 != k,
        field_pos(es, k, i) is None ==> forall|l: int| i <= l < es.len() ==> es[l].0 != k,
    decreases es.len() - i,
{
    if i < es.len() && es[i].0 != k {
        lemma_field_pos(es, k, i + 1);
    }
}

/// Setting a field: the field then reads as the value set, every other field
/// reads as before, and names stay unique.
pub proof fn header_map_read_after_write(
    es: Seq<(Seq<char>, Seq<char>)>,
    k: Seq<char>,
    v: Seq<char>,
    other: Seq<char>,
)
    requires
        names_unique(es),
        other != k,
    ensures
        lookup(map_insert(es, k, v), k) == Some(v),
        lookup(map_insert(es, k, v), other) == lookup(es, other),
        names_unique(map_insert(es, k, v)),
{
    let r = map_insert(es, k, v);
    lemma_field_pos(es, k, 0);
    lemma_field_pos(es, other, 0);
    lemma_field_pos(r, k, 0);
    lemma_field_pos(r, other, 0);
    match field_pos(es, k, 0) {
        Some(j) => {
            assert(r.len() == es.len());
            assert forall|l: int| 0 <= l < r.len() implies #[trigger] r[l].0 == es[l].0 by {}
            match field_pos(r, k, 0) {
                Some(p) => {
                    assert(p == j);
                },
                None => {
                    assert(r[j].0 == k);
                },
            }
            match field_pos(es, other, 0) {
                Some(p) => {
                    match field_pos(r, other, 0) {
                        Some(q) => {
                            assert(q == p);
                        },
                        None => {
                            assert(r[p].0 == other);
                        },
                    }
                },
                None => {
                    if field_pos(r, other, 0) is Some {
                        let q = field_pos(r, other, 0)->0;
                        assert(es[q].0 == other);
                    }
                },
            }
            assert(names_unique(r)) by {
                assert forall|a: int, b: int| 0 <= a < b < r.len() implies #[trigger] r[a].0 != #[trigger] r[b].0 by {
                    assert(r[a].0 == es[a].0);
                    assert(r[b].0 == es[b].0);
                }
            }
        },
        None => {
            assert(r == es.push((k, v)));
            match field_pos(r, k, 0) {
                Some(p) => {
                    if p < es.len() {
                        assert(es[p].0 == k);
                    }
                },
                None => {
                    assert(r[es.len() as int].0 == k);
                },
            }
            match field_pos(es, other, 0) {
                Some(p) => {
                    match field_pos(r, other, 0) {
                        Some(q) => {
                            if q < p {
                                assert(r[q] == es[q]);
                            }
                            if p < q {
                                assert(r[p] == es[p]);
                            }
                        },
                        None => {
                            assert(r[p] == es[p]);
                        },
                    }
                },
                None => {
                    if field_pos(r, other, 0) is Some {
                        let q = field_pos(r, other, 0)->0;
                        if q < es.len() {
                            assert(r[q] == es[q]);
                        }
                    }
                },
            }
            assert(names_unique(r)) by {
                assert forall|a: int, b: int| 0 <= a < b < r.len() implies #[trigger] r[a].0 != #[trigger] r[b].0 by {
                    if b == es.len() {
                        assert(r[a] == es[a]);
                    } else {
                        assert(r[a] == es[a]);
                        assert(r[b] == es[b]);
                    }
                }
            }
        },
    }
}

} // verus!

verus! {

/// The header fields read from header lines never name a field twice.
pub proof fn header_lines_names_unique(lines: Seq<Seq<char>>)
    ensures
        header_lines(lines) matches Some(es) ==> names_unique(es),
    decreases lines.len(),
{
    if lines.len() > 0 {
        header_lines_names_unique(lines.drop_last());
        match header_lines(lines.drop_last()) {
            Some(es) => {
                let parts = split_once(lines.last(), ":"@);
                if parts.len() == 2 {
                    let k = trim(parts[0]);
                    assert(k.push('x').len() != k.len());
                    header_map_read_after_write(es, k, trim(parts[1]), k.push('x'));
                }
            },
            None => {},
        }
    }
}

} // verus!

verus! {

/// Whether reading `row` as a request line indexes a word that it lacks.
fn request_panics_exec(row: &[char]) -> (r: bool)
    ensures
        r == request_panics(row@),
{
    let fields = words_exec(row);
    if fields.len() == 0 {
        return true;
    }
    proof {
        assert(views(fields@)[0] == fields@[0]@);
    }
    HttpMethod::from_chars(&fields[0]).is_ok() && fields.len() < 3
}

/// Whether reading `row` as a status line indexes a word that it lacks.
fn response_panics_exec(row: &[char]) -> (r: bool)
    ensures
        r == response_panics(row@),
{
    let fields = words_exec(row);
    if fields.len() == 0 {
        return true;
    }
    proof {
        assert(views(fields@)[0] == fields@[0]@);
    }
    HttpVersion::from_chars(&fields[0]).is_ok() && fields.len() < 2
}

/// Whether reading the start line `row` indexes a word that it lacks.
fn instruction_panics_exec(row: &[char]) -> (r: bool)
    ensures
        r == instruction_panics(row@),
{
    if request_panics_exec(row) {
        return true;
    }
    HttpInstruction::request_from_chars(row).is_err() && response_panics_exec(row)
}

impl Http {
    /// Whether reading the bytes as a message indexes a word that its start
    /// line lacks.
    pub fn from_bytes_panics(bytes: &[u8]) -> (r: bool)
        ensures
            r == from_bytes_panics(bytes@),
    {
        if bytes.len() == 0 {
            return false;
        }
        let text = match string_from_utf8(bytes) {
            Some(t) => t,
            None => return false,
        };
        let crlf = chars_of("\r\n");
        proof {
            reveal_strlit("\r\n");
        }
        let rows = split_exec(&chars_of(text.as_str()), &crlf);
        let ghost rs = views(rows@);
        let n = rows.len();
        let mut e: usize = 0;
        while e < n && rows[e].len() != 0
            invariant
                n == rows@.len(),
                rs == views(rows@),
                e <= n,
                first_empty(rs, 0) == first_empty(rs, e as int),
            decreases n - e,
        {
            proof {
                assert(rs[e as int] == rows@[e as int]@);
            }
            e = e + 1;
        }
        if e == n {
            return false;
        }
        proof {
            assert(rs[e as int] == rows@[e as int]@);
            assert(first_empty(rs, e as int) == Some(e as int));
            assert(rs[0] == rows@[0]@);
        }
        instruction_panics_exec(&rows[0])
    }
}


/// A header line sets its field: after it, the field named by the trimmed
/// text before its first `:` reads as the trimmed text after it.
pub proof fn header_line_sets_its_field(lines: Seq<Seq<char>>, l: Seq<char>)
    ensures
        header_lines(lines) is Some && split_once(l, ":"@).len() == 2 ==> lookup(
            header_lines(lines.push(l))->0,
            trim(split_once(l, ":"@)[0]),
        ) == Some(trim(split_once(l, ":"@)[1])),
{
    let all = lines.push(l);
    assert(all.drop_last() =~= lines);
    if header_lines(lines) is Some && split_once(l, ":"@).len() == 2 {
        let es = header_lines(lines)->0;
        let parts = split_once(l, ":"@);
        header_lines_names_unique(lines);
        assert(trim(parts[0]).push('x').len() != trim(parts[0]).len());
        header_map_read_after_write(es, trim(parts[0]), trim(parts[1]), trim(parts[0]).push('x'));
    }
}


/// A request line reads as its words: the method the first names, the
/// target the second, the version the third names; a status line reads as
/// the version the first word names, the code the second word writes, and
/// the reason the further words joined by single spaces.
pub proof fn start_lines_follow_their_words(row: Seq<char>)
    ensures
        request_spec(row) matches Some(i) ==> {
            &&& i._type == HttpType::Request
            &&& HttpMethod::parse(words(row)[0]) == i.method
            &&& i.uri == Some(words(row)[1])
            &&& HttpVersion::parse(words(row)[2]) == Some(i.version)
            &&& i.status_code is None && i.status_text is None
        },
        response_spec(row) matches Some(i) ==> {
            &&& i._type == HttpType::Response
            &&& HttpVersion::parse(words(row)[0]) == Some(i.version)
            &&& i.status_code matches Some(c) && parse_u16(words(row)[1]) == Some(c as int)
            &&& i.status_text == Some(join(words(row).skip(2), " "@))
            &&& i.method is None && i.uri is None
        },
{
}

} // verus!
