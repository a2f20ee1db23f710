//! `/etc/services`: the names of network services, their ports and protocols.
use vstd::prelude::*;
use crate::etc::Error;
use crate::num::{parse_u16, parse_u16_exec};
use crate::pattern::{captures, compile, regex_builds, regex_captures, groups_view, Pattern};
use crate::text::{chars_of, lines, lines_exec, string_from_chars, views};

verus! {

/// The pattern of a service row: name, whitespace, port, `/`, protocol.
pub const ROW_REGEX: &'static str = r"^([a-zA-Z0-9-]+)\s+(\d{1,5})\/([a-zA-Z0-9-]+)";

/// A network service.
#[derive(Debug, Clone, PartialOrd, PartialEq)]
pub struct Service {
    pub name: String,
    pub port: u16,
    pub protocol: String,
}

/// The (name, port, protocol) triples of services.
pub open spec fn service_views(v: Seq<Service>) -> Seq<(Seq<char>, int, Seq<char>)> {
    v.map_values(|s: Service| (s.name@, s.port as int, s.protocol@))
}

/// The match holds the three groups of a service row.
pub open spec fn groups_present(c: Seq<Option<Seq<char>>>) -> bool {
    c.len() >= 4 && c[1] is Some && c[2] is Some && c[3] is Some
}

/// Reading the rows indexes a group that a match lacks, before a port fails
/// to parse.
pub open spec fn services_panic(rows: Seq<Seq<char>>) -> bool
    decreases rows.len(),
{
    if rows.len() == 0 {
        false
    } else {
        match regex_captures(ROW_REGEX@, rows[0]) {
            Some(c) => !groups_present(c) || (parse_u16(c[2]->0) is Some && services_panic(
                rows.drop_first(),
            )),
            None => services_panic(rows.drop_first()),
        }
    }
}

/// The services of the rows that match the row pattern, or `None` when a
/// port is not a 16-bit number.
pub open spec fn services_spec(rows: Seq<Seq<char>>) -> Option<Seq<(Seq<char>, int, Seq<char>)>>
    decreases rows.len(),
{
    if rows.len() == 0 {
        Some(seq![])
    } else {
        match regex_captures(ROW_REGEX@, rows[0]) {
            Some(c) => match parse_u16(c[2]->0) {
                Some(port) => match services_spec(rows.drop_first()) {
                    Some(rest) => Some(seq![(c[1]->0, port, c[3]->0)] + rest),
                    None => None,
                },
                None => None,
            },
            None => services_spec(rows.drop_first()),
        }
    }
}

/// Reads the rows with the compiled row pattern; `None` where a match lacks
/// a group.
fn services_from_rows(p: &Pattern, rows: &Vec<Vec<char>>) -> (r: Option<Result<Vec<Service>, Error>>)
    requires
        p.source() == ROW_REGEX@,
    ensures
        r is None <==> services_panic(views(rows@)),
        r matches Some(Ok(v)) ==> services_spec(views(rows@)) == Some(service_views(v@)),
        r matches Some(Err(e)) ==> services_spec(views(rows@)) is None && e == Error::ParseInt,
{
    let ghost rs = views(rows@);
    let mut out: Vec<Service> = Vec::new();
    let mut i: usize = 0;
    proof {
        assert(rs.skip(0) =~= rs);
    }
    while i < rows.len()
        invariant
            p.source() == ROW_REGEX@,
            i <= rows@.len(),
            rs == views(rows@),
            services_panic(rs) == services_panic(rs.skip(i as int)),
            !services_panic(rs.skip(i as int)) ==> services_spec(rs) == match services_spec(rs.skip(i as int)) {
                Some(rest) => Some(service_views(out@) + rest),
                None => None::<Seq<(Seq<char>, int, Seq<char>)>>,
            },
        decreases rows@.len() - i,
    {
        let ghost cur = rs.skip(i as int);
        proof {
            assert(cur[0] == rs[i as int]);
            assert(rs[i as int] == rows@[i as int]@);
            assert(cur.drop_first() =~= rs.skip(i + 1));
        }
        let line = string_from_chars(&rows[i]);
        match captures(p, line.as_str()) {
            Some(groups) => {
                let ghost c = groups_view(groups@);
                if groups.len() < 4 || groups[1].is_none() || groups[2].is_none() || groups[3].is_none() {
                    proof {
                        assert(!groups_present(c));
                    }
                    return None;
                }
                let name = match &groups[1] { Some(s) => s.clone(), None => String::new() };
                let port_text = match &groups[2] { Some(s) => chars_of(s.as_str()), None => Vec::new() };
                let protocol = match &groups[3] { Some(s) => s.clone(), None => String::new() };
                proof {
                    assert(c[1] == Some(name@));
                    assert(c[2] == Some(port_text@));
                    assert(c[3] == Some(protocol@));
                }
                let port = match parse_u16_exec(&port_text) {
                    Some(v) => v,
                    None => return Some(Err(Error::ParseInt)),
                };
                let ghost before = service_views(out@);
                out.push(Service { name, port, protocol });
                proof {
                    assert(service_views(out@) =~= before.push((c[1]->0, port as int, c[3]->0)));
                    match services_spec(rs.skip(i + 1)) {
                        Some(rest) => {
                            assert(before + (seq![(c[1]->0, port as int, c[3]->0)] + rest)
                                =~= service_views(out@) + rest);
                        },
                        None => {},
                    }
                }
            },
            None => {},
        }
        i = i + 1;
    }
    proof {
        assert(rs.skip(rows@.len() as int) =~= Seq::<Seq<char>>::empty());
        assert(service_views(out@) + Seq::<(Seq<char>, int, Seq<char>)>::empty() =~= service_views(out@));
    }
    Some(Ok(out))
}

/// Whether reading the rows with the compiled row pattern indexes a group
/// that a match lacks before a port fails to parse.
fn rows_panic(p: &Pattern, rows: &Vec<Vec<char>>) -> (b: bool)
    requires
        p.source() == ROW_REGEX@,
    ensures
        b == services_panic(views(rows@)),
{
    let ghost rs = views(rows@);
    let mut i: usize = 0;
    proof {
        assert(rs.skip(0) =~= rs);
    }
    while i < rows.len()
        invariant
            p.source() == ROW_REGEX@,
            i <= rows@.len(),
            rs == views(rows@),
            services_panic(rs) == services_panic(rs.skip(i as int)),
        decreases rows@.len() - i,
    {
        let ghost cur = rs.skip(i as int);
        proof {
            assert(cur[0] == rs[i as int]);
            assert(rs[i as int] == rows@[i as int]@);
            assert(cur.drop_first() =~= rs.skip(i + 1));
        }
        let line = string_from_chars(&rows[i]);
        match captures(p, line.as_str()) {
            Some(groups) => {
                let ghost c = groups_view(groups@);
                if groups.len() < 4 || groups[1].is_none() || groups[2].is_none() || groups[3].is_none() {
                    proof {
                        assert(!groups_present(c));
                    }
                    return true;
                }
                let port_text = match &groups[2] { Some(s) => chars_of(s.as_str()), None => Vec::new() };
                proof {
                    assert(c[2] == Some(port_text@));
                }
                if parse_u16_exec(&port_text).is_none() {
                    return false;
                }
            },
            None => {},
        }
        i = i + 1;
    }
    proof {
        assert(rs.skip(rows@.len() as int) =~= Seq::<Seq<char>>::empty());
    }
    false
}

impl Service {
    /// Reads the services file, where doing so cannot index a group that a
    /// match lacks (`None` where it could): each row that matches the row
    /// pattern gives a service; an error when the pattern does not compile or
    /// a port is not a 16-bit number.
    pub fn try_parse_etc_file(contents: &str) -> (r: Option<Result<Vec<Service>, Error>>)
        ensures
            !regex_builds(ROW_REGEX@) ==> r == Some(Err::<Vec<Service>, Error>(Error::Regex)),
            regex_builds(ROW_REGEX@) ==> {
                &&& (r is None <==> services_panic(lines(contents@)))
                &&& (r matches Some(Ok(v)) ==> services_spec(lines(contents@)) == Some(service_views(v@)))
                &&& (r matches Some(Err(e)) ==> services_spec(lines(contents@)) is None && e == Error::ParseInt)
            },
    {
        let p = match compile(ROW_REGEX) {
            Some(p) => p,
            None => return Some(Err(Error::Regex)),
        };
        let rows = lines_exec(&chars_of(contents));
        if rows_panic(&p, &rows) {
            return None;
        }
        Some(Self::parse_etc_file(contents))
    }

    /// Reads the services file: each row that matches the row pattern gives a
    /// service; an error when the pattern does not compile or a port is not a
    /// 16-bit number.
    pub fn parse_etc_file(contents: &str) -> (r: Result<Vec<Service>, Error>)
        requires
            regex_builds(ROW_REGEX@) ==> !services_panic(lines(contents@)),
        ensures
            !regex_builds(ROW_REGEX@) ==> r == Err::<Vec<Service>, Error>(Error::Regex),
            regex_builds(ROW_REGEX@) ==> {
                &&& (r matches Ok(v) ==> services_spec(lines(contents@)) == Some(service_views(v@)))
                &&& (r is Err ==> services_spec(lines(contents@)) is None && r == Err::<Vec<Service>, Error>(Error::ParseInt))
            },
    {
        let p = match compile(ROW_REGEX) {
            Some(p) => p,
            None => return Err(Error::Regex),
        };
        let rows = lines_exec(&chars_of(contents));
        match services_from_rows(&p, &rows) {
            Some(r) => r,
            None => Err(Error::Regex),
        }
    }
}

} // verus!
