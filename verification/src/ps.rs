//! The rows of `ps -eo pid,ppid,uid,lstart,pcpu,pmem,stat,args`: a row cut
//! into the fields of a process, and its start time read as a timestamp in
//! the machine's time zone. The CPU and memory shares (floating-point
//! numbers) are handed on as text.
use vstd::prelude::*;
use crate::num::{parse_u32, parse_u32_exec};
use crate::text::{
    chars_of, join, join_exec, push_piece, slice_copy, string_from_chars, views, words,
    words_exec,
};

verus! {

/// The fields of a row of `ps`.
#[derive(Debug, Clone)]
pub struct ProcessFields {
    pub pid: u32,
    pub ppid: u32,
    pub uid: u32,
    /// The start time, its five words joined by single spaces.
    pub start: String,
    pub pcpu: String,
    pub pmem: String,
    pub status: String,
    /// The command and its arguments, joined by single spaces.
    pub command: String,
}

/// The fields of a row, by their views.
pub struct ProcessFieldsView {
    pub pid: u32,
    pub ppid: u32,
    pub uid: u32,
    pub start: Seq<char>,
    pub pcpu: Seq<char>,
    pub pmem: Seq<char>,
    pub status: Seq<char>,
    pub command: Seq<char>,
}

impl View for ProcessFields {
    type V = ProcessFieldsView;

    open spec fn view(&self) -> ProcessFieldsView {
        ProcessFieldsView {
            pid: self.pid,
            ppid: self.ppid,
            uid: self.uid,
            start: self.start@,
            pcpu: self.pcpu@,
            pmem: self.pmem@,
            status: self.status@,
            command: self.command@,
        }
    }
}

/// The number of words a row needs: three ids, five words of start time,
/// two shares and a status.
pub open spec fn fixed_words() -> int {
    11
}

/// A row cut at whitespace into its fields: `None` when it has fewer than
/// eleven words or one of its three ids is not a `u32`.
pub open spec fn process_fields(row: Seq<char>) -> Option<ProcessFieldsView> {
    let w = words(row);
    if w.len() < fixed_words() {
        None
    } else {
        match (parse_u32(w[0]), parse_u32(w[1]), parse_u32(w[2])) {
            (Some(pid), Some(ppid), Some(uid)) => Some(
                ProcessFieldsView {
                    pid: pid as u32,
                    ppid: ppid as u32,
                    uid: uid as u32,
                    start: join(w.subrange(3, 8), " "@),
                    pcpu: w[8],
                    pmem: w[9],
                    status: w[10],
                    command: join(w.skip(11), " "@),
                },
            ),
            _ => None,
        }
    }
}

/// Copies `w[a..b]` of a list of words.
fn words_range(w: &Vec<Vec<char>>, a: usize, b: usize) -> (r: Vec<Vec<char>>)
    requires
        a <= b <= w@.len(),
    ensures
        views(r@) == views(w@).subrange(a as int, b as int),
{
    let mut r: Vec<Vec<char>> = Vec::new();
    let mut i: usize = a;
    while i < b
        invariant
            a <= i <= b <= w@.len(),
            views(r@) == views(w@).subrange(a as int, i as int),
        decreases b - i,
    {
        let c = slice_copy(&w[i], 0, w[i].len());
        proof {
            assert(w@[i as int]@.subrange(0, w@[i as int]@.len() as int) =~= w@[i as int]@);
            assert(views(w@)[i as int] == w@[i as int]@);
        }
        push_piece(&mut r, c);
        proof {
            assert(views(w@).subrange(a as int, i + 1) =~= views(w@).subrange(a as int, i as int).push(
                views(w@)[i as int],
            ));
        }
        i = i + 1;
    }
    r
}

/// Cuts a row of `ps` into the fields of a process; `None` when it has
/// fewer than eleven words or one of its three ids is not a `u32`.
pub fn split_process_row(row: &str) -> (r: Option<ProcessFields>)
    ensures
        match r {
            Some(f) => process_fields(row@) == Some(f@),
            None => process_fields(row@) is None,
        },
{
    let w = words_exec(&chars_of(row));
    let ghost ws = views(w@);
    if w.len() < 11 {
        return None;
    }
    proof {
        assert(ws[0] == w@[0]@);
        assert(ws[1] == w@[1]@);
        assert(ws[2] == w@[2]@);
        assert(ws[8] == w@[8]@);
        assert(ws[9] == w@[9]@);
        assert(ws[10] == w@[10]@);
    }
    let pid = match parse_u32_exec(&w[0]) {
        Some(v) => v,
        None => return None,
    };
    let ppid = match parse_u32_exec(&w[1]) {
        Some(v) => v,
        None => return None,
    };
    let uid = match parse_u32_exec(&w[2]) {
        Some(v) => v,
        None => return None,
    };
    let start = join_exec(&words_range(&w, 3, 8), &chars_of(" "));
    let command = join_exec(&words_range(&w, 11, w.len()), &chars_of(" "));
    proof {
        assert(ws.subrange(11, ws.len() as int) =~= ws.skip(11));
    }
    let f = ProcessFields {
        pid,
        ppid,
        uid,
        start: string_from_chars(&start),
        pcpu: string_from_chars(&w[8]),
        pmem: string_from_chars(&w[9]),
        status: string_from_chars(&w[10]),
        command: string_from_chars(&command),
    };
    Some(f)
}


// ---------------------------------------------------------------------------
// Start time
// ---------------------------------------------------------------------------

/// How `ps` writes a start time, such as `Sat Dec 14 18:39:49 2024` (English
/// day and month names).
pub const CTIME_FORMAT: &'static str = "%a %b %d %H:%M:%S %Y";

/// What `chrono::NaiveDateTime::parse_from_str` reads from `text` with
/// `format`, as seconds since the epoch when the date and time are taken as
/// UTC; `None` where it refuses the text.
pub uninterp spec fn naive_utc_seconds(text: Seq<char>, format: Seq<char>) -> Option<i64>;

/// A start time written by `ps`, as seconds since the epoch when it is taken
/// as UTC.
pub open spec fn ctime_utc_seconds(text: Seq<char>) -> Option<i64> {
    naive_utc_seconds(text, CTIME_FORMAT@)
}

/// Reads `text` with `format` through `chrono::NaiveDateTime::parse_from_str`
/// and gives the seconds since the epoch of the date and time taken as UTC
/// (`and_utc().timestamp()`); the contract names the result
/// `naive_utc_seconds` of the text and the format.
#[verifier::external_body]
pub fn parse_naive_utc(text: &str, format: &str) -> (r: Option<i64>)
    ensures
        r == naive_utc_seconds(text@, format@),
{
    match chrono::NaiveDateTime::parse_from_str(text, format) {
        Ok(date) => Some(date.and_utc().timestamp()),
        Err(_) => None,
    }
}

/// The offset from UTC, in seconds, of the machine's time zone at the date
/// and time whose seconds since the epoch, taken as UTC, are `utc`, that date
/// and time being read as local (`chrono::Local::offset_from_local_datetime`,
/// `local_minus_utc`); `None` when that local time does not exist or is
/// ambiguous. It depends on the machine's time zone, so the contract only
/// bounds it, as `chrono::FixedOffset` does.
#[verifier::external_body]
pub fn local_offset_seconds(utc: i64) -> (r: Option<i64>)
    ensures
        r matches Some(o) ==> -86400 < o < 86400,
{
    let naive = chrono::DateTime::from_timestamp(utc, 0)?.naive_utc();
    let offset = chrono::TimeZone::offset_from_local_datetime(&chrono::Local, &naive).single()?;
    Some(offset.local_minus_utc() as i64)
}

/// The timestamp of a local date and time whose seconds, taken as UTC, are
/// `utc`, in a zone `offset` seconds ahead of UTC; `None` when it does not
/// fit in an `i64`.
pub fn local_timestamp(utc: i64, offset: i64) -> (r: Option<i64>)
    ensures
        r == (if i64::MIN <= utc - offset <= i64::MAX {
            Some((utc - offset) as i64)
        } else {
            None
        }),
{
    utc.checked_sub(offset)
}

/// The start time of a process as `ps` writes it, read in the machine's time
/// zone, as seconds since the epoch; `None` when the text is not such a time
/// or the local time does not exist or is ambiguous. The result differs from
/// the time taken as UTC by less than a day.
pub fn parse_unix_ctime(start: &str) -> (r: Option<i64>)
    ensures
        ctime_utc_seconds(start@) is None ==> r is None,
        r matches Some(t) ==> (ctime_utc_seconds(start@) matches Some(u) && -86400 < u - t
            < 86400),
        r matches Some(t) ==> (ctime_utc_seconds(start@) matches Some(u) && exists|o: i64|
            #[trigger] call_ensures(local_offset_seconds, (u,), Some(o)) && t == u - o),
        ctime_utc_seconds(start@) matches Some(u) ==> (r is None ==> exists|o: Option<i64>|
            #[trigger] call_ensures(local_offset_seconds, (u,), o) && (o matches Some(x) ==> !(
            i64::MIN <= u - x <= i64::MAX))),
{
    let utc = match parse_naive_utc(start, CTIME_FORMAT) {
        Some(u) => u,
        None => return None,
    };
    let offset = match local_offset_seconds(utc) {
        Some(o) => o,
        None => return None,
    };
    local_timestamp(utc, offset)
}


/// A start time is read in the machine's time zone: when it is read, it is
/// the time written, taken as UTC, less the offset from UTC that the machine
/// gave for that local time (`local_minus_utc`), so adding that offset back
/// gives the UTC reading.
pub proof fn start_time_is_read_in_the_local_zone(start: &str, r: Option<i64>)
    requires
        call_ensures(parse_unix_ctime, (start,), r),
    ensures
        r matches Some(t) ==> exists|u: i64, o: i64|
            ctime_utc_seconds(start@) == Some(u) && #[trigger] call_ensures(
                local_offset_seconds,
                (u,),
                Some(o),
            ) && t + o == u,
{
    if r is Some {
        let t = r->0;
        let u = ctime_utc_seconds(start@)->0;
        let o = choose|o: i64| #[trigger] call_ensures(local_offset_seconds, (u,), Some(o)) && t == u - o;
        assert(ctime_utc_seconds(start@) == Some(u) && call_ensures(local_offset_seconds, (u,), Some(o))
            && t + o == u);
    }
}


/// The fields of a `ps` row follow its words: the pid, the parent's pid and
/// the uid are the numbers of the first three words; the start time is the
/// next five words joined by single spaces; then come the CPU share, the
/// memory share and the status, and the command is every word after those,
/// joined by single spaces.
pub proof fn process_fields_follow_the_words(row: Seq<char>)
    ensures
        process_fields(row) matches Some(f) ==> {
            let w = words(row);
            &&& w.len() >= 11
            &&& parse_u32(w[0]) == Some(f.pid as int)
            &&& parse_u32(w[1]) == Some(f.ppid as int)
            &&& parse_u32(w[2]) == Some(f.uid as int)
            &&& f.start == join(w.subrange(3, 8), " "@)
            &&& f.pcpu == w[8]
            &&& f.pmem == w[9]
            &&& f.status == w[10]
            &&& f.command == join(w.subrange(11, w.len() as int), " "@)
        },
        process_fields(row) is None <==> (words(row).len() < 11 || parse_u32(words(row)[0]) is None
            || parse_u32(words(row)[1]) is None || parse_u32(words(row)[2]) is None),
{
    let w = words(row);
    if w.len() >= 11 {
        assert(w.subrange(11, w.len() as int) =~= w.skip(11));
    }
}

} // verus!
