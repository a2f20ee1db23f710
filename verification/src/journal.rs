//! The lines of the system journal (`journalctl -o short-unix`): a line is
//! matched against the journal pattern and its groups become the fields of
//! a log. The time (seconds with a fraction) is handed on as text.
use vstd::prelude::*;
use crate::num::{parse_u32, parse_u32_exec};
use crate::pattern::{captures, compile, groups_view, regex_builds, regex_captures, Pattern};

verus! {

/// A journal line: time, host, command, its pid in brackets, a colon and the
/// message.
pub const JOURNAL_ROW: &'static str = r"(\d+\.\d+)\s+(\S+)\s+(\S+)\[(\d+)\]:\s+(.+)";

/// The fields of a journal line.
#[derive(Debug, Clone)]
pub struct JournalFields {
    /// Seconds since the epoch, with their fraction, as written.
    pub timestamp: String,
    pub hostname: String,
    pub command: String,
    pub pid: u32,
    pub message: String,
}

/// The fields of a journal line, by their views.
pub struct JournalFieldsView {
    pub timestamp: Seq<char>,
    pub hostname: Seq<char>,
    pub command: Seq<char>,
    pub pid: u32,
    pub message: Seq<char>,
}

impl View for JournalFields {
    type V = JournalFieldsView;

    open spec fn view(&self) -> JournalFieldsView {
        JournalFieldsView {
            timestamp: self.timestamp@,
            hostname: self.hostname@,
            command: self.command@,
            pid: self.pid,
            message: self.message@,
        }
    }
}

/// A match holds the whole match and the five groups of the pattern.
pub open spec fn groups_complete(g: Seq<Option<Seq<char>>>) -> bool {
    &&& g.len() == 6
    &&& forall|i: int| 1 <= i < 6 ==> (#[trigger] g[i]) is Some
}

/// The fields that the groups of a match give: `None` when the pid is not a
/// `u32`.
pub open spec fn fields_of(g: Seq<Option<Seq<char>>>) -> Option<JournalFieldsView> {
    match parse_u32(g[4]->0) {
        Some(pid) => Some(
            JournalFieldsView {
                timestamp: g[1]->0,
                hostname: g[2]->0,
                command: g[3]->0,
                pid: pid as u32,
                message: g[5]->0,
            },
        ),
        None => None,
    }
}

/// The fields that the groups of a match give: `None` when the pid is not a
/// `u32`.
pub fn from_groups(groups: &Vec<Option<String>>) -> (r: Option<JournalFields>)
    requires
        groups_complete(groups_view(groups@)),
    ensures
        match r {
            Some(f) => fields_of(groups_view(groups@)) == Some(f@),
            None => fields_of(groups_view(groups@)) is None,
        },
{
    let ghost g = groups_view(groups@);
    proof {
        assert(g[1] is Some && g[2] is Some && g[3] is Some && g[4] is Some && g[5] is Some);
    }
    let pid = match &groups[4] {
        Some(p) => match parse_u32_exec(&crate::text::chars_of(p.as_str())) {
            Some(v) => v,
            None => return None,
        },
        None => return None,
    };
    match (&groups[1], &groups[2], &groups[3], &groups[5]) {
        (Some(t), Some(h), Some(c), Some(m)) => Some(
            JournalFields {
                timestamp: t.clone(),
                hostname: h.clone(),
                command: c.clone(),
                pid,
                message: m.clone(),
            },
        ),
        _ => None,
    }
}

/// What a journal line gives.
#[derive(Debug, Clone)]
pub enum JournalLine {
    /// The line does not match the pattern: it is passed over.
    Unmatched,
    /// A match lacks one of the groups of the pattern.
    Incomplete,
    /// The pid of the line is not a `u32`.
    BadPid,
    Read(JournalFields),
}

/// What a line gives, from the groups of its match.
pub open spec fn line_outcome(m: Option<Seq<Option<Seq<char>>>>, r: JournalLine) -> bool {
    match m {
        None => r is Unmatched,
        Some(g) => if !groups_complete(g) {
            r is Incomplete
        } else {
            match fields_of(g) {
                None => r is BadPid,
                Some(v) => r matches JournalLine::Read(f) && f@ == v,
            }
        },
    }
}

/// The journal pattern, compiled; `None` where `regex` refuses it.
pub fn journal_pattern() -> (r: Option<Pattern>)
    ensures
        r is Some <==> regex_builds(JOURNAL_ROW@),
        r matches Some(p) ==> p.source() == JOURNAL_ROW@,
{
    compile(JOURNAL_ROW)
}

/// Reads a journal line with the compiled journal pattern.
pub fn read_journal_line(p: &Pattern, line: &str) -> (r: JournalLine)
    requires
        p.source() == JOURNAL_ROW@,
    ensures
        line_outcome(regex_captures(JOURNAL_ROW@, line@), r),
{
    match captures(p, line) {
        None => JournalLine::Unmatched,
        Some(groups) => {
            if groups.len() != 6 {
                return JournalLine::Incomplete;
            }
            let mut i: usize = 1;
            while i < 6
                invariant
                    1 <= i <= 6,
                    groups@.len() == 6,
                    regex_captures(JOURNAL_ROW@, line@) == Some(groups_view(groups@)),
                    forall|j: int| 1 <= j < i ==> (#[trigger] groups_view(groups@)[j]) is Some,
                decreases 6 - i,
            {
                if groups[i].is_none() {
                    proof {
                        assert(groups_view(groups@)[i as int] is None);
                    }
                    return JournalLine::Incomplete;
                }
                i = i + 1;
            }
            match from_groups(&groups) {
                Some(f) => JournalLine::Read(f),
                None => JournalLine::BadPid,
            }
        },
    }
}


/// The fields of a complete match follow its groups: the time is
/// the first group, the host the second, the command the third, the pid the
/// number of the fourth and the message the fifth.
pub proof fn journal_fields_follow_the_groups(g: Seq<Option<Seq<char>>>)
    ensures
        groups_complete(g) ==> (fields_of(g) matches Some(f) ==> {
            &&& Some(f.timestamp) == g[1]
            &&& Some(f.hostname) == g[2]
            &&& Some(f.command) == g[3]
            &&& Some(f.pid as int) == parse_u32(g[4]->0)
            &&& Some(f.message) == g[5]
        }),
        groups_complete(g) ==> (fields_of(g) is None <==> parse_u32(g[4]->0) is None),
{
    if groups_complete(g) {
        assert(g[1] is Some && g[2] is Some && g[3] is Some && g[5] is Some);
    }
}

} // verus!
