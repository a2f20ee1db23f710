//! Open files, as `lsof -F pcuftDsin` reports them.
use vstd::prelude::*;
use crate::clock::now_millis;
use crate::num::{parse_i16, parse_u32, parse_u64};
use crate::text::{free_of, join, lines, replace_char, split, split_join_back};

pub mod unix;

verus! {

/// Which open files to list.
#[derive(Debug, Clone, Copy, PartialEq, Eq, Structural)]
pub enum FileType {
    REGULAR,
    NETWORK,
    ALL,
}

impl FileType {
    /// The name of the kind of file.
    pub open spec fn name(self) -> Seq<char> {
        match self {
            FileType::REGULAR => "regular"@,
            FileType::NETWORK => "network"@,
            FileType::ALL => "all"@,
        }
    }

    /// The name of the kind of file.
    pub fn to_string(&self) -> (r: String)
        ensures
            r@ == self.name(),
    {
        match self {
            FileType::REGULAR => String::from_str("regular"),
            FileType::NETWORK => String::from_str("network"),
            FileType::ALL => String::from_str("all"),
        }
    }
}

/// Errors in reading the output of `lsof`.
#[derive(Debug, Clone, PartialEq, Eq)]
pub enum Error {
    /// A number of the output is not a valid integer of its type.
    ParseInt,
}

/// One open file of one process.
#[derive(Debug, Clone)]
pub struct OpenFile {
    pub command: String,
    pub pid: u32,
    pub uid: i16,
    pub fd: String,
    pub _type: String,
    pub device: String,
    pub size: u64,
    pub node: String,
    pub name: String,
    pub created_at: i64,
}

impl OpenFile {
    /// An open file of the process `pid` of user `uid` running `command`,
    /// with empty fields and a zero size, stamped with the current time.
    pub fn new(pid: u32, uid: i16, command: &str) -> (r: OpenFile)
        ensures
            r.pid == pid,
            r.uid == uid,
            r.command@ == command@,
            r.fd@ == Seq::<char>::empty(),
            r._type@ == Seq::<char>::empty(),
            r.device@ == Seq::<char>::empty(),
            r.size == 0,
            r.node@ == Seq::<char>::empty(),
            r.name@ == Seq::<char>::empty(),
    {
        OpenFile {
            command: String::from_str(command),
            pid,
            uid,
            fd: String::new(),
            _type: String::new(),
            device: String::new(),
            size: 0,
            node: String::new(),
            name: String::new(),
            created_at: now_millis(),
        }
    }
}

// ---------------------------------------------------------------------------
// The format
// ---------------------------------------------------------------------------

/// `&s[1..]` does not panic: `s` has a first character and it is one byte long.
pub open spec fn tail_ok(s: Seq<char>) -> bool {
    s.len() > 0 && (s[0] as u32) < 128
}

/// Reading the header lines `p<pid>`, `c<command>`, `u<uid>` panics.
pub open spec fn header_panics(h: Seq<char>) -> bool {
    let hs = lines(h);
    ||| hs.len() == 0
    ||| {
        &&& parse_u32(replace_char(hs[0], 'p', Seq::empty())) is Some
        &&& {
            ||| hs.len() < 3
            ||| !tail_ok(hs[2])
            ||| (parse_i16(hs[2].drop_first()) is Some && !tail_ok(hs[1]))
        }
    }
}

/// The process of a header that does not panic: its pid (the first line
/// without any `p`), its uid and its command, or `None` where a number does
/// not parse.
pub open spec fn header_spec(h: Seq<char>) -> Option<(u32, i16, Seq<char>)> {
    let hs = lines(h);
    match parse_u32(replace_char(hs[0], 'p', Seq::empty())) {
        Some(pid) => match parse_i16(hs[2].drop_first()) {
            Some(uid) => Some((pid as u32, uid as i16, hs[1].drop_first())),
            None => None,
        },
        None => None,
    }
}

/// The field labels that a file row may hold after its descriptor.
pub open spec fn label_ok(c: char) -> bool {
    c == 't' || c == 's' || c == 'i' || c == 'D' || c == 'n'
}

/// The lines of a file row: a descriptor, then labelled fields with known
/// labels, the size a valid `u64`.
pub open spec fn row_ok(row: Seq<char>) -> bool {
    let f = lines(row);
    &&& f.len() >= 1
    &&& forall|i: int|
        1 <= i < f.len() ==> {
            &&& (#[trigger] f[i]).len() > 0
            &&& label_ok(f[i][0])
            &&& (f[i][0] == 's' ==> parse_u64(f[i].drop_first()) is Some)
        }
}

/// The value of the last field, after the descriptor, labelled `label`.
pub open spec fn field_value(fields: Seq<Seq<char>>, label: char) -> Option<Seq<char>>
    decreases fields.len(),
{
    if fields.len() <= 1 {
        None
    } else if fields.last().len() > 0 && fields.last()[0] == label {
        Some(fields.last().drop_first())
    } else {
        field_value(fields.drop_last(), label)
    }
}

/// A field's text, empty when the row lacks it.
pub open spec fn text_or_empty(v: Option<Seq<char>>) -> Seq<char> {
    match v {
        Some(t) => t,
        None => Seq::empty(),
    }
}

/// The size a row gives, zero when it gives none.
pub open spec fn size_of(v: Option<Seq<char>>) -> int {
    match v {
        Some(t) => match parse_u64(t) {
            Some(n) => n,
            None => 0,
        },
        None => 0,
    }
}

/// `f` is the open file that `row` describes for the process of `header`
/// (all but the time stamp).
pub open spec fn open_file_of(f: OpenFile, header: (u32, i16, Seq<char>), row: Seq<char>) -> bool {
    let fields = lines(row);
    &&& f.pid == header.0
    &&& f.uid == header.1
    &&& f.command@ == header.2
    &&& f.fd@ == fields[0]
    &&& f._type@ == text_or_empty(field_value(fields, 't'))
    &&& f.size == size_of(field_value(fields, 's'))
    &&& f.node@ == text_or_empty(field_value(fields, 'i'))
    &&& f.device@ == text_or_empty(field_value(fields, 'D'))
    &&& f.name@ == text_or_empty(field_value(fields, 'n'))
}

/// `str::split` that gives nothing for an empty text.
pub open spec fn split_nonempty(s: Seq<char>, pat: Seq<char>) -> Seq<Seq<char>> {
    if s.len() == 0 {
        seq![]
    } else {
        split(s, pat)
    }
}

/// The blocks of the output, one per process.
pub open spec fn process_blocks(output: Seq<char>) -> Seq<Seq<char>> {
    split_nonempty(output, "\np"@)
}

/// Cutting the output into process blocks loses nothing: an empty output
/// gives no block, any other output is given back by joining its blocks with
/// the separator, and no block holds the separator.
pub proof fn process_blocks_join_back(output: Seq<char>)
    ensures
        output.len() == 0 ==> process_blocks(output).len() == 0,
        output.len() > 0 ==> join(process_blocks(output), "\np"@) == output,
        forall|n: int|
            0 <= n < process_blocks(output).len() ==> free_of(
                #[trigger] process_blocks(output)[n],
                "\np"@,
            ),
{
    reveal_strlit("\np");
    split_join_back(output, "\np"@);
}

/// The rows of a process block: the header, then one per open file.
pub open spec fn block_rows(block: Seq<char>) -> Seq<Seq<char>> {
    split_nonempty(block, "\nf"@)
}

/// Reading the blocks `bs` panics.
pub open spec fn blocks_panic(bs: Seq<Seq<char>>) -> bool
    decreases bs.len(),
{
    if bs.len() == 0 {
        false
    } else {
        let rows = block_rows(bs[0]);
        ||| rows.len() == 0
        ||| header_panics(rows[0])
        ||| (header_spec(rows[0]) is Some && ((exists|i: int|
            1 <= i < rows.len() && !row_ok(#[trigger] rows[i])) || blocks_panic(bs.drop_first())))
    }
}

/// The (header, row) pairs of the blocks `bs`, or `None` when a header holds
/// a number that does not parse.
pub open spec fn blocks_rows(bs: Seq<Seq<char>>) -> Option<Seq<((u32, i16, Seq<char>), Seq<char>)>>
    decreases bs.len(),
{
    if bs.len() == 0 {
        Some(seq![])
    } else {
        let rows = block_rows(bs[0]);
        match header_spec(rows[0]) {
            Some(h) => match blocks_rows(bs.drop_first()) {
                Some(rest) => Some(rows.drop_first().map_values(|r: Seq<char>| (h, r)) + rest),
                None => None,
            },
            None => None,
        }
    }
}

} // verus!

verus! {

/// Reads the whole output of `lsof -F pcuftDsin` (see `Unix::parse_output`).
pub fn parse_cmd_output(output: &str) -> (r: Result<Vec<OpenFile>, Error>)
    requires
        !blocks_panic(process_blocks(output@)),
    ensures
        r is Ok <==> blocks_rows(process_blocks(output@)) is Some,
        r matches Ok(v) ==> v@.len() == blocks_rows(process_blocks(output@))->0.len() && forall|i: int|
            0 <= i < v@.len() ==> open_file_of(
                #[trigger] v@[i],
                blocks_rows(process_blocks(output@))->0[i].0,
                blocks_rows(process_blocks(output@))->0[i].1,
            ),
{
    unix::Unix::parse_output(output)
}


/// A process header of `lsof -F` reads as its lines: the pid is the number
/// of the first line once its `p` is taken out, the command is the second
/// line after its label, and the uid the number of the third line after its
/// label.
pub proof fn header_follows_its_lines(h: Seq<char>)
    ensures
        header_spec(h) matches Some((pid, uid, command)) ==> {
            &&& parse_u32(replace_char(lines(h)[0], 'p', Seq::empty())) == Some(pid as int)
            &&& command == lines(h)[1].drop_first()
            &&& parse_i16(lines(h)[2].drop_first()) == Some(uid as int)
        },
{
}

/// An open file takes its process's pid, uid and command from the header,
/// its descriptor from the first line of its row, and each other field from
/// the line of its `lsof` label: `t` the type, `s` the size, `i` the node,
/// `D` the device and `n` the name.
pub proof fn open_file_follows_its_labels(f: OpenFile, header: (u32, i16, Seq<char>), row: Seq<char>)
    requires
        open_file_of(f, header, row),
    ensures
        f.pid == header.0 && f.uid == header.1 && f.command@ == header.2,
        f.fd@ == lines(row)[0],
        f._type@ == text_or_empty(field_value(lines(row), 't')),
        f.size == size_of(field_value(lines(row), 's')),
        f.node@ == text_or_empty(field_value(lines(row), 'i')),
        f.device@ == text_or_empty(field_value(lines(row), 'D')),
        f.name@ == text_or_empty(field_value(lines(row), 'n')),
{
}

/// The value of a label is the text after it on the last line, after the
/// first, that begins with it; none when no such line does.
pub proof fn field_value_is_the_last_labelled_line(fields: Seq<Seq<char>>, label: char)
    ensures
        field_value(fields, label) matches Some(v) ==> exists|k: int|
            1 <= k < fields.len() && fields[k].len() > 0 && fields[k][0] == label && v
                == fields[k].drop_first() && forall|j: int|
                k < j < fields.len() ==> !(fields[j].len() > 0 && fields[j][0] == label),
        field_value(fields, label) is None ==> forall|k: int|
            1 <= k < fields.len() ==> !(fields[k].len() > 0 && fields[k][0] == label),
    decreases fields.len(),
{
    if fields.len() > 1 {
        let pre = fields.drop_last();
        field_value_is_the_last_labelled_line(pre, label);
        if !(fields.last().len() > 0 && fields.last()[0] == label) {
            if field_value(fields, label) is Some {
                let k = choose|k: int|
                    1 <= k < pre.len() && pre[k].len() > 0 && pre[k][0] == label && field_value(pre, label)->0
                        == pre[k].drop_first() && forall|j: int|
                        k < j < pre.len() ==> !(pre[j].len() > 0 && pre[j][0] == label);
                assert(fields[k] == pre[k]);
                assert forall|j: int| k < j < fields.len() implies !(fields[j].len() > 0 && fields[j][0] == label) by {
                    if j < pre.len() {
                        assert(fields[j] == pre[j]);
                    }
                }
            } else {
                assert forall|k: int| 1 <= k < fields.len() implies !(fields[k].len() > 0 && fields[k][0] == label) by {
                    if k < pre.len() {
                        assert(fields[k] == pre[k]);
                    }
                }
            }
        } else {
            let k = fields.len() - 1;
            assert(fields[k] == fields.last());
        }
    }
}

} // verus!
