//! Reading the output of `lsof` on Linux and macOS.
use vstd::prelude::*;
use crate::lsof::{
    block_rows, blocks_panic, blocks_rows, field_value, header_panics, header_spec, label_ok,
    open_file_of, process_blocks, row_ok, size_of, split_nonempty, tail_ok, text_or_empty, Error,
    OpenFile,
};
use crate::num::{parse_i16_exec, parse_u32_exec, parse_u64, parse_u64_exec};
use crate::text::{chars_of, lines, lines_exec, replace_char_exec, slice_copy, split_exec, string_from_chars, strings, views};

verus! {

/// `lsof` as Linux and macOS provide it.
pub struct Unix;

/// `str::split` that gives nothing for an empty text, on characters.
fn split_nonempty_chars(s: &[char], pat: &[char]) -> (r: Vec<Vec<char>>)
    requires
        pat@.len() > 0,
    ensures
        views(r@) == split_nonempty(s@, pat@),
{
    if s.len() == 0 {
        Vec::new()
    } else {
        split_exec(s, pat)
    }
}

/// Texts made strings.
fn to_strings(v: &Vec<Vec<char>>) -> (r: Vec<String>)
    ensures
        strings(r@) == views(v@),
{
    let mut r: Vec<String> = Vec::new();
    let mut i: usize = 0;
    while i < v.len()
        invariant
            i <= v@.len(),
            strings(r@) == views(v@).take(i as int),
        decreases v@.len() - i,
    {
        let s = string_from_chars(&v[i]);
        let ghost before = strings(r@);
        r.push(s);
        proof {
            assert(strings(r@) =~= before.push(v@[i as int]@));
            assert(views(v@).take(i + 1) =~= views(v@).take(i as int).push(v@[i as int]@));
        }
        i = i + 1;
    }
    proof {
        assert(views(v@).take(v@.len() as int) =~= views(v@));
    }
    r
}

/// The blocks of the output, one per process: the output cut at each line
/// that starts with `p`, nothing for an empty output.
pub fn split_of_per_process(output: &str) -> (r: Vec<String>)
    ensures
        strings(r@) == process_blocks(output@),
{
    let pat = chars_of("\np");
    proof {
        reveal_strlit("\np");
    }
    to_strings(&split_nonempty_chars(&chars_of(output), &pat))
}

/// The rows of a process block, cut at each line that starts with `f`:
/// the header, then one row per open file; nothing for an empty block.
pub fn split_process_per_rows(of_per_process: &str) -> (r: Vec<String>)
    ensures
        strings(r@) == block_rows(of_per_process@),
{
    let pat = chars_of("\nf");
    proof {
        reveal_strlit("\nf");
    }
    to_strings(&split_nonempty_chars(&chars_of(of_per_process), &pat))
}

/// `&s[1..]` on characters, where the first character is one byte long.
fn tail(s: &Vec<char>) -> (r: Vec<char>)
    requires
        s@.len() > 0,
    ensures
        r@ == s@.drop_first(),
{
    slice_copy(s, 1, s.len())
}

/// Reads a process header: the pid (the first line, its `p` removed), the
/// command (the second line without its label) and the uid (the third line
/// without its label).
fn deserialize_header_chars(header: &[char]) -> (r: Result<(u32, i16, Vec<char>), Error>)
    requires
        !header_panics(header@),
    ensures
        r matches Ok(h) ==> header_spec(header@) == Some((h.0, h.1, h.2@)),
        r is Err ==> header_spec(header@) is None,
{
    let hs = lines_exec(header);
    assert(views(hs@)[0] == hs@[0]@);
    let pid_text = replace_char_exec(&hs[0], 'p', &[]);
    proof {
        let e: [char; 0] = [];
        assert(e@ =~= Seq::<char>::empty());
    }
    let pid = match parse_u32_exec(&pid_text) {
        Some(v) => v,
        None => return Err(Error::ParseInt),
    };
    assert(views(hs@)[2] == hs@[2]@);
    assert(views(hs@)[1] == hs@[1]@);
    let uid_text = tail(&hs[2]);
    let uid = match parse_i16_exec(&uid_text) {
        Some(v) => v,
        None => return Err(Error::ParseInt),
    };
    let command = tail(&hs[1]);
    Ok((pid, uid, command))
}

/// Reads a process header: the pid (the first line, its `p` removed), the
/// command (the second line without its label) and the uid (the third line
/// without its label).
pub fn deserialize_header(header: &str) -> (r: Result<(u32, i16, String), Error>)
    requires
        !header_panics(header@),
    ensures
        r matches Ok(h) ==> header_spec(header@) == Some((h.0, h.1, h.2@)),
        r is Err ==> header_spec(header@) is None,
{
    match deserialize_header_chars(&chars_of(header)) {
        Ok((pid, uid, command)) => Ok((pid, uid, string_from_chars(&command))),
        Err(e) => Err(e),
    }
}

/// Reads a file row of the process `header`: the first line is the file
/// descriptor, each further line a labelled field (`t` type, `s` size, `i`
/// node, `D` device, `n` name), a later field overriding an earlier one.
fn row_to_struct_chars(header: &(u32, i16, String), row: &[char]) -> (r: OpenFile)
    requires
        row_ok(row@),
    ensures
        open_file_of(r, (header.0, header.1, header.2@), row@),
{
    let fields = lines_exec(row);
    let ghost fs = views(fields@);
    let mut f = OpenFile::new(header.0, header.1, header.2.as_str());
    assert(fs[0] == fields@[0]@);
    f.fd = string_from_chars(&fields[0]);
    let mut i: usize = 1;
    proof {
        assert(fs.take(1).len() == 1);
    }
    while i < fields.len()
        invariant
            1 <= i <= fields@.len(),
            fs == views(fields@),
            fs == lines(row@),
            row_ok(row@),
            f.pid == header.0,
            f.uid == header.1,
            f.command@ == header.2@,
            f.fd@ == fs[0],
            f._type@ == text_or_empty(field_value(fs.take(i as int), 't')),
            f.size == size_of(field_value(fs.take(i as int), 's')),
            f.node@ == text_or_empty(field_value(fs.take(i as int), 'i')),
            f.device@ == text_or_empty(field_value(fs.take(i as int), 'D')),
            f.name@ == text_or_empty(field_value(fs.take(i as int), 'n')),
        decreases fields@.len() - i,
    {
        let ghost t = fs.take(i + 1);
        proof {
            assert(fs[i as int] == fields@[i as int]@);
            assert(t.drop_last() =~= fs.take(i as int));
            assert(t.last() == fs[i as int]);
            assert(fs[i as int].len() > 0 && label_ok(fs[i as int][0]));
        }
        let label = fields[i][0];
        let value = tail(&fields[i]);
        if label == 't' {
            f._type = string_from_chars(&value);
        } else if label == 's' {
            let n = parse_u64_exec(&value);
            proof {
                assert(parse_u64(fs[i as int].drop_first()) is Some);
            }
            f.size = n.unwrap();
        } else if label == 'i' {
            f.node = string_from_chars(&value);
        } else if label == 'D' {
            f.device = string_from_chars(&value);
        } else {
            f.name = string_from_chars(&value);
        }
        i = i + 1;
    }
    proof {
        assert(fs.take(fs.len() as int) =~= fs);
    }
    f
}

/// Reads a file row of the process `header`: the first line is the file
/// descriptor, each further line a labelled field (`t` type, `s` size, `i`
/// node, `D` device, `n` name), a later field overriding an earlier one.
pub fn row_to_struct(header: &(u32, i16, String), row: &str) -> (r: OpenFile)
    requires
        row_ok(row@),
    ensures
        open_file_of(r, (header.0, header.1, header.2@), row@),
{
    row_to_struct_chars(header, &chars_of(row))
}

impl Unix {
    /// Reads the whole output of `lsof -F pcuftDsin`: for each process block,
    /// its header, then one open file per further row; an error where a
    /// header holds a number that does not parse.
    pub fn parse_output(output: &str) -> (r: Result<Vec<OpenFile>, Error>)
        requires
            !blocks_panic(process_blocks(output@)),
        ensures
            r is Ok <==> blocks_rows(process_blocks(output@)) is Some,
            r matches Ok(v) ==> v@.len() == blocks_rows(process_blocks(output@))->0.len()
                && forall|i: int|
                0 <= i < v@.len() ==> open_file_of(
                    #[trigger] v@[i],
                    blocks_rows(process_blocks(output@))->0[i].0,
                    blocks_rows(process_blocks(output@))->0[i].1,
                ),
    {
        let pat_p = chars_of("\np");
        let pat_f = chars_of("\nf");
        proof {
            reveal_strlit("\np");
            reveal_strlit("\nf");
        }
        let blocks = split_nonempty_chars(&chars_of(output), &pat_p);
        let ghost bs = views(blocks@);
        let ghost all = blocks_rows(bs);
        let ghost mut done: Seq<((u32, i16, Seq<char>), Seq<char>)> = seq![];
        let mut out: Vec<OpenFile> = Vec::new();
        let mut k: usize = 0;
        proof {
            assert(bs.skip(0) =~= bs);
        }
        while k < blocks.len()
            invariant
                k <= blocks@.len(),
                bs == views(blocks@),
                pat_f@ == "\nf"@,
                pat_f@.len() > 0,
                all == blocks_rows(bs),
                bs == process_blocks(output@),
                !blocks_panic(bs.skip(k as int)),
                all == match blocks_rows(bs.skip(k as int)) {
                    Some(rest) => Some(done + rest),
                    None => None::<Seq<((u32, i16, Seq<char>), Seq<char>)>>,
                },
                out@.len() == done.len(),
                forall|i: int| 0 <= i < done.len() ==> open_file_of(#[trigger] out@[i], done[i].0, done[i].1),
            decreases blocks@.len() - k,
        {
            let ghost cur = bs.skip(k as int);
            proof {
                assert(cur[0] == bs[k as int]);
                assert(bs[k as int] == blocks@[k as int]@);
                assert(cur.drop_first() =~= bs.skip(k + 1));
            }
            let rows = split_nonempty_chars(&blocks[k], &pat_f);
            let ghost rs = views(rows@);
            assert(rs.len() > 0);
            assert(rs[0] == rows@[0]@);
            let header = match deserialize_header_chars(&rows[0]) {
                Ok((pid, uid, command)) => (pid, uid, string_from_chars(&command)),
                Err(e) => {
                    proof {
                        assert(header_spec(rs[0]) is None);
                        assert(blocks_rows(cur) is None);
                        assert(all is None);
                        assert(bs == process_blocks(output@));
                    }
                    return Err(e);
                },
            };
            let ghost h = (header.0, header.1, header.2@);
            let mut j: usize = 1;
            let ghost base = done;
            while j < rows.len()
                invariant
                    1 <= j <= rows@.len(),
                    rs == views(rows@),
                    rs == block_rows(cur[0]),
                    h == (header.0, header.1, header.2@),
                    forall|q: int| 1 <= q < rs.len() ==> row_ok(#[trigger] rs[q]),
                    out@.len() == base.len() + j - 1,
                    forall|q: int| 0 <= q < base.len() ==> open_file_of(#[trigger] out@[q], base[q].0, base[q].1),
                    forall|q: int| base.len() <= q < out@.len() ==> open_file_of(#[trigger] out@[q], h, rs[q - base.len() + 1]),
                decreases rows@.len() - j,
            {
                assert(rs[j as int] == rows@[j as int]@);
                assert(row_ok(rs[j as int]));
                let f = row_to_struct_chars(&header, &rows[j]);
                let ghost before = out@;
                out.push(f);
                proof {
                    assert forall|q: int| base.len() <= q < out@.len() implies open_file_of(#[trigger] out@[q], h, rs[q - base.len() + 1]) by {
                        if q < before.len() {
                            assert(out@[q] == before[q]);
                        } else {
                            assert(q == base.len() + j - 1);
                            assert(q - base.len() + 1 == j);
                            assert(out@[q] == f);
                            assert(rs[j as int] == rows@[j as int]@);
                            assert(open_file_of(f, h, rows@[j as int]@));
                        }
                    }
                    assert forall|q: int| 0 <= q < base.len() implies open_file_of(#[trigger] out@[q], base[q].0, base[q].1) by {
                        assert(out@[q] == before[q]);
                    }
                }
                j = j + 1;
            }
            proof {
                let added = rs.drop_first().map_values(|r: Seq<char>| (h, r));
                done = base + added;
                assert forall|i: int| 0 <= i < done.len() implies open_file_of(#[trigger] out@[i], done[i].0, done[i].1) by {
                    if i >= base.len() {
                        assert(done[i] == (h, rs[i - base.len() + 1]));
                    } else {
                        assert(done[i] == base[i]);
                    }
                }
                match blocks_rows(bs.skip(k + 1)) {
                    Some(rest) => {
                        assert(base + (added + rest) =~= done + rest);
                    },
                    None => {},
                }
            }
            k = k + 1;
        }
        proof {
            assert(bs.skip(blocks@.len() as int) =~= Seq::<Seq<char>>::empty());
            assert(done + Seq::<((u32, i16, Seq<char>), Seq<char>)>::empty() =~= done);
        }
        Ok(out)
    }
}

} // verus!

verus! {

/// Whether `&s[1..]` can be taken of a line.
fn tail_ok_exec(s: &Vec<char>) -> (r: bool)
    ensures
        r == tail_ok(s@),
{
    s.len() > 0 && (s[0] as u32) < 128
}

/// Whether reading a process header panics.
fn header_panics_exec(header: &[char]) -> (r: bool)
    ensures
        r == header_panics(header@),
{
    let hs = lines_exec(header);
    if hs.len() == 0 {
        return true;
    }
    assert(views(hs@)[0] == hs@[0]@);
    let pid_text = replace_char_exec(&hs[0], 'p', &[]);
    proof {
        let e: [char; 0] = [];
        assert(e@ =~= Seq::<char>::empty());
    }
    if parse_u32_exec(&pid_text).is_none() {
        return false;
    }
    if hs.len() < 3 {
        return true;
    }
    assert(views(hs@)[2] == hs@[2]@);
    assert(views(hs@)[1] == hs@[1]@);
    if !tail_ok_exec(&hs[2]) {
        return true;
    }
    parse_i16_exec(&tail(&hs[2])).is_some() && !tail_ok_exec(&hs[1])
}

/// Whether a file row has a descriptor and only known, well-formed fields.
fn row_ok_exec(row: &[char]) -> (r: bool)
    ensures
        r == row_ok(row@),
{
    let fields = lines_exec(row);
    let ghost fs = views(fields@);
    if fields.len() < 1 {
        return false;
    }
    let mut i: usize = 1;
    while i < fields.len()
        invariant
            1 <= i <= fields@.len(),
            fs == views(fields@),
            fs == lines(row@),
            forall|k: int|
                1 <= k < i ==> {
                    &&& (#[trigger] fs[k]).len() > 0
                    &&& label_ok(fs[k][0])
                    &&& (fs[k][0] == 's' ==> parse_u64(fs[k].drop_first()) is Some)
                },
        decreases fields@.len() - i,
    {
        proof {
            assert(fs[i as int] == fields@[i as int]@);
        }
        if fields[i].len() == 0 {
            return false;
        }
        let label = fields[i][0];
        if !(label == 't' || label == 's' || label == 'i' || label == 'D' || label == 'n') {
            return false;
        }
        if label == 's' && parse_u64_exec(&tail(&fields[i])).is_none() {
            return false;
        }
        i = i + 1;
    }
    true
}

/// Whether the whole output of `lsof -F pcuftDsin` can be read without a
/// panic: each process block has a header that reads, and where the header's
/// numbers parse, the rows of the block are well-formed.
pub fn cmd_output_readable(output: &str) -> (r: bool)
    ensures
        r == !blocks_panic(process_blocks(output@)),
{
    let pat_p = chars_of("\np");
    let pat_f = chars_of("\nf");
    proof {
        reveal_strlit("\np");
        reveal_strlit("\nf");
    }
    let blocks = split_nonempty_chars(&chars_of(output), &pat_p);
    let ghost bs = views(blocks@);
    let mut k: usize = 0;
    proof {
        assert(bs.skip(0) =~= bs);
    }
    while k < blocks.len()
        invariant
            k <= blocks@.len(),
            bs == views(blocks@),
            bs == process_blocks(output@),
            pat_f@ == "\nf"@,
            pat_f@.len() > 0,
            blocks_panic(bs) == blocks_panic(bs.skip(k as int)),
        decreases blocks@.len() - k,
    {
        let ghost cur = bs.skip(k as int);
        proof {
            assert(cur[0] == bs[k as int]);
            assert(bs[k as int] == blocks@[k as int]@);
            assert(cur.drop_first() =~= bs.skip(k + 1));
        }
        let rows = split_nonempty_chars(&blocks[k], &pat_f);
        let ghost rs = views(rows@);
        assert(rs == block_rows(cur[0]));
        if rows.len() == 0 {
            return false;
        }
        assert(rs[0] == rows@[0]@);
        if header_panics_exec(&rows[0]) {
            return false;
        }
        let header_ok = deserialize_header_chars(&rows[0]).is_ok();
        if !header_ok {
            return true;
        }
        assert(header_spec(rs[0]) is Some);
        let mut j: usize = 1;
        while j < rows.len()
            invariant
                1 <= j <= rows@.len(),
                rs == views(rows@),
                forall|i: int| 1 <= i < j ==> row_ok(#[trigger] rs[i]),
                bs == process_blocks(output@),
                cur == bs.skip(k as int),
                cur.len() > 0,
                blocks_panic(bs) == blocks_panic(cur),
                rs == block_rows(cur[0]),
                rs.len() > 0,
                !header_panics(rs[0]),
                header_spec(rs[0]) is Some,
            decreases rows@.len() - j,
        {
            proof {
                assert(rs[j as int] == rows@[j as int]@);
            }
            if !row_ok_exec(&rows[j]) {
                proof {
                    assert(!row_ok(rs[j as int]));
                    assert(exists|i: int| 1 <= i < rs.len() && !row_ok(#[trigger] rs[i]));
                }
                return false;
            }
            j = j + 1;
        }
        proof {
            assert(!(exists|i: int| 1 <= i < rs.len() && !row_ok(#[trigger] rs[i])));
        }
        k = k + 1;
    }
    proof {
        assert(bs.skip(blocks@.len() as int) =~= Seq::<Seq<char>>::empty());
    }
    true
}

} // verus!
