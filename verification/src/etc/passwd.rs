//! Users as `cut -d: -f1,3 /etc/passwd` (Linux) or
//! `dscl . -list /Users UniqueID` (macOS) list them, with 16-bit uids.
use vstd::prelude::*;
use crate::etc::Error;
use crate::num::{parse_in, parse_in_exec};
use crate::text::{
    chars_of, join, join_exec, lines, lines_exec, push_piece, slice_copy, split, split_exec,
    starts_with, starts_with_exec, string_from_chars, views, words, words_exec,
};

verus! {

/// A user name and its uid.
#[derive(Debug, Clone, PartialOrd, PartialEq, Ord, Eq)]
pub struct User {
    pub name: String,
    pub uid: i16,
}

/// The rows of a listing that are read: all, or all but comments (and, where
/// `skip_empty`, empty rows).
pub open spec fn kept_rows(rows: Seq<Seq<char>>, skip_empty: bool) -> Seq<Seq<char>>
    decreases rows.len(),
{
    if rows.len() == 0 {
        seq![]
    } else {
        let r = rows.last();
        let keep = !starts_with(r, seq!['#']) && !(skip_empty && r.len() == 0);
        kept_rows(rows.drop_last(), skip_empty) + if keep {
            seq![r]
        } else {
            seq![]
        }
    }
}

/// Reading `name:uid` rows indexes a field that a row lacks, before any uid
/// fails to parse.
pub open spec fn cut_panics(rows: Seq<Seq<char>>, lo: int, hi: int) -> bool
    decreases rows.len(),
{
    if rows.len() == 0 {
        false
    } else {
        let f = split(rows[0], seq![':']);
        f.len() < 2 || (parse_in(f[1], true, lo, hi) is Some && cut_panics(rows.drop_first(), lo, hi))
    }
}

/// The (name, uid) pairs of `name:uid` rows, or `None` when a uid does not
/// parse as an integer of `lo..=hi`.
pub open spec fn cut_users(rows: Seq<Seq<char>>, lo: int, hi: int) -> Option<Seq<(Seq<char>, int)>>
    decreases rows.len(),
{
    if rows.len() == 0 {
        Some(seq![])
    } else {
        let f = split(rows[0], seq![':']);
        match parse_in(f[1], true, lo, hi) {
            Some(uid) => match cut_users(rows.drop_first(), lo, hi) {
                Some(rest) => Some(seq![(f[0], uid)] + rest),
                None => None,
            },
            None => None,
        }
    }
}

/// Reading `name uid` rows (the name may hold spaces) meets an empty row,
/// before any uid fails to parse.
pub open spec fn dscl_panics(rows: Seq<Seq<char>>) -> bool
    decreases rows.len(),
{
    if rows.len() == 0 {
        false
    } else {
        let f = words(rows[0]);
        f.len() == 0 || (parse_in(f.last(), true, i16::MIN as int, i16::MAX as int) is Some
            && dscl_panics(rows.drop_first()))
    }
}

/// The (name, uid) pairs of `name uid` rows: the last word is the uid, the
/// words before it, joined by spaces, the name.
pub open spec fn dscl_users(rows: Seq<Seq<char>>) -> Option<Seq<(Seq<char>, int)>>
    decreases rows.len(),
{
    if rows.len() == 0 {
        Some(seq![])
    } else {
        let f = words(rows[0]);
        match parse_in(f.last(), true, i16::MIN as int, i16::MAX as int) {
            Some(uid) => match dscl_users(rows.drop_first()) {
                Some(rest) => Some(seq![(join(f.drop_last(), " "@), uid)] + rest),
                None => None,
            },
            None => None,
        }
    }
}

/// The (name, uid) pairs of users.
pub open spec fn user_views(v: Seq<User>) -> Seq<(Seq<char>, int)> {
    v.map_values(|u: User| (u.name@, u.uid as int))
}

/// The rows of a listing that are read.
pub fn kept_rows_exec(output: &[char], skip_empty: bool) -> (r: Vec<Vec<char>>)
    ensures
        views(r@) == kept_rows(lines(output@), skip_empty),
{
    let rows = lines_exec(output);
    let ghost rs = views(rows@);
    let hash: [char; 1] = ['#'];
    proof {
        assert(hash@ =~= seq!['#']);
    }
    let mut r: Vec<Vec<char>> = Vec::new();
    let mut i: usize = 0;
    while i < rows.len()
        invariant
            i <= rows@.len(),
            rs == views(rows@),
            hash@ == seq!['#'],
            views(r@) == kept_rows(rs.take(i as int), skip_empty),
        decreases rows@.len() - i,
    {
        proof {
            assert(rs[i as int] == rows@[i as int]@);
            assert(rs.take(i + 1).drop_last() =~= rs.take(i as int));
            assert(rs.take(i + 1).last() == rs[i as int]);
        }
        if !starts_with_exec(&rows[i], &hash) && !(skip_empty && rows[i].len() == 0) {
            let c = slice_copy(&rows[i], 0, rows[i].len());
            proof {
                assert(rs[i as int].subrange(0, rs[i as int].len() as int) =~= rs[i as int]);
            }
            push_piece(&mut r, c);
        } else {
            proof {
                assert(kept_rows(rs.take(i + 1), skip_empty) =~= kept_rows(rs.take(i as int), skip_empty));
            }
        }
        i = i + 1;
    }
    proof {
        assert(rs.take(rs.len() as int) =~= rs);
    }
    r
}

/// Reads `name:uid` rows, uids in `lo..=hi`.
pub fn cut_users_exec(rows: &Vec<Vec<char>>, lo: i128, hi: i128) -> (r: Option<Vec<(String, i128)>>)
    requires
        -(u64::MAX as int) - 1 <= lo <= 0 <= hi <= u64::MAX,
        !cut_panics(views(rows@), lo as int, hi as int),
    ensures
        r matches Some(v) ==> cut_users(views(rows@), lo as int, hi as int) == Some(
            v@.map_values(|p: (String, i128)| (p.0@, p.1 as int)),
        ),
        r is None ==> cut_users(views(rows@), lo as int, hi as int) is None,
        r matches Some(v) ==> forall|i: int| 0 <= i < v@.len() ==> lo <= #[trigger] v@[i].1 <= hi,
{
    let ghost rs = views(rows@);
    let colon: [char; 1] = [':'];
    proof {
        assert(colon@ =~= seq![':']);
    }
    let mut out: Vec<(String, i128)> = Vec::new();
    let mut i: usize = 0;
    proof {
        assert(rs.skip(0) =~= rs);
    }
    while i < rows.len()
        invariant
            -(u64::MAX as int) - 1 <= lo <= 0 <= hi <= u64::MAX,
            i <= rows@.len(),
            rs == views(rows@),
            colon@ == seq![':'],
            !cut_panics(rs.skip(i as int), lo as int, hi as int),
            cut_users(rs, lo as int, hi as int) == match cut_users(rs.skip(i as int), lo as int, hi as int) {
                Some(rest) => Some(out@.map_values(|p: (String, i128)| (p.0@, p.1 as int)) + rest),
                None => None::<Seq<(Seq<char>, int)>>,
            },
            forall|k: int| 0 <= k < out@.len() ==> lo <= #[trigger] out@[k].1 <= hi,
        decreases rows@.len() - i,
    {
        let ghost cur = rs.skip(i as int);
        proof {
            assert(cur[0] == rs[i as int]);
            assert(rs[i as int] == rows@[i as int]@);
            assert(cur.drop_first() =~= rs.skip(i + 1));
        }
        let fields = split_exec(&rows[i], &colon);
        proof {
            assert(views(fields@)[0] == fields@[0]@);
            assert(views(fields@)[1] == fields@[1]@);
        }
        let uid = match parse_in_exec(&fields[1], true, lo, hi) {
            Some(u) => u,
            None => return None,
        };
        let ghost before = out@.map_values(|p: (String, i128)| (p.0@, p.1 as int));
        out.push((string_from_chars(&fields[0]), uid));
        proof {
            let now = out@.map_values(|p: (String, i128)| (p.0@, p.1 as int));
            assert(now =~= before.push((views(fields@)[0], uid as int)));
            match cut_users(rs.skip(i + 1), lo as int, hi as int) {
                Some(rest) => {
                    assert(before + (seq![(views(fields@)[0], uid as int)] + rest) =~= now + rest);
                },
                None => {},
            }
        }
        i = i + 1;
    }
    proof {
        assert(rs.skip(rows@.len() as int) =~= Seq::<Seq<char>>::empty());
        assert(out@.map_values(|p: (String, i128)| (p.0@, p.1 as int)) + Seq::<(Seq<char>, int)>::empty()
            =~= out@.map_values(|p: (String, i128)| (p.0@, p.1 as int)));
    }
    Some(out)
}

/// Reads the output of `cut -d: -f1,3 /etc/passwd`: each row but comments is
/// `name:uid`; an error when a uid is not a 16-bit integer.
pub fn parse_cut_output(output: &str) -> (r: Result<Vec<User>, Error>)
    requires
        !cut_panics(kept_rows(lines(output@), false), i16::MIN as int, i16::MAX as int),
    ensures
        r matches Ok(v) ==> cut_users(kept_rows(lines(output@), false), i16::MIN as int, i16::MAX as int)
            == Some(user_views(v@)),
        r is Err ==> cut_users(kept_rows(lines(output@), false), i16::MIN as int, i16::MAX as int) is None
            && r == Err::<Vec<User>, Error>(Error::ParseInt),
{
    let rows = kept_rows_exec(&chars_of(output), false);
    match cut_users_exec(&rows, -32768, 32767) {
        Some(pairs) => Ok(to_users(&pairs)),
        None => Err(Error::ParseInt),
    }
}

/// Pairs whose uids fit in 16 bits made users.
fn to_users(pairs: &Vec<(String, i128)>) -> (r: Vec<User>)
    requires
        forall|i: int| 0 <= i < pairs@.len() ==> -32768 <= #[trigger] pairs@[i].1 <= 32767,
    ensures
        user_views(r@) == pairs@.map_values(|p: (String, i128)| (p.0@, p.1 as int)),
{
    let ghost all = pairs@.map_values(|p: (String, i128)| (p.0@, p.1 as int));
    let mut r: Vec<User> = Vec::new();
    let mut i: usize = 0;
    while i < pairs.len()
        invariant
            i <= pairs@.len(),
            all == pairs@.map_values(|p: (String, i128)| (p.0@, p.1 as int)),
            forall|k: int| 0 <= k < pairs@.len() ==> -32768 <= #[trigger] pairs@[k].1 <= 32767,
            user_views(r@) == all.take(i as int),
        decreases pairs@.len() - i,
    {
        let u = User { name: pairs[i].0.clone(), uid: pairs[i].1 as i16 };
        let ghost before = user_views(r@);
        r.push(u);
        proof {
            assert(user_views(r@) =~= before.push(all[i as int]));
            assert(all.take(i + 1) =~= all.take(i as int).push(all[i as int]));
        }
        i = i + 1;
    }
    proof {
        assert(all.take(all.len() as int) =~= all);
    }
    r
}

/// Reads the output of `dscl . -list /Users UniqueID`: in each row the last
/// word is the uid and the words before it, joined by spaces, the name; an
/// error when a uid is not a 16-bit integer.
pub fn parse_dscl_output(output: &str) -> (r: Result<Vec<User>, Error>)
    requires
        !dscl_panics(lines(output@)),
    ensures
        r matches Ok(v) ==> dscl_users(lines(output@)) == Some(user_views(v@)),
        r is Err ==> dscl_users(lines(output@)) is None && r == Err::<Vec<User>, Error>(Error::ParseInt),
{
    let rows = lines_exec(&chars_of(output));
    let ghost rs = views(rows@);
    let space = chars_of(" ");
    let mut out: Vec<User> = Vec::new();
    let mut i: usize = 0;
    proof {
        assert(rs.skip(0) =~= rs);
    }
    while i < rows.len()
        invariant
            i <= rows@.len(),
            rs == views(rows@),
            space@ == " "@,
            rs == lines(output@),
            !dscl_panics(rs.skip(i as int)),
            dscl_users(rs) == match dscl_users(rs.skip(i as int)) {
                Some(rest) => Some(user_views(out@) + rest),
                None => None::<Seq<(Seq<char>, int)>>,
            },
        decreases rows@.len() - i,
    {
        let ghost cur = rs.skip(i as int);
        proof {
            assert(cur[0] == rs[i as int]);
            assert(rs[i as int] == rows@[i as int]@);
            assert(cur.drop_first() =~= rs.skip(i + 1));
        }
        let fields = words_exec(&rows[i]);
        let ghost fs = views(fields@);
        let n = fields.len();
        let mut name_parts: Vec<Vec<char>> = Vec::new();
        let mut k: usize = 0;
        while k + 1 < n
            invariant
                n == fields@.len(),
                n > 0,
                fs == views(fields@),
                k <= n - 1,
                views(name_parts@) == fs.take(k as int),
            decreases n - k,
        {
            let c = slice_copy(&fields[k], 0, fields[k].len());
            proof {
                assert(fs[k as int] == fields@[k as int]@);
                assert(fs[k as int].subrange(0, fs[k as int].len() as int) =~= fs[k as int]);
            }
            push_piece(&mut name_parts, c);
            proof {
                assert(fs.take(k + 1) =~= fs.take(k as int).push(fs[k as int]));
            }
            k = k + 1;
        }
        proof {
            assert(fs.take((n - 1) as int) =~= fs.drop_last());
            assert(fs.last() == fields@[n - 1]@);
        }
        let uid = match parse_in_exec(&fields[n - 1], true, -32768, 32767) {
            Some(u) => u as i16,
            None => {
                proof {
                    assert(words(cur[0]) == fs);
                    assert(dscl_users(cur) is None);
                }
                return Err(Error::ParseInt);
            },
        };
        let name = string_from_chars(&join_exec(&name_parts, &space));
        let ghost before = user_views(out@);
        out.push(User { name, uid });
        proof {
            let now = user_views(out@);
            assert(now =~= before.push((join(fs.drop_last(), " "@), uid as int)));
            match dscl_users(rs.skip(i + 1)) {
                Some(rest) => {
                    assert(before + (seq![(join(fs.drop_last(), " "@), uid as int)] + rest) =~= now + rest);
                },
                None => {},
            }
        }
        i = i + 1;
    }
    proof {
        assert(rs.skip(rows@.len() as int) =~= Seq::<Seq<char>>::empty());
        assert(user_views(out@) + Seq::<(Seq<char>, int)>::empty() =~= user_views(out@));
    }
    Ok(out)
}

} // verus!

verus! {

/// Whether reading `name:uid` rows (uids in `lo..=hi`) indexes a field that
/// a row lacks, before any uid fails to parse.
pub fn cut_rows_panic(rows: &Vec<Vec<char>>, lo: i128, hi: i128) -> (r: bool)
    requires
        -(u64::MAX as int) - 1 <= lo <= 0 <= hi <= u64::MAX,
    ensures
        r == cut_panics(views(rows@), lo as int, hi as int),
{
    let ghost rs = views(rows@);
    let colon: [char; 1] = [':'];
    proof {
        assert(colon@ =~= seq![':']);
        assert(rs.skip(0) =~= rs);
    }
    let mut i: usize = 0;
    while i < rows.len()
        invariant
            i <= rows@.len(),
            rs == views(rows@),
            colon@ == seq![':'],
            -(u64::MAX as int) - 1 <= lo <= 0 <= hi <= u64::MAX,
            cut_panics(rs, lo as int, hi as int) == cut_panics(rs.skip(i as int), lo as int, hi as int),
        decreases rows@.len() - i,
    {
        let ghost cur = rs.skip(i as int);
        proof {
            assert(cur[0] == rs[i as int]);
            assert(rs[i as int] == rows@[i as int]@);
            assert(cur.drop_first() =~= rs.skip(i + 1));
        }
        let f = split_exec(&rows[i], &colon);
        if f.len() < 2 {
            return true;
        }
        proof {
            assert(views(f@)[1] == f@[1]@);
        }
        if parse_in_exec(&f[1], true, lo, hi).is_none() {
            return false;
        }
        i = i + 1;
    }
    proof {
        assert(rs.skip(rows@.len() as int) =~= Seq::<Seq<char>>::empty());
    }
    false
}

/// Whether the output of `cut -d: -f1,3 /etc/passwd` can be read without a
/// panic: every row but comments has a uid field, up to the first uid that
/// does not parse.
pub fn cut_output_readable(output: &str) -> (r: bool)
    ensures
        r == !cut_panics(kept_rows(lines(output@), false), i16::MIN as int, i16::MAX as int),
{
    let rows = kept_rows_exec(&chars_of(output), false);
    !cut_rows_panic(&rows, -32768, 32767)
}

/// Whether the output of `dscl . -list /Users UniqueID` can be read without
/// a panic: no row is empty, up to the first uid that does not parse.
pub fn dscl_output_readable(output: &str) -> (r: bool)
    ensures
        r == !dscl_panics(lines(output@)),
{
    let rows = lines_exec(&chars_of(output));
    let ghost rs = views(rows@);
    proof {
        assert(rs.skip(0) =~= rs);
    }
    let mut i: usize = 0;
    while i < rows.len()
        invariant
            i <= rows@.len(),
            rs == views(rows@),
            rs == lines(output@),
            dscl_panics(rs) == dscl_panics(rs.skip(i as int)),
        decreases rows@.len() - i,
    {
        let ghost cur = rs.skip(i as int);
        proof {
            assert(cur[0] == rs[i as int]);
            assert(rs[i as int] == rows@[i as int]@);
            assert(cur.drop_first() =~= rs.skip(i + 1));
        }
        let f = words_exec(&rows[i]);
        if f.len() == 0 {
            return false;
        }
        proof {
            assert(views(f@).last() == f@[f@.len() - 1]@);
        }
        if parse_in_exec(&f[f.len() - 1], true, -32768, 32767).is_none() {
            return true;
        }
        i = i + 1;
    }
    proof {
        assert(rs.skip(rows@.len() as int) =~= Seq::<Seq<char>>::empty());
    }
    true
}


/// The users read from `cut` rows: one per row and in order, each named by
/// the text of its row before the first `:` and with the number after it as
/// its uid; `None` when some row's number is not a uid.
pub proof fn cut_users_follow_their_rows(rows: Seq<Seq<char>>, lo: int, hi: int)
    ensures
        cut_users(rows, lo, hi) matches Some(us) ==> us.len() == rows.len() && forall|i: int|
            0 <= i < rows.len() ==> (#[trigger] us[i]).0 == split(rows[i], seq![':'])[0]
                && Some(us[i].1) == parse_in(split(rows[i], seq![':'])[1], true, lo, hi),
        cut_users(rows, lo, hi) is None ==> exists|i: int|
            0 <= i < rows.len() && parse_in(split(#[trigger] rows[i], seq![':'])[1], true, lo, hi) is None,
    decreases rows.len(),
{
    if rows.len() > 0 {
        let rest = rows.drop_first();
        cut_users_follow_their_rows(rest, lo, hi);
        assert forall|i: int| 0 < i < rows.len() implies rows[i] == rest[i - 1] by {}
        if cut_users(rows, lo, hi) is None && parse_in(split(rows[0], seq![':'])[1], true, lo, hi) is Some {
            let i = choose|i: int|
                0 <= i < rest.len() && parse_in(split(#[trigger] rest[i], seq![':'])[1], true, lo, hi) is None;
            assert(rows[i + 1] == rest[i]);
        }
    }
}

/// The users read from `dscl` rows: one per row and in order, each with the
/// last word of its row as uid and the words before it, joined by single
/// spaces, as name; `None` when some row's last word is not a uid.
pub proof fn dscl_users_follow_their_rows(rows: Seq<Seq<char>>)
    ensures
        dscl_users(rows) matches Some(us) ==> us.len() == rows.len() && forall|i: int|
            0 <= i < rows.len() ==> (#[trigger] us[i]).0 == join(words(rows[i]).drop_last(), " "@)
                && Some(us[i].1) == parse_in(words(rows[i]).last(), true, i16::MIN as int, i16::MAX as int),
        dscl_users(rows) is None ==> exists|i: int|
            0 <= i < rows.len() && parse_in(words(#[trigger] rows[i]).last(), true, i16::MIN as int, i16::MAX as int) is None,
    decreases rows.len(),
{
    if rows.len() > 0 {
        let rest = rows.drop_first();
        dscl_users_follow_their_rows(rest);
        assert forall|i: int| 0 < i < rows.len() implies rows[i] == rest[i - 1] by {}
        if dscl_users(rows) is None && parse_in(words(rows[0]).last(), true, i16::MIN as int, i16::MAX as int) is Some {
            let i = choose|i: int|
                0 <= i < rest.len() && parse_in(words(#[trigger] rest[i]).last(), true, i16::MIN as int, i16::MAX as int) is None;
            assert(rows[i + 1] == rest[i]);
        }
    }
}

} // verus!
