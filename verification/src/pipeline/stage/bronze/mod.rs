//! Bronze layer: the insert requests that load raw observations, and the
//! merging of many small insert requests into few large ones.
use vstd::prelude::*;

pub mod packet;
pub mod remerge;

use crate::lsof::OpenFile;
use crate::num::{int_text, int_text_exec, nat_text_exec};
use crate::text::{
    replace_char, replace_char_exec,
    append_chars, chars_eq, chars_of, join, join_exec, lemma_str_lt_total, lemma_str_lt_trans,
    push_piece, slice_copy, split, split_exec, split_once, split_once_exec, str_lt, str_lt_exec,
    string_from_chars, strings, trim, trim_exec, views,
};

verus! {

// ---------------------------------------------------------------------------
// Merging insert requests
// ---------------------------------------------------------------------------

/// The keyword that parts an insert request's target from its values.
pub open spec fn values_kw() -> Seq<char> {
    "VALUES"@
}

/// The statement separator.
pub open spec fn semicolon() -> Seq<char> {
    seq![';']
}

/// What one statement contributes: its trimmed target and its trimmed values,
/// when it is not blank and holds the keyword `VALUES`.
pub open spec fn piece_entry(p: Seq<char>) -> Seq<(Seq<char>, Seq<char>)> {
    if trim(p).len() == 0 {
        seq![]
    } else {
        let parts = split_once(p, values_kw());
        if parts.len() == 2 {
            seq![(trim(parts[0]), trim(parts[1]))]
        } else {
            seq![]
        }
    }
}

/// The entries of a list of statements, in order.
pub open spec fn pieces_entries(ps: Seq<Seq<char>>) -> Seq<(Seq<char>, Seq<char>)>
    decreases ps.len(),
{
    if ps.len() == 0 {
        seq![]
    } else {
        pieces_entries(ps.drop_last()) + piece_entry(ps.last())
    }
}

/// The entries of a list of requests, each cut into statements at `;`.
pub open spec fn request_entries(rs: Seq<Seq<char>>) -> Seq<(Seq<char>, Seq<char>)>
    decreases rs.len(),
{
    if rs.len() == 0 {
        seq![]
    } else {
        request_entries(rs.drop_last()) + pieces_entries(split(rs.last(), semicolon()))
    }
}

/// The first position, at or after `i`, of an element of `s` that does not come
/// before `v`.
pub open spec fn first_not_below(s: Seq<Seq<char>>, v: Seq<char>, i: int) -> int
    decreases s.len() - i,
{
    if 0 <= i < s.len() && str_lt(s[i], v) {
        first_not_below(s, v, i + 1)
    } else {
        i
    }
}

/// `v` put in its place in the sorted list `s`, unless `s` already holds it.
pub open spec fn sorted_insert(s: Seq<Seq<char>>, v: Seq<char>) -> Seq<Seq<char>> {
    let p = first_not_below(s, v, 0);
    if 0 <= p < s.len() && s[p] == v {
        s
    } else {
        s.take(p) + seq![v] + s.skip(p)
    }
}

/// Each element comes strictly before the following ones.
pub open spec fn strictly_sorted(s: Seq<Seq<char>>) -> bool {
    forall|i: int, j: int| 0 <= i < j < s.len() ==> str_lt(#[trigger] s[i], #[trigger] s[j])
}

/// Targets in order of first appearance, and for each the sorted values.
pub type Groups = (Seq<Seq<char>>, Seq<Seq<Seq<char>>>);

/// The position, at or after `i`, of the target `k`.
pub open spec fn key_pos(keys: Seq<Seq<char>>, k: Seq<char>, i: int) -> Option<int>
    decreases keys.len() - i,
{
    if i < 0 || i >= keys.len() {
        None
    } else if keys[i] == k {
        Some(i)
    } else {
        key_pos(keys, k, i + 1)
    }
}

/// One entry added to the groups.
pub open spec fn add_entry(g: Groups, e: (Seq<char>, Seq<char>)) -> Groups {
    match key_pos(g.0, e.0, 0) {
        Some(j) => (g.0, g.1.update(j, sorted_insert(g.1[j], e.1))),
        None => (g.0.push(e.0), g.1.push(seq![e.1])),
    }
}

/// The entries grouped by target.
pub open spec fn group(es: Seq<(Seq<char>, Seq<char>)>) -> Groups
    decreases es.len(),
{
    if es.len() == 0 {
        (seq![], seq![])
    } else {
        add_entry(group(es.drop_last()), es.last())
    }
}

/// One merged request: the target, `VALUES`, the values separated by commas.
pub open spec fn render(k: Seq<char>, chunk: Seq<Seq<char>>) -> Seq<char> {
    k + " VALUES "@ + join(chunk, ","@) + ";"@
}

/// The merged requests of one target, at most `n` values each.
pub open spec fn render_group(k: Seq<char>, vals: Seq<Seq<char>>, n: nat) -> Seq<Seq<char>>
    decreases vals.len(),
{
    if vals.len() == 0 || n == 0 {
        seq![]
    } else if vals.len() <= n {
        seq![render(k, vals)]
    } else {
        seq![render(k, vals.take(n as int))] + render_group(k, vals.skip(n as int), n)
    }
}

/// The merged requests of all targets, target by target.
pub open spec fn render_all(keys: Seq<Seq<char>>, vals: Seq<Seq<Seq<char>>>, n: nat) -> Seq<
    Seq<char>,
>
    decreases keys.len(),
{
    if keys.len() == 0 || vals.len() == 0 {
        seq![]
    } else {
        render_all(keys.drop_last(), vals.drop_last(), n) + render_group(
            keys.last(),
            vals.last(),
            n,
        )
    }
}

/// What `concat_requests` returns.
pub open spec fn concat_spec(rs: Seq<Seq<char>>, n: nat) -> Seq<Seq<char>> {
    let g = group(request_entries(rs));
    render_all(g.0, g.1, n)
}

/// The texts that a vector of vectors of character vectors holds.
pub open spec fn group_views(v: Seq<Vec<Vec<char>>>) -> Seq<Seq<Seq<char>>> {
    v.map_values(|x: Vec<Vec<char>>| views(x@))
}

// ----- facts about sorted insertion

proof fn lemma_first_not_below(s: Seq<Seq<char>>, v: Seq<char>, i: int)
    requires
        0 <= i <= s.len(),
    ensures
        i <= first_not_below(s, v, i) <= s.len(),
        forall|k: int| i <= k < first_not_below(s, v, i) ==> str_lt(#[trigger] s[k], v),
        first_not_below(s, v, i) < s.len() ==> !str_lt(s[first_not_below(s, v, i)], v),
    decreases s.len() - i,
{
    if i < s.len() && str_lt(s[i], v) {
        lemma_first_not_below(s, v, i + 1);
    }
}

/// Sorted insertion keeps the list strictly sorted and adds exactly `v`.
pub proof fn lemma_sorted_insert(s: Seq<Seq<char>>, v: Seq<char>)
    requires
        strictly_sorted(s),
    ensures
        strictly_sorted(sorted_insert(s, v)),
        forall|x: Seq<char>| #[trigger] sorted_insert(s, v).contains(x) <==> (s.contains(x) || x == v),
{
    lemma_first_not_below(s, v, 0);
    let p = first_not_below(s, v, 0);
    let r = sorted_insert(s, v);
    if 0 <= p < s.len() && s[p] == v {
        assert forall|x: Seq<char>| #[trigger] r.contains(x) <==> (s.contains(x) || x == v) by {
            if x == v {
                assert(s[p] == x);
            }
        }
    } else {
        // every element from p on comes after v
        assert forall|k: int| p <= k < s.len() implies str_lt(v, #[trigger] s[k]) by {
            if s[p] != v {
                lemma_str_lt_total(s[p], v);
            }
            if k > p {
                assert(str_lt(s[p], s[k]));
                if s[p] != v {
                    lemma_str_lt_trans(v, s[p], s[k]);
                }
            }
        }
        assert forall|i: int, j: int| 0 <= i < j < r.len() implies str_lt(
            #[trigger] r[i],
            #[trigger] r[j],
        ) by {
            if j < p {
                assert(r[i] == s[i] && r[j] == s[j]);
            } else if j == p {
                assert(r[j] == v && r[i] == s[i]);
            } else if i < p {
                assert(r[i] == s[i] && r[j] == s[j - 1]);
                assert(str_lt(s[i], v));
                lemma_str_lt_trans(s[i], v, s[j - 1]);
            } else if i == p {
                assert(r[i] == v && r[j] == s[j - 1]);
            } else {
                assert(r[i] == s[i - 1] && r[j] == s[j - 1]);
            }
        }
        assert forall|x: Seq<char>| #[trigger] r.contains(x) <==> (s.contains(x) || x == v) by {
            if r.contains(x) {
                let q = choose|q: int| 0 <= q < r.len() && r[q] == x;
                if q < p {
                    assert(s[q] == x);
                } else if q > p {
                    assert(s[q - 1] == x);
                }
            }
            if s.contains(x) {
                let q = choose|q: int| 0 <= q < s.len() && s[q] == x;
                if q < p {
                    assert(r[q] == x);
                } else {
                    assert(r[q + 1] == x);
                }
            }
            if x == v {
                assert(r[p] == v);
            }
        }
    }
}

// ----- executable merging

/// A copy of a list of texts.
fn copy_pieces(s: &Vec<Vec<char>>) -> (r: Vec<Vec<char>>)
    ensures
        views(r@) == views(s@),
{
    let mut r: Vec<Vec<char>> = Vec::new();
    let mut i: usize = 0;
    while i < s.len()
        invariant
            i <= s@.len(),
            views(r@) == views(s@).take(i as int),
        decreases s@.len() - i,
    {
        let c = slice_copy(&s[i], 0, s[i].len());
        proof {
            assert(s@[i as int]@.subrange(0, s@[i as int]@.len() as int) =~= s@[i as int]@);
        }
        push_piece(&mut r, c);
        proof {
            assert(views(s@).take(i + 1) =~= views(s@).take(i as int).push(s@[i as int]@));
        }
        i = i + 1;
    }
    proof {
        assert(views(s@).take(s@.len() as int) =~= views(s@));
    }
    r
}

/// `v` put in its place in the sorted list `s`, unless `s` already holds it.
fn sorted_insert_exec(s: &Vec<Vec<char>>, v: Vec<char>) -> (r: Vec<Vec<char>>)
    ensures
        views(r@) == sorted_insert(views(s@), v@),
{
    let ghost sv = views(s@);
    let n = s.len();
    let mut p: usize = 0;
    while p < n && str_lt_exec(&s[p], &v)
        invariant
            n == s@.len(),
            p <= n,
            sv == views(s@),
            first_not_below(sv, v@, 0) == first_not_below(sv, v@, p as int),
        decreases n - p,
    {
        p = p + 1;
    }
    assert(first_not_below(sv, v@, p as int) == p as int);
    if p < n && chars_eq(&s[p], &v) {
        return copy_pieces(s);
    }
    let mut r: Vec<Vec<char>> = Vec::new();
    let mut i: usize = 0;
    while i < p
        invariant
            n == s@.len(),
            i <= p <= n,
            sv == views(s@),
            views(r@) == sv.take(i as int),
        decreases p - i,
    {
        let c = slice_copy(&s[i], 0, s[i].len());
        proof {
            assert(s@[i as int]@.subrange(0, s@[i as int]@.len() as int) =~= s@[i as int]@);
        }
        push_piece(&mut r, c);
        proof {
            assert(sv.take(i + 1) =~= sv.take(i as int).push(sv[i as int]));
        }
        i = i + 1;
    }
    let ghost vv = v@;
    push_piece(&mut r, v);
    let mut i: usize = p;
    while i < n
        invariant
            n == s@.len(),
            p <= i <= n,
            sv == views(s@),
            views(r@) == sv.take(p as int) + seq![vv] + sv.subrange(p as int, i as int),
        decreases n - i,
    {
        let c = slice_copy(&s[i], 0, s[i].len());
        proof {
            assert(s@[i as int]@.subrange(0, s@[i as int]@.len() as int) =~= s@[i as int]@);
        }
        push_piece(&mut r, c);
        proof {
            assert(sv.subrange(p as int, i + 1) =~= sv.subrange(p as int, i as int).push(
                sv[i as int],
            ));
            assert(sv.take(p as int) + seq![vv] + sv.subrange(p as int, i + 1) =~= (sv.take(
                p as int,
            ) + seq![vv] + sv.subrange(p as int, i as int)).push(sv[i as int]));
        }
        i = i + 1;
    }
    proof {
        assert(sv.subrange(p as int, n as int) =~= sv.skip(p as int));
    }
    r
}

/// Adds one entry to the groups held in `keys` and `vals`.
fn add_entry_exec(keys: &mut Vec<Vec<char>>, vals: &mut Vec<Vec<Vec<char>>>, k: Vec<char>, v: Vec<char>)
    requires
        old(keys)@.len() == old(vals)@.len(),
    ensures
        final(keys)@.len() == final(vals)@.len(),
        (views(final(keys)@), group_views(final(vals)@)) == add_entry(
            (views(old(keys)@), group_views(old(vals)@)),
            (k@, v@),
        ),
{
    let ghost kv = views(keys@);
    let ghost gv = group_views(vals@);
    let n = keys.len();
    let mut j: usize = 0;
    while j < n
        invariant
            n == keys@.len() == vals@.len(),
            keys@ == old(keys)@,
            vals@ == old(vals)@,
            kv == views(keys@),
            gv == group_views(vals@),
            j <= n,
            key_pos(kv, k@, 0) == key_pos(kv, k@, j as int),
        decreases n - j,
    {
        if chars_eq(&keys[j], &k) {
            let updated = sorted_insert_exec(&vals[j], v);
            vals[j] = updated;
            proof {
                assert(group_views(vals@) =~= gv.update(j as int, sorted_insert(gv[j as int], v@)));
            }
            return;
        }
        j = j + 1;
    }
    let ghost kk = k@;
    let ghost vv = v@;
    push_piece(keys, k);
    let mut single: Vec<Vec<char>> = Vec::new();
    push_piece(&mut single, v);
    vals.push(single);
    proof {
        assert(views(single@) =~= seq![vv]);
        assert(group_views(vals@) =~= gv.push(seq![vv]));
    }
}

/// The entry of one statement, if it has one.
fn piece_entry_exec(p: &[char], kw: &[char]) -> (r: Option<(Vec<char>, Vec<char>)>)
    requires
        kw@ == values_kw(),
    ensures
        r matches Some(e) ==> piece_entry(p@) == seq![(e.0@, e.1@)],
        r is None ==> piece_entry(p@) == Seq::<(Seq<char>, Seq<char>)>::empty(),
{
    let t = trim_exec(p);
    if t.len() == 0 {
        return None;
    }
    let parts = split_once_exec(p, kw);
    if parts.len() == 2 {
        let k = trim_exec(&parts[0]);
        let v = trim_exec(&parts[1]);
        Some((k, v))
    } else {
        None
    }
}

/// The groups after one more statement.
proof fn lemma_group_step(es: Seq<(Seq<char>, Seq<char>)>, p: Seq<char>)
    ensures
        piece_entry(p).len() == 0 ==> group(es + piece_entry(p)) == group(es),
        piece_entry(p).len() == 1 ==> group(es + piece_entry(p)) == add_entry(
            group(es),
            piece_entry(p)[0],
        ),
{
    if piece_entry(p).len() == 0 {
        assert(es + piece_entry(p) =~= es);
    } else {
        assert((es + piece_entry(p)).drop_last() =~= es);
    }
}

/// Merges insert requests: splits them into statements at `;`, drops the blank
/// ones, groups the statements by their target (the text before `VALUES`,
/// trimmed), keeps each distinct value list once, in sorted order, and writes
/// for each target requests of at most `batch_size` values.
pub fn concat_requests(requests: Vec<String>, batch_size: usize) -> (r: Vec<String>)
    requires
        batch_size > 0 || request_entries(strings(requests@)).len() == 0,
    ensures
        strings(r@) == concat_spec(strings(requests@), batch_size as nat),
{
    let ghost rs = strings(requests@);
    let semi: Vec<char> = vec![';'];
    assert(semi@ =~= semicolon());
    let kw = chars_of("VALUES");
    let mut keys: Vec<Vec<char>> = Vec::new();
    let mut vals: Vec<Vec<Vec<char>>> = Vec::new();
    let mut i: usize = 0;
    while i < requests.len()
        invariant
            i <= requests@.len(),
            rs == strings(requests@),
            semi@ == semicolon(),
            kw@ == values_kw(),
            keys@.len() == vals@.len(),
            (views(keys@), group_views(vals@)) == group(request_entries(rs.take(i as int))),
        decreases requests@.len() - i,
    {
        let rc = chars_of(requests[i].as_str());
        let pieces = split_exec(&rc, &semi);
        let ghost ps = views(pieces@);
        let ghost before = request_entries(rs.take(i as int));
        let mut j: usize = 0;
        while j < pieces.len()
            invariant
                j <= pieces@.len(),
                ps == views(pieces@),
                kw@ == values_kw(),
                keys@.len() == vals@.len(),
                (views(keys@), group_views(vals@)) == group(
                    before + pieces_entries(ps.take(j as int)),
                ),
            decreases pieces@.len() - j,
        {
            let ghost es = before + pieces_entries(ps.take(j as int));
            proof {
                assert(ps.take(j + 1).drop_last() =~= ps.take(j as int));
                assert(before + pieces_entries(ps.take(j + 1)) =~= es + piece_entry(ps[j as int]));
                lemma_group_step(es, ps[j as int]);
            }
            match piece_entry_exec(&pieces[j], &kw) {
                Some(e) => {
                    add_entry_exec(&mut keys, &mut vals, e.0, e.1);
                },
                None => {},
            }
            j = j + 1;
        }
        proof {
            assert(ps.take(ps.len() as int) =~= ps);
            assert(rs.take(i + 1).drop_last() =~= rs.take(i as int));
            assert(rs.take(i + 1).last() == requests@[i as int]@);
        }
        i = i + 1;
    }
    proof {
        assert(rs.take(requests@.len() as int) =~= rs);
    }
    let ghost g = group(request_entries(rs));
    let sep = chars_of(" VALUES ");
    let comma = chars_of(",");
    let end = chars_of(";");
    let mut out: Vec<String> = Vec::new();
    let mut j: usize = 0;
    while j < keys.len()
        invariant
            j <= keys@.len() == vals@.len(),
            (views(keys@), group_views(vals@)) == g,
            sep@ == " VALUES "@,
            comma@ == ","@,
            end@ == ";"@,
            batch_size > 0 || keys@.len() == 0,
            strings(out@) == render_all(g.0.take(j as int), g.1.take(j as int), batch_size as nat),
        decreases keys@.len() - j,
    {
        let ghost kj = g.0[j as int];
        let ghost vj = g.1[j as int];
        let len = vals[j].len();
        let mut idx: usize = 0;
        proof {
            assert(vj.skip(0) =~= vj);
            assert(g.0.take(j + 1).drop_last() =~= g.0.take(j as int));
            assert(g.1.take(j + 1).drop_last() =~= g.1.take(j as int));
        }
        while idx < len
            invariant
                j < keys@.len() == vals@.len(),
                (views(keys@), group_views(vals@)) == g,
                kj == g.0[j as int],
                vj == g.1[j as int],
                len == vj.len(),
                idx <= len,
                sep@ == " VALUES "@,
                comma@ == ","@,
                end@ == ";"@,
                batch_size > 0,
                strings(out@) + render_group(kj, vj.skip(idx as int), batch_size as nat)
                    == render_all(g.0.take(j + 1), g.1.take(j + 1), batch_size as nat),
            decreases len - idx,
        {
            let stop: usize = if len - idx <= batch_size {
                len
            } else {
                idx + batch_size
            };
            let mut chunk: Vec<Vec<char>> = Vec::new();
            let mut q: usize = idx;
            while q < stop
                invariant
                    j < vals@.len(),
                    group_views(vals@) == g.1,
                    vj == g.1[j as int],
                    idx <= q <= stop <= len == vj.len(),
                    views(chunk@) == vj.subrange(idx as int, q as int),
                decreases stop - q,
            {
                let c = slice_copy(&vals[j][q], 0, vals[j][q].len());
                proof {
                    assert(vals@[j as int]@[q as int]@ == vj[q as int]);
                    assert(vj[q as int].subrange(0, vj[q as int].len() as int) =~= vj[q as int]);
                }
                push_piece(&mut chunk, c);
                proof {
                    assert(vj.subrange(idx as int, q + 1) =~= vj.subrange(idx as int, q as int).push(vj[q as int]));
                }
                q = q + 1;
            }
            let mut line: Vec<char> = Vec::new();
            append_chars(&mut line, &keys[j]);
            append_chars(&mut line, &sep);
            let joined = join_exec(&chunk, &comma);
            append_chars(&mut line, &joined);
            append_chars(&mut line, &end);
            proof {
                assert(keys@[j as int]@ == kj);
                assert(line@ =~= render(kj, vj.subrange(idx as int, stop as int)));
                let rest = vj.skip(idx as int);
                if len - idx <= batch_size {
                    assert(vj.subrange(idx as int, stop as int) =~= rest);
                    assert(vj.skip(stop as int).len() == 0);
                } else {
                    assert(rest.take(batch_size as int) =~= vj.subrange(idx as int, stop as int));
                    assert(rest.skip(batch_size as int) =~= vj.skip(stop as int));
                }
            }
            let s = string_from_chars(&line);
            let ghost before = strings(out@);
            out.push(s);
            proof {
                assert(strings(out@) =~= before.push(line@));
                let rest = vj.skip(idx as int);
                assert(render_group(kj, rest, batch_size as nat) =~= seq![line@] + render_group(
                    kj,
                    vj.skip(stop as int),
                    batch_size as nat,
                ));
                assert(strings(out@) + render_group(kj, vj.skip(stop as int), batch_size as nat)
                    =~= before + render_group(kj, rest, batch_size as nat));
            }
            idx = stop;
        }
        proof {
            assert(vj.skip(len as int).len() == 0);
            assert(strings(out@) =~= strings(out@) + render_group(kj, vj.skip(len as int), batch_size as nat));
        }
        j = j + 1;
    }
    proof {
        assert(g.0.take(keys@.len() as int) =~= g.0);
        assert(g.1.take(keys@.len() as int) =~= g.1);
    }
    out
}

} // verus!

verus! {

// ---------------------------------------------------------------------------
// What merging keeps
// ---------------------------------------------------------------------------

/// The groups hold each target once, and for each target exactly the values
/// that the entries give it, sorted and without repetition.
pub open spec fn groups_faithful(g: Groups, es: Seq<(Seq<char>, Seq<char>)>) -> bool {
    &&& g.0.len() == g.1.len()
    &&& forall|i: int, j: int| 0 <= i < j < g.0.len() ==> #[trigger] g.0[i] != #[trigger] g.0[j]
    &&& forall|j: int| 0 <= j < g.1.len() ==> strictly_sorted(#[trigger] g.1[j])
    &&& forall|j: int, v: Seq<char>|
        0 <= j < g.0.len() ==> (#[trigger] g.1[j].contains(v) <==> es.contains((g.0[j], v)))
    &&& forall|e: (Seq<char>, Seq<char>)| #[trigger] es.contains(e) ==> g.0.contains(e.0)
}

pub(crate) proof fn lemma_key_pos(keys: Seq<Seq<char>>, k: Seq<char>, i: int)
    requires
        0 <= i,
    ensures
        key_pos(keys, k, i) matches Some(j) ==> i <= j < keys.len() && keys[j] == k,
        key_pos(keys, k, i) is None ==> forall|j: int| i <= j < keys.len() ==> keys[j] != k,
    decreases keys.len() - i,
{
    if i < keys.len() && keys[i] != k {
        lemma_key_pos(keys, k, i + 1);
    }
}

pub(crate) proof fn lemma_group_faithful(es: Seq<(Seq<char>, Seq<char>)>)
    ensures
        groups_faithful(group(es), es),
    decreases es.len(),
{
    if es.len() == 0 {
        return;
    }
    let pre = es.drop_last();
    let e = es.last();
    lemma_group_faithful(pre);
    let g0 = group(pre);
    let g = group(es);
    assert(es =~= pre.push(e));
    assert(forall|x: (Seq<char>, Seq<char>)| #[trigger] es.contains(x) <==> (pre.contains(x) || x == e)) by {
        assert forall|x: (Seq<char>, Seq<char>)| #[trigger] es.contains(x) <==> (pre.contains(x) || x == e) by {
            if es.contains(x) {
                let q = choose|q: int| 0 <= q < es.len() && es[q] == x;
                if q < pre.len() {
                    assert(pre[q] == x);
                }
            }
            if pre.contains(x) {
                let q = choose|q: int| 0 <= q < pre.len() && pre[q] == x;
                assert(es[q] == x);
            }
            if x == e {
                assert(es[es.len() - 1] == x);
            }
        }
    }
    lemma_key_pos(g0.0, e.0, 0);
    match key_pos(g0.0, e.0, 0) {
        Some(j) => {
            lemma_sorted_insert(g0.1[j], e.1);
            assert forall|i: int, v: Seq<char>| 0 <= i < g.0.len() implies (#[trigger] g.1[i].contains(v)
                <==> es.contains((g.0[i], v))) by {
                if i == j {
                    assert(g.1[i] == sorted_insert(g0.1[j], e.1));
                } else {
                    assert(g.1[i] == g0.1[i]);
                    if (g.0[i], v) == e {
                        assert(g0.0[i] == g0.0[j]);
                    }
                }
            }
            assert forall|x: (Seq<char>, Seq<char>)| #[trigger] es.contains(x) implies g.0.contains(x.0) by {
                if x == e {
                    assert(g.0[j] == x.0);
                }
            }
            assert forall|i: int| 0 <= i < g.1.len() implies strictly_sorted(#[trigger] g.1[i]) by {
                if i != j {
                    assert(g.1[i] == g0.1[i]);
                }
            }
        },
        None => {
            let n = g0.0.len() as int;
            assert forall|i: int, k: int| 0 <= i < k < g.0.len() implies #[trigger] g.0[i] != #[trigger] g.0[k] by {
                if k == n {
                    assert(g.0[i] == g0.0[i]);
                }
            }
            assert(strictly_sorted(seq![e.1]));
            assert forall|i: int, v: Seq<char>| 0 <= i < g.0.len() implies (#[trigger] g.1[i].contains(v)
                <==> es.contains((g.0[i], v))) by {
                if i == n {
                    assert(g.1[i] == seq![e.1]);
                    if pre.contains((g.0[i], v)) {
                        assert(g0.0.contains(e.0));
                    }
                    if v == e.1 {
                        assert(g.1[i][0] == v);
                    }
                } else {
                    assert(g.1[i] == g0.1[i]);
                    assert(g.0[i] == g0.0[i]);
                    if (g.0[i], v) == e {
                        assert(g0.0[i] == e.0);
                    }
                }
            }
            assert forall|x: (Seq<char>, Seq<char>)| #[trigger] es.contains(x) implies g.0.contains(x.0) by {
                if x == e {
                    assert(g.0[n] == x.0);
                } else {
                    assert(g0.0.contains(x.0));
                    let q = choose|q: int| 0 <= q < g0.0.len() && g0.0[q] == x.0;
                    assert(g.0[q] == x.0);
                }
            }
            assert forall|i: int| 0 <= i < g.1.len() implies strictly_sorted(#[trigger] g.1[i]) by {
                if i != n {
                    assert(g.1[i] == g0.1[i]);
                }
            }
        },
    }
}

/// Merging loses no value and repeats none: the targets of the merged requests
/// are distinct, and for each target the values written for it are exactly
/// the distinct values that the input statements give that target, in sorted
/// order.
pub proof fn concat_requests_keeps_each_value_once(rs: Seq<Seq<char>>)
    ensures
        groups_faithful(group(request_entries(rs)), request_entries(rs)),
{
    lemma_group_faithful(request_entries(rs));
}

} // verus!

verus! {

/// `line` is a merged request for target `k` holding between one and `n`
/// of the values `vals`.
pub open spec fn is_batch_of(line: Seq<char>, k: Seq<char>, vals: Seq<Seq<char>>, n: nat) -> bool {
    exists|c: Seq<Seq<char>>|
        #![trigger render(k, c)]
        line == render(k, c) && 1 <= c.len() <= n && forall|x: Seq<char>| #[trigger] c.contains(x)
            ==> vals.contains(x)
}

proof fn lemma_render_group_batches(k: Seq<char>, vals: Seq<Seq<char>>, n: nat)
    ensures
        forall|i: int| 0 <= i < render_group(k, vals, n).len() ==> is_batch_of(
            #[trigger] render_group(k, vals, n)[i],
            k,
            vals,
            n,
        ),
    decreases vals.len(),
{
    if vals.len() == 0 || n == 0 {
    } else if vals.len() <= n {
        assert(is_batch_of(render(k, vals), k, vals, n));
    } else {
        let head = vals.take(n as int);
        let rest = vals.skip(n as int);
        lemma_render_group_batches(k, rest, n);
        assert forall|x: Seq<char>| #[trigger] head.contains(x) implies vals.contains(x) by {
            let q = choose|q: int| 0 <= q < head.len() && head[q] == x;
            assert(vals[q] == x);
        }
        assert(is_batch_of(render(k, head), k, vals, n));
        assert forall|i: int| 0 <= i < render_group(k, vals, n).len() implies is_batch_of(
            #[trigger] render_group(k, vals, n)[i],
            k,
            vals,
            n,
        ) by {
            if i > 0 {
                let line = render_group(k, rest, n)[i - 1];
                assert(render_group(k, vals, n)[i] == line);
                assert(is_batch_of(line, k, rest, n));
                let c = choose|c: Seq<Seq<char>>|
                    #![trigger render(k, c)]
                    line == render(k, c) && 1 <= c.len() <= n && forall|x: Seq<char>|
                        #[trigger] c.contains(x) ==> rest.contains(x);
                assert forall|x: Seq<char>| #[trigger] c.contains(x) implies vals.contains(x) by {
                    let q = choose|q: int| 0 <= q < rest.len() && rest[q] == x;
                    assert(vals[q + n] == x);
                }
            }
        }
    }
}

proof fn lemma_render_all_batches(keys: Seq<Seq<char>>, vals: Seq<Seq<Seq<char>>>, n: nat)
    requires
        keys.len() == vals.len(),
    ensures
        forall|i: int|
            0 <= i < render_all(keys, vals, n).len() ==> exists|j: int|
                0 <= j < keys.len() && is_batch_of(
                    #[trigger] render_all(keys, vals, n)[i],
                    keys[j],
                    vals[j],
                    n,
                ),
    decreases keys.len(),
{
    if keys.len() > 0 {
        let m = keys.len() - 1;
        lemma_render_all_batches(keys.drop_last(), vals.drop_last(), n);
        lemma_render_group_batches(keys.last(), vals.last(), n);
        let front = render_all(keys.drop_last(), vals.drop_last(), n);
        assert forall|i: int| 0 <= i < render_all(keys, vals, n).len() implies exists|j: int|
            0 <= j < keys.len() && is_batch_of(
                #[trigger] render_all(keys, vals, n)[i],
                keys[j],
                vals[j],
                n,
            ) by {
            if i < front.len() {
                let j = choose|j: int|
                    0 <= j < keys.drop_last().len() && is_batch_of(
                        #[trigger] front[i],
                        keys.drop_last()[j],
                        vals.drop_last()[j],
                        n,
                    );
                assert(render_all(keys, vals, n)[i] == front[i]);
                assert(keys.drop_last()[j] == keys[j] && vals.drop_last()[j] == vals[j]);
            } else {
                let line = render_group(keys.last(), vals.last(), n)[i - front.len()];
                assert(render_all(keys, vals, n)[i] == line);
                assert(is_batch_of(line, keys[m], vals[m], n));
            }
        }
    }
}

/// Each merged request writes one target of the input with between one and
/// `batch_size` of that target's values.
pub proof fn concat_requests_respects_batch_size(rs: Seq<Seq<char>>, n: nat)
    ensures
        forall|i: int|
            0 <= i < concat_spec(rs, n).len() ==> exists|j: int|
                0 <= j < group(request_entries(rs)).0.len() && is_batch_of(
                    #[trigger] concat_spec(rs, n)[i],
                    group(request_entries(rs)).0[j],
                    group(request_entries(rs)).1[j],
                    n,
                ),
{
    let g = group(request_entries(rs));
    lemma_group_faithful(request_entries(rs));
    lemma_render_all_batches(g.0, g.1, n);
}

} // verus!

verus! {

// ---------------------------------------------------------------------------
// Batch insert requests
// ---------------------------------------------------------------------------

/// An observation that the bronze layer stores with its own insert
/// requests, linked to the row of the packet `foreign_id` where it has one.
pub trait Bronze {
    /// The observation holds what its requests are made of.
    spec fn insertable(&self, foreign_id: Option<u128>) -> bool;

    /// `text` is an insert request of the observation.
    spec fn is_insert_sql(&self, foreign_id: Option<u128>, text: Seq<char>) -> bool;

    fn to_insert_sql(&self, foreign_id: Option<u128>) -> (r: String)
        requires
            self.insertable(foreign_id),
        ensures
            self.is_insert_sql(foreign_id, r@),
    ;
}

/// A record that the bronze layer stores: the head of its insert request
/// and the tuple of values of one record.
pub trait BronzeBatch {
    fn get_insert_header() -> String;

    fn to_insert_value(&self) -> String;
}

/// A text between single quotes.
fn quoted_chars(s: &[char]) -> (r: Vec<char>)
    ensures
        r@ == crate::pipeline::stage::bronze::packet::quoted(s@),
{
    let mut out = chars_of("'");
    append_chars(&mut out, s);
    append_chars(&mut out, &chars_of("'"));
    out
}

/// The insert request for a batch: nothing for an empty batch, else the head,
/// a space, the value tuples separated by commas and a semicolon.
pub open spec fn batch_request(header: Seq<char>, values: Seq<Seq<char>>) -> Seq<char> {
    if values.len() == 0 {
        Seq::empty()
    } else {
        header + " "@ + join(values, ","@) + ";"@
    }
}

/// The insert request for a batch, given its head and its value tuples.
pub fn insert_batch_request(header: &str, values: &Vec<String>) -> (r: String)
    ensures
        r@ == batch_request(header@, strings(values@)),
{
    if values.len() == 0 {
        return String::new();
    }
    let mut parts: Vec<Vec<char>> = Vec::new();
    let mut i: usize = 0;
    while i < values.len()
        invariant
            i <= values@.len(),
            views(parts@) == strings(values@).take(i as int),
        decreases values@.len() - i,
    {
        push_piece(&mut parts, chars_of(values[i].as_str()));
        proof {
            assert(strings(values@).take(i + 1) =~= strings(values@).take(i as int).push(
                values@[i as int]@,
            ));
        }
        i = i + 1;
    }
    proof {
        assert(strings(values@).take(values@.len() as int) =~= strings(values@));
    }
    let mut line = chars_of(header);
    append_chars(&mut line, &chars_of(" "));
    append_chars(&mut line, &join_exec(&parts, &chars_of(",")));
    append_chars(&mut line, &chars_of(";"));
    string_from_chars(&line)
}

/// The insert request for a batch of records: empty when the batch is, else
/// the head of the record type, a space, one value tuple per record
/// separated by commas, and a semicolon.
pub fn create_insert_batch_request<T: BronzeBatch>(batch: Vec<T>) -> (r: String)
    ensures
        batch@.len() == 0 ==> r@ == Seq::<char>::empty(),
        batch@.len() > 0 ==> exists|h: String, vs: Seq<String>|
            {
                &&& call_ensures(T::get_insert_header, (), h)
                &&& vs.len() == batch@.len()
                &&& forall|i: int|
                    0 <= i < vs.len() ==> call_ensures(
                        T::to_insert_value,
                        (&batch@[i],),
                        #[trigger] vs[i],
                    )
                &&& r@ == batch_request(h@, strings(vs))
            },
{
    let mut values: Vec<String> = Vec::new();
    let mut i: usize = 0;
    while i < batch.len()
        invariant
            i <= batch@.len(),
            values@.len() == i,
            forall|j: int|
                0 <= j < i ==> call_ensures(T::to_insert_value, (&batch@[j],), #[trigger] values@[j]),
        decreases batch@.len() - i,
    {
        let v = batch[i].to_insert_value();
        values.push(v);
        i = i + 1;
    }
    let header = T::get_insert_header();
    let r = insert_batch_request(header.as_str(), &values);
    proof {
        if batch@.len() > 0 {
            assert(call_ensures(T::get_insert_header, (), header));
        }
    }
    r
}

} // verus!

verus! {

// ---------------------------------------------------------------------------
// Open files
// ---------------------------------------------------------------------------

/// The head of the insert request of open files.
pub const OPEN_FILE_HEADER: &'static str = r#"INSERT INTO memory.bronze_open_files (command, pid, uid, fd, type, device, size, node, name, created_at, inserted_at, brz_ingestion_duration) VALUES "#;

/// A text with each single quote replaced by a double quote.
pub open spec fn unquoted(s: Seq<char>) -> Seq<char> {
    replace_char(s, '\'', "\""@)
}

/// The values of the row of an open file, one per column of the open files
/// table; the command and the name have their single quotes replaced by
/// double quotes.
pub open spec fn open_file_fields(f: OpenFile) -> Seq<Seq<char>> {
    seq![
        crate::pipeline::stage::bronze::packet::quoted(unquoted(f.command@)),
        int_text(f.pid as int),
        int_text(f.uid as int),
        crate::pipeline::stage::bronze::packet::quoted(f.fd@),
        crate::pipeline::stage::bronze::packet::quoted(f._type@),
        crate::pipeline::stage::bronze::packet::quoted(f.device@),
        int_text(f.size as int),
        crate::pipeline::stage::bronze::packet::quoted(f.node@),
        crate::pipeline::stage::bronze::packet::quoted(unquoted(f.name@)),
        "TO_TIMESTAMP("@ + int_text(f.created_at as int) + ")"@,
        "CURRENT_TIMESTAMP"@,
        "AGE(TO_TIMESTAMP("@ + int_text(f.created_at as int) + ")::TIMESTAMP)"@
    ]
}

/// The value tuple of an open file: its values between brackets, separated
/// by commas.
pub open spec fn open_file_value(f: OpenFile) -> Seq<char> {
    "("@ + join(open_file_fields(f), ", "@) + ")"@
}

/// The columns of the open files table, in the order in which the head of
/// its insert request names them.
pub open spec fn open_file_columns() -> Seq<Seq<char>> {
    seq![
        "command"@,
        "pid"@,
        "uid"@,
        "fd"@,
        "type"@,
        "device"@,
        "size"@,
        "node"@,
        "name"@,
        "created_at"@,
        "inserted_at"@,
        "brz_ingestion_duration"@
    ]
}

/// What an open file stores in the column `column` of the open files table.
pub open spec fn open_file_column_value(f: OpenFile, column: Seq<char>) -> Option<Seq<char>> {
    if column == "command"@ {
        Some(crate::pipeline::stage::bronze::packet::quoted(unquoted(f.command@)))
    } else if column == "pid"@ {
        Some(int_text(f.pid as int))
    } else if column == "uid"@ {
        Some(int_text(f.uid as int))
    } else if column == "fd"@ {
        Some(crate::pipeline::stage::bronze::packet::quoted(f.fd@))
    } else if column == "type"@ {
        Some(crate::pipeline::stage::bronze::packet::quoted(f._type@))
    } else if column == "device"@ {
        Some(crate::pipeline::stage::bronze::packet::quoted(f.device@))
    } else if column == "size"@ {
        Some(int_text(f.size as int))
    } else if column == "node"@ {
        Some(crate::pipeline::stage::bronze::packet::quoted(f.node@))
    } else if column == "name"@ {
        Some(crate::pipeline::stage::bronze::packet::quoted(unquoted(f.name@)))
    } else if column == "created_at"@ {
        Some("TO_TIMESTAMP("@ + int_text(f.created_at as int) + ")"@)
    } else if column == "inserted_at"@ {
        Some("CURRENT_TIMESTAMP"@)
    } else if column == "brz_ingestion_duration"@ {
        Some("AGE(TO_TIMESTAMP("@ + int_text(f.created_at as int) + ")::TIMESTAMP)"@)
    } else {
        None
    }
}

/// The row of an open file follows its column list: the head names the
/// columns of the open files table, and the value at each place of the
/// tuple is what the file stores in the column of that place (the command
/// first, then the pid, the uid, and so on).
pub proof fn open_file_row_follows_its_columns(f: OpenFile)
    ensures
        OPEN_FILE_HEADER@ == "INSERT INTO memory.bronze_open_files ("@ + join(open_file_columns(), ", "@)
            + ") VALUES "@,
        open_file_fields(f).len() == open_file_columns().len(),
        forall|k: int|
            0 <= k < open_file_fields(f).len() ==> open_file_column_value(f, open_file_columns()[k])
                == Some(#[trigger] open_file_fields(f)[k]),
{
    reveal_strlit("INSERT INTO memory.bronze_open_files (command, pid, uid, fd, type, device, size, node, name, created_at, inserted_at, brz_ingestion_duration) VALUES ");
    reveal_strlit("INSERT INTO memory.bronze_open_files (");
    reveal_strlit(", ");
    reveal_strlit(") VALUES ");
    reveal_strlit("brz_ingestion_duration");
    reveal_strlit("command");
    reveal_strlit("created_at");
    reveal_strlit("device");
    reveal_strlit("fd");
    reveal_strlit("inserted_at");
    reveal_strlit("name");
    reveal_strlit("node");
    reveal_strlit("pid");
    reveal_strlit("size");
    reveal_strlit("type");
    reveal_strlit("uid");
    reveal_with_fuel(join, 13);
    assert(OPEN_FILE_HEADER@ =~= "INSERT INTO memory.bronze_open_files ("@ + join(open_file_columns(), ", "@)
        + ") VALUES "@);
    let fs = open_file_fields(f);
    assert forall|k: int| 0 <= k < fs.len() implies open_file_column_value(f, open_file_columns()[k])
        == Some(#[trigger] fs[k]) by {
        assert("uid"@[0] != "pid"@[0]);
        assert("size"@[0] != "type"@[0]);
        assert("node"@[0] != "type"@[0]);
        assert("node"@[0] != "size"@[0]);
        assert("name"@[0] != "type"@[0]);
        assert("name"@[0] != "size"@[0]);
        assert("name"@[1] != "node"@[1]);
    }
}

impl BronzeBatch for OpenFile {
    fn get_insert_header() -> (r: String)
        ensures
            r@ == OPEN_FILE_HEADER@,
    {
        string_from_chars(&chars_of(OPEN_FILE_HEADER))
    }

    fn to_insert_value(&self) -> (r: String)
        ensures
            r@ == open_file_value(*self),
    {
        let quote = chars_of("\"");
        let created = int_text_exec(self.created_at as i128);
        let mut f: Vec<Vec<char>> = Vec::new();
        push_piece(&mut f, quoted_chars(&replace_char_exec(&chars_of(self.command.as_str()), '\'', &quote)));
        push_piece(&mut f, nat_text_exec(self.pid as u128));
        push_piece(&mut f, int_text_exec(self.uid as i128));
        push_piece(&mut f, quoted_chars(&chars_of(self.fd.as_str())));
        push_piece(&mut f, quoted_chars(&chars_of(self._type.as_str())));
        push_piece(&mut f, quoted_chars(&chars_of(self.device.as_str())));
        push_piece(&mut f, nat_text_exec(self.size as u128));
        push_piece(&mut f, quoted_chars(&chars_of(self.node.as_str())));
        push_piece(&mut f, quoted_chars(&replace_char_exec(&chars_of(self.name.as_str()), '\'', &quote)));
        let mut at = chars_of("TO_TIMESTAMP(");
        append_chars(&mut at, &created);
        append_chars(&mut at, &chars_of(")"));
        push_piece(&mut f, at);
        push_piece(&mut f, chars_of("CURRENT_TIMESTAMP"));
        let mut age = chars_of("AGE(TO_TIMESTAMP(");
        append_chars(&mut age, &created);
        append_chars(&mut age, &chars_of(")::TIMESTAMP)"));
        push_piece(&mut f, age);
        let mut v = chars_of("(");
        append_chars(&mut v, &join_exec(&f, &chars_of(", ")));
        append_chars(&mut v, &chars_of(")"));
        proof {
            assert(views(f@) =~= open_file_fields(*self));
        }
        string_from_chars(&v)
    }
}

} // verus!
