//! Merging merged requests again: when each target's values fit in one
//! request, the merged requests are given back unchanged.
use vstd::prelude::*;
use crate::pipeline::stage::bronze::{
    add_entry, concat_spec, group, groups_faithful, key_pos, lemma_group_faithful, lemma_key_pos,
    lemma_sorted_insert, piece_entry, pieces_entries, render, render_all, render_group,
    request_entries, semicolon, values_kw, Groups,
};
use crate::text::{
    find, free_of, is_ws, join, lemma_find_at, lemma_find_from_first, lemma_find_from_occurs,
    lemma_free_subrange, lemma_join_trimmed, lemma_split_before_last, lemma_trim,
    lemma_trim_space_after, lemma_trim_space_before, occurs_at, split, split_join_back, split_once,
    trim, trimmed,
};

verus! {

/// A target that can be merged: trimmed, without `;` and without `VALUES`.
pub open spec fn key_ok(k: Seq<char>) -> bool {
    &&& trimmed(k)
    &&& free_of(k, semicolon())
    &&& free_of(k, values_kw())
}

/// A value that can be merged: trimmed and without `;`.
pub open spec fn value_ok(v: Seq<char>) -> bool {
    trimmed(v) && free_of(v, semicolon())
}

/// A text of one character other than `c` has no occurrence of `c`.
proof fn lemma_free_char(s: Seq<char>, pat: Seq<char>)
    requires
        pat.len() == 1,
    ensures
        free_of(s, pat) <==> forall|i: int| 0 <= i < s.len() ==> s[i] != pat[0],
{
    if free_of(s, pat) {
        assert forall|i: int| 0 <= i < s.len() implies s[i] != pat[0] by {
            if s[i] == pat[0] {
                assert(s.subrange(i, i + 1) =~= pat);
                assert(occurs_at(s, pat, i));
            }
        }
    }
    if forall|i: int| 0 <= i < s.len() ==> s[i] != pat[0] {
        assert forall|k: int| !occurs_at(s, pat, k) by {
            if occurs_at(s, pat, k) {
                assert(s.subrange(k, k + 1)[0] == s[k]);
            }
        }
    }
}

/// The value text of a merged request is trimmed and holds no `;`.
proof fn lemma_joined_ok(c: Seq<Seq<char>>)
    requires
        forall|i: int| 0 <= i < c.len() ==> value_ok(#[trigger] c[i]),
    ensures
        value_ok(join(c, ","@)),
    decreases c.len(),
{
    reveal_strlit(",");
    reveal_strlit(";");
    assert forall|i: int| 0 <= i < c.len() implies trimmed(#[trigger] c[i]) by {
        assert(value_ok(c[i]));
    }
    lemma_join_trimmed(c, ","@);
    if c.len() > 1 {
        let pre = c.drop_last();
        assert forall|i: int| 0 <= i < pre.len() implies value_ok(#[trigger] pre[i]) by {
            assert(pre[i] == c[i]);
        }
        lemma_joined_ok(pre);
        let a = join(pre, ","@);
        let l = c.last();
        assert(value_ok(l)) by {
            assert(c[c.len() - 1] == l);
        }
        lemma_free_char(a, semicolon());
        lemma_free_char(l, semicolon());
        let j = a + ","@ + l;
        assert(join(c, ","@) == j);
        assert forall|i: int| 0 <= i < j.len() implies j[i] != semicolon()[0] by {
            if i < a.len() {
                assert(j[i] == a[i]);
            } else if i == a.len() {
                assert(j[i] == ',');
            } else {
                assert(j[i] == l[i - a.len() - 1]);
            }
        }
        lemma_free_char(j, semicolon());
    } else if c.len() == 1 {
        assert(value_ok(c[0]));
    } else {
        lemma_free_char(join(c, ","@), semicolon());
    }
}

/// One merged request read again gives its target and its value text.
pub proof fn lemma_render_read_back(k: Seq<char>, c: Seq<Seq<char>>)
    requires
        key_ok(k),
        forall|i: int| 0 <= i < c.len() ==> value_ok(#[trigger] c[i]),
    ensures
        pieces_entries(split(render(k, c), semicolon())) == seq![(k, join(c, ","@))],
{
    reveal_strlit(" VALUES ");
    reveal_strlit("VALUES");
    reveal_strlit(";");
    let jn = join(c, ","@);
    lemma_joined_ok(c);
    let x = k + " VALUES "@ + jn;
    assert(render(k, c) == x + semicolon());
    // `x` holds no `;`.
    lemma_free_char(k, semicolon());
    lemma_free_char(jn, semicolon());
    assert forall|i: int| 0 <= i < x.len() implies x[i] != semicolon()[0] by {
        if i < k.len() {
            assert(x[i] == k[i]);
        } else if i < k.len() + 8 {
            assert(x[i] == " VALUES "@[i - k.len()]);
        } else {
            assert(x[i] == jn[i - k.len() - 8]);
        }
    }
    lemma_free_char(x, semicolon());
    lemma_split_before_last(x, semicolon());
    let ps = seq![x, Seq::<char>::empty()];
    assert(ps.drop_last() =~= seq![x]);
    assert(seq![x].drop_last() =~= Seq::<Seq<char>>::empty());
    assert(pieces_entries(ps) == pieces_entries(seq![x]) + piece_entry(Seq::<char>::empty()));
    assert(pieces_entries(seq![x]) == pieces_entries(Seq::<Seq<char>>::empty()) + piece_entry(x));
    lemma_trim(Seq::<char>::empty());
    assert(piece_entry(Seq::<char>::empty()) == Seq::<(Seq<char>, Seq<char>)>::empty());
    // The keyword is found just after the target and its space.
    let m: int = k.len() as int + 1;
    let kw = values_kw();
    assert(occurs_at(x, kw, m)) by {
        assert(x.subrange(m, m + 6) =~= kw);
    }
    assert forall|j: int| 0 <= j < m implies !occurs_at(x, kw, j) by {
        if occurs_at(x, kw, j) {
            if j + 6 <= k.len() {
                assert(k.subrange(j, j + 6) =~= x.subrange(j, j + 6));
                assert(occurs_at(k, kw, j));
            } else {
                let d = k.len() - j;
                assert(x.subrange(j, j + 6)[d] == x[k.len() as int]);
                assert(x[k.len() as int] == ' ');
                assert(kw[d] != ' ');
            }
        }
    }
    lemma_find_at(x, kw, 0, m);
    let p0 = x.subrange(0, m);
    let p1 = x.subrange(m + 6, x.len() as int);
    assert(split_once(x, kw) == seq![p0, p1]);
    assert(p0 =~= k + seq![' ']);
    assert(p1 =~= seq![' '] + jn);
    lemma_trim_space_after(k);
    lemma_trim_space_before(jn);
    assert(x[m] == 'V');
    assert(!is_ws(x[m]));
    lemma_trim(x);
    assert(piece_entry(x) == seq![(k, jn)]);
    assert(pieces_entries(ps) =~= seq![(k, jn)]);
}


/// Every entry has a target and a value that can be merged.
pub open spec fn entries_ok(es: Seq<(Seq<char>, Seq<char>)>) -> bool {
    forall|i: int| 0 <= i < es.len() ==> key_ok(#[trigger] es[i].0) && value_ok(es[i].1)
}

/// Trimming keeps a text free of a pattern.
proof fn lemma_trim_free(s: Seq<char>, pat: Seq<char>)
    requires
        pat.len() > 0,
        free_of(s, pat),
    ensures
        free_of(trim(s), pat),
{
    lemma_trim(s);
    if trim(s).len() > 0 {
        let (a, b) = choose|a: int, b: int| 0 <= a < b <= s.len() && trim(s) == s.subrange(a, b);
        lemma_free_subrange(s, pat, a, b);
    } else {
        assert forall|k: int| !occurs_at(trim(s), pat, k) by {}
    }
}

/// The entry of one statement without `;` can be merged.
proof fn lemma_piece_entry_ok(p: Seq<char>)
    requires
        free_of(p, semicolon()),
    ensures
        entries_ok(piece_entry(p)),
{
    reveal_strlit("VALUES");
    let kw = values_kw();
    if trim(p).len() != 0 {
        let parts = split_once(p, kw);
        if parts.len() == 2 {
            lemma_find_from_occurs(p, kw, 0);
            lemma_find_from_first(p, kw, 0);
            let f = find(p, kw)->0;
            let p0 = p.subrange(0, f);
            let p1 = p.subrange(f + 6, p.len() as int);
            assert(parts == seq![p0, p1]);
            lemma_free_subrange(p, semicolon(), 0, f);
            lemma_free_subrange(p, semicolon(), f + 6, p.len() as int);
            assert forall|k: int| !occurs_at(p0, kw, k) by {
                if occurs_at(p0, kw, k) {
                    assert(p0.subrange(k, k + 6) =~= p.subrange(k, k + 6));
                    assert(occurs_at(p, kw, k));
                }
            }
            lemma_trim(p0);
            lemma_trim(p1);
            lemma_trim_free(p0, semicolon());
            lemma_trim_free(p0, kw);
            lemma_trim_free(p1, semicolon());
            assert(piece_entry(p) == seq![(trim(p0), trim(p1))]);
        }
    }
}

/// The entries of statements without `;` can be merged.
proof fn lemma_pieces_entries_ok(ps: Seq<Seq<char>>)
    requires
        forall|i: int| 0 <= i < ps.len() ==> free_of(#[trigger] ps[i], semicolon()),
    ensures
        entries_ok(pieces_entries(ps)),
    decreases ps.len(),
{
    if ps.len() > 0 {
        let pre = ps.drop_last();
        assert forall|i: int| 0 <= i < pre.len() implies free_of(#[trigger] pre[i], semicolon()) by {
            assert(pre[i] == ps[i]);
        }
        lemma_pieces_entries_ok(pre);
        assert(free_of(ps[ps.len() - 1], semicolon()));
        lemma_piece_entry_ok(ps.last());
        let a = pieces_entries(pre);
        let b = piece_entry(ps.last());
        assert forall|i: int| 0 <= i < (a + b).len() implies key_ok(#[trigger] (a + b)[i].0)
            && value_ok((a + b)[i].1) by {
            if i < a.len() {
                assert((a + b)[i] == a[i]);
            } else {
                assert((a + b)[i] == b[i - a.len()]);
            }
        }
    }
}

/// The entries of any requests can be merged.
pub proof fn lemma_request_entries_ok(rs: Seq<Seq<char>>)
    ensures
        entries_ok(request_entries(rs)),
    decreases rs.len(),
{
    if rs.len() > 0 {
        lemma_request_entries_ok(rs.drop_last());
        reveal_strlit(";");
        split_join_back(rs.last(), semicolon());
        let ps = split(rs.last(), semicolon());
        assert forall|i: int| 0 <= i < ps.len() implies free_of(#[trigger] ps[i], semicolon()) by {}
        lemma_pieces_entries_ok(ps);
        let a = request_entries(rs.drop_last());
        let b = pieces_entries(ps);
        assert forall|i: int| 0 <= i < (a + b).len() implies key_ok(#[trigger] (a + b)[i].0)
            && value_ok((a + b)[i].1) by {
            if i < a.len() {
                assert((a + b)[i] == a[i]);
            } else {
                assert((a + b)[i] == b[i - a.len()]);
            }
        }
    }
}

/// Every target of the groups has at least one value.
proof fn lemma_group_nonempty(es: Seq<(Seq<char>, Seq<char>)>)
    ensures
        group(es).0.len() == group(es).1.len(),
        forall|j: int| 0 <= j < group(es).1.len() ==> (#[trigger] group(es).1[j]).len() > 0,
    decreases es.len(),
{
    lemma_group_faithful(es);
    if es.len() > 0 {
        let pre = es.drop_last();
        let e = es.last();
        lemma_group_nonempty(pre);
        lemma_group_faithful(pre);
        let g0 = group(pre);
        lemma_key_pos(g0.0, e.0, 0);
        match key_pos(g0.0, e.0, 0) {
            Some(j) => {
                lemma_sorted_insert(g0.1[j], e.1);
                let s2 = crate::pipeline::stage::bronze::sorted_insert(g0.1[j], e.1);
                assert(s2.contains(e.1));
                let g = group(es);
                assert forall|q: int| 0 <= q < g.1.len() implies (#[trigger] g.1[q]).len() > 0 by {
                    if q != j {
                        assert(g.1[q] == g0.1[q]);
                    }
                }
            },
            None => {
                let g = group(es);
                assert forall|q: int| 0 <= q < g.1.len() implies (#[trigger] g.1[q]).len() > 0 by {
                    if q < g0.1.len() {
                        assert(g.1[q] == g0.1[q]);
                    }
                }
            },
        }
    }
}

/// Each target with its merged request.
pub open spec fn render_each(keys: Seq<Seq<char>>, vals: Seq<Seq<Seq<char>>>) -> Seq<Seq<char>> {
    Seq::new(keys.len(), |j: int| render(keys[j], vals[j]))
}

/// Each target with the value text of its merged request.
pub open spec fn joined_entries(keys: Seq<Seq<char>>, vals: Seq<Seq<Seq<char>>>) -> Seq<
    (Seq<char>, Seq<char>),
> {
    Seq::new(keys.len(), |j: int| (keys[j], join(vals[j], ","@)))
}

/// Each target's value text as its only value.
pub open spec fn singletons(keys: Seq<Seq<char>>, vals: Seq<Seq<Seq<char>>>) -> Seq<Seq<Seq<char>>> {
    Seq::new(keys.len(), |j: int| seq![join(vals[j], ","@)])
}

/// When each target's values fit in one request, merging writes one request
/// per target.
proof fn lemma_render_all_single(keys: Seq<Seq<char>>, vals: Seq<Seq<Seq<char>>>, n: nat)
    requires
        keys.len() == vals.len(),
        forall|j: int| 0 <= j < vals.len() ==> 0 < (#[trigger] vals[j]).len() <= n,
    ensures
        render_all(keys, vals, n) == render_each(keys, vals),
    decreases keys.len(),
{
    if keys.len() > 0 {
        let kp = keys.drop_last();
        let vp = vals.drop_last();
        assert forall|j: int| 0 <= j < vp.len() implies 0 < (#[trigger] vp[j]).len() <= n by {
            assert(vp[j] == vals[j]);
        }
        lemma_render_all_single(kp, vp, n);
        assert(0 < vals[vals.len() - 1].len() <= n);
        assert(render_group(keys.last(), vals.last(), n) == seq![render(keys.last(), vals.last())]);
        assert(render_all(keys, vals, n) =~= render_each(keys, vals));
    } else {
        assert(render_all(keys, vals, n) =~= render_each(keys, vals));
    }
}

/// Reading merged requests again gives each target with its value text.
proof fn lemma_entries_of_renders(keys: Seq<Seq<char>>, vals: Seq<Seq<Seq<char>>>)
    requires
        keys.len() == vals.len(),
        forall|j: int| 0 <= j < keys.len() ==> key_ok(#[trigger] keys[j]),
        forall|j: int, i: int|
            0 <= j < vals.len() && 0 <= i < vals[j].len() ==> value_ok(#[trigger] vals[j][i]),
    ensures
        request_entries(render_each(keys, vals)) == joined_entries(keys, vals),
    decreases keys.len(),
{
    if keys.len() > 0 {
        let kp = keys.drop_last();
        let vp = vals.drop_last();
        assert forall|j: int| 0 <= j < kp.len() implies key_ok(#[trigger] kp[j]) by {
            assert(kp[j] == keys[j]);
        }
        assert forall|j: int, i: int| 0 <= j < vp.len() && 0 <= i < vp[j].len() implies value_ok(
            #[trigger] vp[j][i],
        ) by {
            assert(vp[j] == vals[j]);
        }
        lemma_entries_of_renders(kp, vp);
        let rs = render_each(keys, vals);
        assert(rs.drop_last() =~= render_each(kp, vp));
        let l = keys.len() - 1;
        assert(key_ok(keys[l]));
        assert forall|i: int| 0 <= i < vals[l].len() implies value_ok(#[trigger] vals[l][i]) by {}
        lemma_render_read_back(keys[l], vals[l]);
        assert(rs.last() == render(keys[l], vals[l]));
        assert(request_entries(rs) =~= joined_entries(keys, vals));
    } else {
        assert(request_entries(render_each(keys, vals)) =~= joined_entries(keys, vals));
    }
}

/// Entries with distinct targets group into one value each, in order.
proof fn lemma_group_distinct(keys: Seq<Seq<char>>, vals: Seq<Seq<Seq<char>>>)
    requires
        keys.len() == vals.len(),
        forall|i: int, j: int| 0 <= i < j < keys.len() ==> #[trigger] keys[i] != #[trigger] keys[j],
    ensures
        group(joined_entries(keys, vals)) == (keys, singletons(keys, vals)),
    decreases keys.len(),
{
    let es = joined_entries(keys, vals);
    if keys.len() > 0 {
        let kp = keys.drop_last();
        let vp = vals.drop_last();
        assert forall|i: int, j: int| 0 <= i < j < kp.len() implies #[trigger] kp[i] != #[trigger] kp[j] by {
            assert(kp[i] == keys[i] && kp[j] == keys[j]);
        }
        lemma_group_distinct(kp, vp);
        assert(es.drop_last() =~= joined_entries(kp, vp));
        let l = keys.len() - 1;
        lemma_key_pos(kp, keys[l], 0);
        assert(key_pos(kp, keys[l], 0) is None) by {
            if key_pos(kp, keys[l], 0) is Some {
                let j = key_pos(kp, keys[l], 0)->0;
                assert(kp[j] == keys[j]);
            }
        }
        assert(es.last() == (keys[l], join(vals[l], ","@)));
        let g = group(es);
        assert(g == add_entry(group(es.drop_last()), es.last()));
        assert(g.0 =~= keys);
        assert(g.1 =~= singletons(keys, vals));
    } else {
        assert(group(es).0 =~= keys);
        assert(group(es).1 =~= singletons(keys, vals));
    }
}

/// Merging requests that were merged already gives them back unchanged,
/// when each target's values fit in one request (no two merged requests
/// share a target).
pub proof fn merging_again_changes_nothing(rs: Seq<Seq<char>>, n: nat)
    requires
        n > 0,
        forall|j: int|
            0 <= j < group(request_entries(rs)).1.len() ==> (#[trigger] group(
                request_entries(rs),
            ).1[j]).len() <= n,
    ensures
        concat_spec(concat_spec(rs, n), n) == concat_spec(rs, n),
{
    let es = request_entries(rs);
    let g = group(es);
    lemma_group_faithful(es);
    lemma_group_nonempty(es);
    lemma_request_entries_ok(rs);
    assert forall|j: int, i: int| 0 <= j < g.1.len() && 0 <= i < g.1[j].len() implies value_ok(
        #[trigger] g.1[j][i],
    ) by {
        assert(g.1[j].contains(g.1[j][i]));
        assert(es.contains((g.0[j], g.1[j][i])));
        let q = choose|q: int| 0 <= q < es.len() && es[q] == (g.0[j], g.1[j][i]);
        assert(value_ok(es[q].1));
    }
    assert forall|j: int| 0 <= j < g.0.len() implies key_ok(#[trigger] g.0[j]) by {
        assert(g.1[j].len() > 0);
        assert(g.1[j].contains(g.1[j][0]));
        assert(es.contains((g.0[j], g.1[j][0])));
        let q = choose|q: int| 0 <= q < es.len() && es[q] == (g.0[j], g.1[j][0]);
        assert(key_ok(es[q].0));
    }
    lemma_render_all_single(g.0, g.1, n);
    let r1 = concat_spec(rs, n);
    assert(r1 == render_each(g.0, g.1));
    lemma_entries_of_renders(g.0, g.1);
    lemma_group_distinct(g.0, g.1);
    let sg = singletons(g.0, g.1);
    assert forall|j: int| 0 <= j < sg.len() implies 0 < (#[trigger] sg[j]).len() <= n by {}
    lemma_render_all_single(g.0, sg, n);
    reveal_strlit(",");
    assert forall|j: int| 0 <= j < g.0.len() implies render(g.0[j], sg[j]) == render(g.0[j], g.1[j]) by {
        assert(join(sg[j], ","@) == join(g.1[j], ","@));
    }
    assert(render_each(g.0, sg) =~= render_each(g.0, g.1));
}

} // verus!
