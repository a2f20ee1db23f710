//! Text primitives over sequences of characters: splitting, lines, words,
//! trimming, joining and replacing, each with the meaning that the
//! standard library's `str` methods of the same name have.
use vstd::prelude::*;

verus! {

// ---------------------------------------------------------------------------
// Specifications
// ---------------------------------------------------------------------------

/// The Unicode `White_Space` property, as `char::is_whitespace` decides it.
pub open spec fn is_ws(c: char) -> bool {
    ||| c == ' '
    ||| c == '\t'
    ||| c == '\n'
    ||| c == '\u{0B}'
    ||| c == '\u{0C}'
    ||| c == '\r'
    ||| c == '\u{85}'
    ||| c == '\u{A0}'
    ||| c == '\u{1680}'
    ||| ('\u{2000}' <= c && c <= '\u{200A}')
    ||| c == '\u{2028}'
    ||| c == '\u{2029}'
    ||| c == '\u{202F}'
    ||| c == '\u{205F}'
    ||| c == '\u{3000}'
}

/// `pat` occurs in `s` at position `i`.
pub open spec fn occurs_at(s: Seq<char>, pat: Seq<char>, i: int) -> bool {
    &&& 0 <= i
    &&& i + pat.len() <= s.len()
    &&& s.subrange(i, i + pat.len()) == pat
}

/// The first position at or after `i` where `pat` occurs in `s`.
pub open spec fn find_from(s: Seq<char>, pat: Seq<char>, i: int) -> Option<int>
    decreases s.len() - i,
{
    if i < 0 || i + pat.len() > s.len() {
        None
    } else if occurs_at(s, pat, i) {
        Some(i)
    } else if i >= s.len() {
        None
    } else {
        find_from(s, pat, i + 1)
    }
}

/// The first position where `pat` occurs in `s` (`str::find`).
pub open spec fn find(s: Seq<char>, pat: Seq<char>) -> Option<int> {
    find_from(s, pat, 0)
}

/// The pieces of `s[start..]` cut at each occurrence of `pat` found from `i` on,
/// the current piece having begun at `start`.
pub open spec fn split_rec(s: Seq<char>, pat: Seq<char>, start: int, i: int) -> Seq<Seq<char>>
    decreases s.len() - i,
{
    if pat.len() == 0 || i < 0 || i + pat.len() > s.len() {
        seq![s.subrange(start, s.len() as int)]
    } else if occurs_at(s, pat, i) {
        seq![s.subrange(start, i)] + split_rec(s, pat, i + pat.len(), i + pat.len())
    } else {
        split_rec(s, pat, start, i + 1)
    }
}

/// `str::split` with a non-empty pattern: the pieces between the
/// non-overlapping occurrences of `pat`, searched from the left.
pub open spec fn split(s: Seq<char>, pat: Seq<char>) -> Seq<Seq<char>> {
    split_rec(s, pat, 0, 0)
}

/// `str::splitn(2, pat)`: the text before the first occurrence of `pat`
/// and the text after it, or `s` alone where `pat` does not occur.
pub open spec fn split_once(s: Seq<char>, pat: Seq<char>) -> Seq<Seq<char>> {
    match find(s, pat) {
        Some(i) => seq![s.subrange(0, i), s.subrange(i + pat.len(), s.len() as int)],
        None => seq![s],
    }
}

/// A line without its terminating carriage return, if it has one.
pub open spec fn strip_cr(line: Seq<char>) -> Seq<char> {
    if line.len() > 0 && line.last() == '\r' {
        line.drop_last()
    } else {
        line
    }
}

/// The lines of `s[start..]`, scanning from `i`.
pub open spec fn lines_rec(s: Seq<char>, start: int, i: int) -> Seq<Seq<char>>
    decreases s.len() - i,
{
    if i < 0 || i >= s.len() {
        if 0 <= start < s.len() {
            seq![s.subrange(start, s.len() as int)]
        } else {
            seq![]
        }
    } else if s[i] == '\n' {
        seq![strip_cr(s.subrange(start, i))] + lines_rec(s, i + 1, i + 1)
    } else {
        lines_rec(s, start, i + 1)
    }
}

/// `str::lines`: the text between line feeds, a `\r` before a line feed
/// removed, and no empty last line after a final line feed.
pub open spec fn lines(s: Seq<char>) -> Seq<Seq<char>> {
    lines_rec(s, 0, 0)
}

/// The words of `s[start..]`, scanning from `i`; `in_word` tells whether a word
/// began at `start`.
pub open spec fn words_rec(s: Seq<char>, start: int, i: int, in_word: bool) -> Seq<Seq<char>>
    decreases s.len() - i,
{
    if i < 0 || i >= s.len() {
        if in_word && 0 <= start <= s.len() {
            seq![s.subrange(start, s.len() as int)]
        } else {
            seq![]
        }
    } else if is_ws(s[i]) {
        if in_word {
            seq![s.subrange(start, i)] + words_rec(s, i + 1, i + 1, false)
        } else {
            words_rec(s, i + 1, i + 1, false)
        }
    } else if in_word {
        words_rec(s, start, i + 1, true)
    } else {
        words_rec(s, i, i + 1, true)
    }
}

/// `str::split_whitespace`: the maximal runs of non-whitespace characters.
pub open spec fn words(s: Seq<char>) -> Seq<Seq<char>> {
    words_rec(s, 0, 0, false)
}

/// The first position at or after `i` that does not hold whitespace.
pub open spec fn skip_ws(s: Seq<char>, i: int) -> int
    decreases s.len() - i,
{
    if 0 <= i < s.len() && is_ws(s[i]) {
        skip_ws(s, i + 1)
    } else {
        i
    }
}

/// The position after the last character before `j` that is not whitespace.
pub open spec fn skip_ws_back(s: Seq<char>, j: int) -> int
    decreases j,
{
    if 0 < j <= s.len() && is_ws(s[j - 1]) {
        skip_ws_back(s, j - 1)
    } else {
        j
    }
}

/// `str::trim`: `s` without its leading and trailing whitespace.
pub open spec fn trim(s: Seq<char>) -> Seq<char> {
    let a = skip_ws(s, 0);
    let b = skip_ws_back(s, s.len() as int);
    if a < b {
        s.subrange(a, b)
    } else {
        Seq::empty()
    }
}

/// The pieces joined with `sep` between each two (`[..].join(sep)`).
pub open spec fn join(parts: Seq<Seq<char>>, sep: Seq<char>) -> Seq<char>
    decreases parts.len(),
{
    if parts.len() == 0 {
        Seq::empty()
    } else if parts.len() == 1 {
        parts[0]
    } else {
        join(parts.drop_last(), sep) + sep + parts.last()
    }
}

/// `str::starts_with`.
pub open spec fn starts_with(s: Seq<char>, prefix: Seq<char>) -> bool {
    prefix.len() <= s.len() && s.subrange(0, prefix.len() as int) == prefix
}

/// `str::replace` of one character by a text.
pub open spec fn replace_char(s: Seq<char>, c: char, by: Seq<char>) -> Seq<char>
    decreases s.len(),
{
    if s.len() == 0 {
        Seq::empty()
    } else {
        replace_char(s.drop_last(), c, by) + (if s.last() == c {
            by
        } else {
            seq![s.last()]
        })
    }
}

/// ASCII lower case of a character (`char::to_ascii_lowercase`).
pub open spec fn ascii_lower(c: char) -> char {
    if 'A' <= c && c <= 'Z' {
        ((c as u32) + 32) as char
    } else {
        c
    }
}

/// `s` equals `word` when ASCII letters are compared without regard to case.
pub open spec fn eq_ignore_ascii_case(s: Seq<char>, word: Seq<char>) -> bool {
    &&& s.len() == word.len()
    &&& forall|i: int| 0 <= i < s.len() ==> #[trigger] ascii_lower(s[i]) == ascii_lower(word[i])
}

/// The texts that a vector of character vectors holds.
pub open spec fn views(v: Seq<Vec<char>>) -> Seq<Seq<char>> {
    v.map_values(|x: Vec<char>| x@)
}

// ---------------------------------------------------------------------------
// Facts
// ---------------------------------------------------------------------------

/// A position that `find_from` reports holds the pattern.
pub proof fn lemma_find_from_occurs(s: Seq<char>, pat: Seq<char>, i: int)
    ensures
        find_from(s, pat, i) matches Some(k) ==> occurs_at(s, pat, k) && i <= k,
        i >= 0 && find_from(s, pat, i) is None ==> forall|k: int| i <= k ==> !occurs_at(s, pat, k),
    decreases s.len() - i,
{
    if i < 0 || i + pat.len() > s.len() {
    } else if occurs_at(s, pat, i) {
    } else if i >= s.len() {
        assert(pat.len() == 0);
        assert(s.subrange(i, i + pat.len()) =~= pat);
    } else {
        lemma_find_from_occurs(s, pat, i + 1);
    }
}

/// Splitting a text that lacks the pattern gives the text alone.
pub proof fn lemma_split_rec_no_match(s: Seq<char>, pat: Seq<char>, start: int, i: int)
    requires
        pat.len() > 0,
        0 <= start <= i,
        forall|k: int| i <= k ==> !occurs_at(s, pat, k),
    ensures
        split_rec(s, pat, start, i) == seq![s.subrange(start, s.len() as int)],
    decreases s.len() - i,
{
    if i + pat.len() <= s.len() {
        lemma_split_rec_no_match(s, pat, start, i + 1);
    }
}

/// `pat` occurs nowhere in `p`.
pub open spec fn free_of(p: Seq<char>, pat: Seq<char>) -> bool {
    forall|k: int| !occurs_at(p, pat, k)
}

/// Splitting always gives at least one piece.
proof fn lemma_split_rec_nonempty(s: Seq<char>, pat: Seq<char>, start: int, i: int)
    ensures
        split_rec(s, pat, start, i).len() >= 1,
    decreases s.len() - i,
{
    if pat.len() == 0 || i < 0 || i + pat.len() > s.len() {
    } else if occurs_at(s, pat, i) {
        lemma_split_rec_nonempty(s, pat, i + pat.len(), i + pat.len());
    } else {
        lemma_split_rec_nonempty(s, pat, start, i + 1);
    }
}

/// Joining a piece put in front of other pieces.
pub proof fn lemma_join_prepend(a: Seq<char>, rest: Seq<Seq<char>>, sep: Seq<char>)
    requires
        rest.len() > 0,
    ensures
        join(seq![a] + rest, sep) == a + sep + join(rest, sep),
    decreases rest.len(),
{
    let x = seq![a] + rest;
    if rest.len() == 1 {
        assert(x.drop_last() =~= seq![a]);
        assert(join(x, sep) == join(x.drop_last(), sep) + sep + x.last());
    } else {
        lemma_join_prepend(a, rest.drop_last(), sep);
        assert(x.drop_last() =~= seq![a] + rest.drop_last());
        assert(join(x, sep) == join(x.drop_last(), sep) + sep + x.last());
        assert(join(rest, sep) == join(rest.drop_last(), sep) + sep + rest.last());
        assert(join(x, sep) =~= a + sep + join(rest, sep));
    }
}

/// Joining the pieces of a split with the pattern gives the text back.
proof fn lemma_split_rec_join(s: Seq<char>, pat: Seq<char>, start: int, i: int)
    requires
        pat.len() > 0,
        0 <= start <= i <= s.len(),
    ensures
        join(split_rec(s, pat, start, i), pat) == s.subrange(start, s.len() as int),
    decreases s.len() - i,
{
    if i + pat.len() > s.len() {
    } else if occurs_at(s, pat, i) {
        let j = i + pat.len();
        lemma_split_rec_join(s, pat, j, j);
        lemma_split_rec_nonempty(s, pat, j, j);
        lemma_join_prepend(s.subrange(start, i), split_rec(s, pat, j, j), pat);
        assert(s.subrange(start, i) + pat + s.subrange(j, s.len() as int) =~= s.subrange(
            start,
            s.len() as int,
        ));
    } else {
        lemma_split_rec_join(s, pat, start, i + 1);
    }
}

/// A piece `s[start..e]` holds no occurrence of `pat` when `s` has none that
/// begins in `start..i`, and `e` ends before an occurrence that begins at `i`
/// or later could end.
proof fn lemma_piece_free(s: Seq<char>, pat: Seq<char>, start: int, e: int, i: int)
    requires
        0 <= start <= e <= s.len(),
        e < i + pat.len(),
        forall|k: int| start <= k < i ==> !occurs_at(s, pat, k),
    ensures
        free_of(s.subrange(start, e), pat),
{
    let p = s.subrange(start, e);
    assert forall|k: int| !occurs_at(p, pat, k) by {
        if occurs_at(p, pat, k) {
            assert(p.subrange(k, k + pat.len()) =~= s.subrange(start + k, start + k + pat.len()));
            assert(occurs_at(s, pat, start + k));
        }
    }
}

/// No piece of a split holds the pattern.
proof fn lemma_split_rec_free(s: Seq<char>, pat: Seq<char>, start: int, i: int)
    requires
        pat.len() > 0,
        0 <= start <= i <= s.len(),
        forall|k: int| start <= k < i ==> !occurs_at(s, pat, k),
    ensures
        forall|n: int|
            0 <= n < split_rec(s, pat, start, i).len() ==> free_of(
                #[trigger] split_rec(s, pat, start, i)[n],
                pat,
            ),
    decreases s.len() - i,
{
    let r = split_rec(s, pat, start, i);
    if i + pat.len() > s.len() {
        lemma_piece_free(s, pat, start, s.len() as int, i);
        assert(r == seq![s.subrange(start, s.len() as int)]);
        assert(r[0] == s.subrange(start, s.len() as int));
    } else if occurs_at(s, pat, i) {
        let j = i + pat.len();
        lemma_split_rec_free(s, pat, j, j);
        assert(r == seq![s.subrange(start, i)] + split_rec(s, pat, j, j));
        lemma_piece_free(s, pat, start, i, i);
        assert forall|n: int| 0 <= n < r.len() implies free_of(#[trigger] r[n], pat) by {
            if n > 0 {
                assert(r[n] == split_rec(s, pat, j, j)[n - 1]);
            }
        }
    } else {
        lemma_split_rec_free(s, pat, start, i + 1);
        assert(r == split_rec(s, pat, start, i + 1));
    }
}

/// Splitting at a non-empty pattern and joining the pieces with it gives the
/// text back, and no piece holds the pattern.
pub proof fn split_join_back(s: Seq<char>, pat: Seq<char>)
    requires
        pat.len() > 0,
    ensures
        join(split(s, pat), pat) == s,
        forall|n: int| 0 <= n < split(s, pat).len() ==> free_of(#[trigger] split(s, pat)[n], pat),
{
    lemma_split_rec_join(s, pat, 0, 0);
    lemma_split_rec_free(s, pat, 0, 0);
    assert(s.subrange(0, s.len() as int) =~= s);
}

/// `t` has no leading or trailing whitespace.
pub open spec fn trimmed(t: Seq<char>) -> bool {
    t.len() == 0 || (!is_ws(t[0]) && !is_ws(t.last()))
}

proof fn lemma_skip_ws(s: Seq<char>, i: int)
    requires
        0 <= i <= s.len(),
    ensures
        i <= skip_ws(s, i) <= s.len(),
        skip_ws(s, i) < s.len() ==> !is_ws(s[skip_ws(s, i)]),
        forall|k: int| i <= k < skip_ws(s, i) ==> is_ws(#[trigger] s[k]),
    decreases s.len() - i,
{
    if i < s.len() && is_ws(s[i]) {
        lemma_skip_ws(s, i + 1);
    }
}

proof fn lemma_skip_ws_back(s: Seq<char>, j: int)
    requires
        0 <= j <= s.len(),
    ensures
        0 <= skip_ws_back(s, j) <= j,
        skip_ws_back(s, j) > 0 ==> !is_ws(s[skip_ws_back(s, j) - 1]),
        forall|k: int| skip_ws_back(s, j) <= k < j ==> is_ws(#[trigger] s[k]),
    decreases j,
{
    if 0 < j && is_ws(s[j - 1]) {
        lemma_skip_ws_back(s, j - 1);
    }
}

/// What `trim` gives: a trimmed piece of the text, not empty when the text
/// holds a character that is not whitespace, and the text itself when it is
/// already trimmed.
pub proof fn lemma_trim(s: Seq<char>)
    ensures
        trimmed(trim(s)),
        trim(s).len() == 0 || exists|a: int, b: int|
            0 <= a < b <= s.len() && trim(s) == s.subrange(a, b),
        forall|i: int| 0 <= i < s.len() && !is_ws(#[trigger] s[i]) ==> trim(s).len() > 0,
        trimmed(s) ==> trim(s) == s,
{
    lemma_skip_ws(s, 0);
    lemma_skip_ws_back(s, s.len() as int);
    let a = skip_ws(s, 0);
    let b = skip_ws_back(s, s.len() as int);
    assert forall|i: int| 0 <= i < s.len() && !is_ws(#[trigger] s[i]) implies trim(s).len() > 0 by {
        assert(a <= i);
        assert(i < b);
    }
    if a < b {
        assert(trim(s) =~= s.subrange(a, b));
        assert(trim(s)[0] == s[a]);
        assert(trim(s).last() == s[b - 1]);
    }
    if trimmed(s) && s.len() > 0 {
        assert(a == 0);
        assert(b == s.len());
        assert(s.subrange(0, s.len() as int) =~= s);
    }
}

/// A trimmed text with a space after it trims back to itself.
pub proof fn lemma_trim_space_after(k: Seq<char>)
    requires
        trimmed(k),
    ensures
        trim(k + seq![' ']) == k,
{
    let s = k + seq![' '];
    lemma_skip_ws(s, 0);
    lemma_skip_ws_back(s, s.len() as int);
    assert(is_ws(s[k.len() as int]));
    assert(skip_ws_back(s, s.len() as int) == skip_ws_back(s, k.len() as int));
    if k.len() > 0 {
        assert(s[0] == k[0]);
        assert(s[k.len() - 1] == k.last());
        assert(skip_ws(s, 0) == 0);
        assert(skip_ws_back(s, k.len() as int) == k.len());
        assert(s.subrange(0, k.len() as int) =~= k);
    } else {
        assert(skip_ws_back(s, 0) == 0);
    }
}

/// A trimmed text with a space before it trims back to itself.
pub proof fn lemma_trim_space_before(j: Seq<char>)
    requires
        trimmed(j),
    ensures
        trim(seq![' '] + j) == j,
{
    let s = seq![' '] + j;
    lemma_skip_ws(s, 0);
    lemma_skip_ws(s, 1);
    lemma_skip_ws_back(s, s.len() as int);
    assert(is_ws(s[0]));
    assert(skip_ws(s, 0) == skip_ws(s, 1));
    if j.len() > 0 {
        assert(s[1] == j[0]);
        assert(s[s.len() - 1] == j.last());
        assert(skip_ws(s, 1) == 1);
        assert(skip_ws_back(s, s.len() as int) == s.len());
        assert(s.subrange(1, s.len() as int) =~= j);
    } else {
        assert(skip_ws(s, 1) == 1);
    }
}

/// Trimmed pieces joined with a separator that neither begins nor ends with
/// whitespace give a trimmed text.
pub proof fn lemma_join_trimmed(parts: Seq<Seq<char>>, sep: Seq<char>)
    requires
        sep.len() > 0,
        !is_ws(sep[0]),
        !is_ws(sep.last()),
        forall|i: int| 0 <= i < parts.len() ==> trimmed(#[trigger] parts[i]),
    ensures
        trimmed(join(parts, sep)),
    decreases parts.len(),
{
    if parts.len() > 1 {
        let pre = parts.drop_last();
        assert forall|i: int| 0 <= i < pre.len() implies trimmed(#[trigger] pre[i]) by {
            assert(pre[i] == parts[i]);
        }
        lemma_join_trimmed(pre, sep);
        let a = join(pre, sep);
        let l = parts.last();
        assert(trimmed(l)) by {
            assert(parts[parts.len() - 1] == l);
        }
        let j = a + sep + l;
        assert(join(parts, sep) == j);
        if a.len() > 0 {
            assert(j[0] == a[0]);
        } else {
            assert(j[0] == sep[0]);
        }
        if l.len() > 0 {
            assert(j.last() == l.last());
        } else {
            assert(j.last() == sep.last());
        }
    } else if parts.len() == 1 {
        assert(trimmed(parts[0]));
    }
}

/// A piece of a text that does not hold a pattern does not hold it either.
pub proof fn lemma_free_subrange(s: Seq<char>, pat: Seq<char>, a: int, b: int)
    requires
        free_of(s, pat),
        0 <= a <= b <= s.len(),
    ensures
        free_of(s.subrange(a, b), pat),
{
    let p = s.subrange(a, b);
    assert forall|k: int| !occurs_at(p, pat, k) by {
        if occurs_at(p, pat, k) {
            assert(p.subrange(k, k + pat.len()) =~= s.subrange(a + k, a + k + pat.len()));
            assert(occurs_at(s, pat, a + k));
        }
    }
}

/// `find_from` reports the first occurrence at or after `i`.
pub proof fn lemma_find_from_first(s: Seq<char>, pat: Seq<char>, i: int)
    requires
        0 <= i,
    ensures
        find_from(s, pat, i) matches Some(m) ==> forall|j: int| i <= j < m ==> !occurs_at(s, pat, j),
    decreases s.len() - i,
{
    if i + pat.len() > s.len() {
    } else if occurs_at(s, pat, i) {
    } else if i >= s.len() {
    } else {
        lemma_find_from_first(s, pat, i + 1);
    }
}

/// The first occurrence of a pattern is where it occurs with none before.
pub proof fn lemma_find_at(s: Seq<char>, pat: Seq<char>, i: int, m: int)
    requires
        0 <= i <= m,
        occurs_at(s, pat, m),
        forall|j: int| i <= j < m ==> !occurs_at(s, pat, j),
    ensures
        find_from(s, pat, i) == Some(m),
    decreases m - i,
{
    if i < m {
        assert(!occurs_at(s, pat, i));
        lemma_find_at(s, pat, i + 1, m);
    }
}

proof fn lemma_split_scan(s: Seq<char>, pat: Seq<char>, start: int, i: int, m: int)
    requires
        pat.len() > 0,
        0 <= start <= i <= m,
        occurs_at(s, pat, m),
        forall|j: int| i <= j < m ==> !occurs_at(s, pat, j),
    ensures
        split_rec(s, pat, start, i) == seq![s.subrange(start, m)] + split_rec(
            s,
            pat,
            m + pat.len(),
            m + pat.len(),
        ),
    decreases m - i,
{
    if i < m {
        assert(!occurs_at(s, pat, i));
        lemma_split_scan(s, pat, start, i + 1, m);
    }
}

/// A text without a one-character pattern, followed by the pattern, splits
/// into the text and an empty piece.
pub proof fn lemma_split_before_last(x: Seq<char>, pat: Seq<char>)
    requires
        pat.len() == 1,
        free_of(x, pat),
    ensures
        split(x + pat, pat) == seq![x, Seq::<char>::empty()],
{
    let s = x + pat;
    let m = x.len() as int;
    assert(occurs_at(s, pat, m)) by {
        assert(s.subrange(m, m + 1) =~= pat);
    }
    assert forall|k: int| 0 <= k < m implies !occurs_at(s, pat, k) by {
        if occurs_at(s, pat, k) {
            assert(x.subrange(k, k + 1) =~= s.subrange(k, k + 1));
            assert(occurs_at(x, pat, k));
        }
    }
    lemma_split_scan(s, pat, 0, 0, m);
    let e = s.len() as int;
    assert(split_rec(s, pat, e, e) == seq![s.subrange(e, e)]);
    assert(s.subrange(0, m) =~= x);
    assert(s.subrange(e, e) =~= Seq::<char>::empty());
    assert(split(s, pat) =~= seq![x, Seq::<char>::empty()]);
}

// ---------------------------------------------------------------------------
// Executable operations
// ---------------------------------------------------------------------------

/// The characters of `s`, in order.
pub fn chars_of(s: &str) -> (r: Vec<char>)
    ensures
        r@ == s@,
{
    let mut r: Vec<char> = Vec::new();
    for c in it: s.chars()
        invariant
            r@ == it.seq().take(it.index() as int),
            it.seq() == s@,
    {
        r.push(c);
    }
    r
}

/// A `String` holding exactly the given characters (collecting them with
/// `FromIterator<char> for String`).
#[verifier::external_body]
pub fn string_from_chars(chars: &[char]) -> (r: String)
    ensures
        r@ == chars@,
{
    chars.iter().collect()
}

/// A copy of `s[a..b]`.
pub fn slice_copy(s: &[char], a: usize, b: usize) -> (r: Vec<char>)
    requires
        a <= b <= s@.len(),
    ensures
        r@ == s@.subrange(a as int, b as int),
{
    vstd::slice::slice_to_vec(vstd::slice::slice_subrange(s, a, b))
}

/// Appends a piece to a list of pieces.
pub fn push_piece(r: &mut Vec<Vec<char>>, x: Vec<char>)
    ensures
        views(final(r)@) == views(old(r)@).push(x@),
        final(r)@.len() == old(r)@.len() + 1,
{
    let ghost xv = x@;
    r.push(x);
    proof {
        assert(views(r@) =~= views(old(r)@).push(xv));
    }
}

/// Whether `pat` occurs in `s` at `i`.
pub fn occurs_at_exec(s: &[char], pat: &[char], i: usize) -> (r: bool)
    ensures
        r == occurs_at(s@, pat@, i as int),
{
    let n = s.len();
    if i > n || pat.len() > n - i {
        return false;
    }
    let mut k: usize = 0;
    while k < pat.len()
        invariant
            n == s@.len(),
            i + pat@.len() <= s@.len(),
            k <= pat@.len(),
            forall|m: int| 0 <= m < k ==> s@[i + m] == pat@[m],
        decreases pat@.len() - k,
    {
        if s[i + k] != pat[k] {
            assert(s@.subrange(i as int, i + pat@.len())[k as int] != pat@[k as int]);
            return false;
        }
        k = k + 1;
    }
    assert(s@.subrange(i as int, i + pat@.len()) =~= pat@);
    true
}

/// The first position where `pat` occurs in `s` (`str::find`).
pub fn find_exec(s: &[char], pat: &[char]) -> (r: Option<usize>)
    ensures
        r matches Some(i) ==> find(s@, pat@) == Some(i as int),
        r is None ==> find(s@, pat@) is None,
{
    let n = s.len();
    let m = pat.len();
    if m > n {
        return None;
    }
    if m == 0 {
        assert(s@.subrange(0, 0) =~= pat@);
        return Some(0);
    }
    let mut i: usize = 0;
    while i <= n - m
        invariant
            n == s@.len(),
            m == pat@.len(),
            1 <= m <= n,
            i <= n - m + 1,
            find(s@, pat@) == find_from(s@, pat@, i as int),
        decreases n - m + 1 - i,
    {
        if occurs_at_exec(s, pat, i) {
            return Some(i);
        }
        i = i + 1;
    }
    None
}

/// `str::split` with a non-empty pattern.
pub fn split_exec(s: &[char], pat: &[char]) -> (r: Vec<Vec<char>>)
    requires
        pat@.len() > 0,
    ensures
        views(r@) == split(s@, pat@),
{
    let mut r: Vec<Vec<char>> = Vec::new();
    let mut start: usize = 0;
    let mut i: usize = 0;
    while i <= s.len() && pat.len() <= s.len() - i
        invariant
            pat@.len() > 0,
            start <= i <= s@.len(),
            views(r@) + split_rec(s@, pat@, start as int, i as int) == split(s@, pat@),
        decreases s@.len() - i,
    {
        if occurs_at_exec(s, pat, i) {
            let piece = slice_copy(s, start, i);
            proof {
                assert(views(r@).push(piece@) + split_rec(s@, pat@, (i + pat@.len()) as int, (i + pat@.len()) as int)
                    =~= views(r@) + split_rec(s@, pat@, start as int, i as int));
            }
            push_piece(&mut r, piece);
            i = i + pat.len();
            start = i;
        } else {
            i = i + 1;
        }
    }
    let last = slice_copy(s, start, s.len());
    proof {
        assert(views(r@).push(last@) =~= views(r@) + split_rec(s@, pat@, start as int, i as int));
    }
    push_piece(&mut r, last);
    r
}

/// `str::splitn(2, pat)`.
pub fn split_once_exec(s: &[char], pat: &[char]) -> (r: Vec<Vec<char>>)
    ensures
        views(r@) == split_once(s@, pat@),
{
    proof {
        lemma_find_from_occurs(s@, pat@, 0);
    }
    let n = s.len();
    match find_exec(s, pat) {
        Some(i) => {
            let a = slice_copy(s, 0, i);
            let b = slice_copy(s, i + pat.len(), n);
            let mut r: Vec<Vec<char>> = Vec::new();
            push_piece(&mut r, a);
            push_piece(&mut r, b);
            assert(views(r@) =~= split_once(s@, pat@));
            r
        },
        None => {
            let mut r: Vec<Vec<char>> = Vec::new();
            push_piece(&mut r, slice_copy(s, 0, s.len()));
            assert(s@.subrange(0, s@.len() as int) == s@);
            assert(views(r@) =~= split_once(s@, pat@));
            r
        },
    }
}

/// `s` without a final carriage return.
fn strip_cr_exec(line: Vec<char>) -> (r: Vec<char>)
    ensures
        r@ == strip_cr(line@),
{
    let mut line = line;
    if line.len() > 0 && line[line.len() - 1] == '\r' {
        line.pop();
    }
    line
}

/// `str::lines`.
pub fn lines_exec(s: &[char]) -> (r: Vec<Vec<char>>)
    ensures
        views(r@) == lines(s@),
{
    let mut r: Vec<Vec<char>> = Vec::new();
    let mut start: usize = 0;
    let mut i: usize = 0;
    while i < s.len()
        invariant
            start <= i <= s@.len(),
            views(r@) + lines_rec(s@, start as int, i as int) == lines(s@),
        decreases s@.len() - i,
    {
        if s[i] == '\n' {
            let piece = strip_cr_exec(slice_copy(s, start, i));
            proof {
                assert(views(r@).push(piece@) + lines_rec(s@, (i + 1) as int, (i + 1) as int)
                    =~= views(r@) + lines_rec(s@, start as int, i as int));
            }
            push_piece(&mut r, piece);
            i = i + 1;
            start = i;
        } else {
            i = i + 1;
        }
    }
    if start < s.len() {
        let last = slice_copy(s, start, s.len());
        proof {
            assert(views(r@).push(last@) =~= views(r@) + lines_rec(s@, start as int, i as int));
        }
        push_piece(&mut r, last);
    } else {
        assert(views(r@) =~= views(r@) + lines_rec(s@, start as int, i as int));
    }
    r
}

/// Whether a character is whitespace (`char::is_whitespace`).
pub fn is_ws_exec(c: char) -> (r: bool)
    ensures
        r == is_ws(c),
{
    c == ' ' || c == '\t' || c == '\n' || c == '\u{0B}' || c == '\u{0C}' || c == '\r'
        || c == '\u{85}' || c == '\u{A0}' || c == '\u{1680}' || ('\u{2000}' <= c && c
        <= '\u{200A}') || c == '\u{2028}' || c == '\u{2029}' || c == '\u{202F}' || c
        == '\u{205F}' || c == '\u{3000}'
}

/// `str::split_whitespace`.
pub fn words_exec(s: &[char]) -> (r: Vec<Vec<char>>)
    ensures
        views(r@) == words(s@),
{
    let mut r: Vec<Vec<char>> = Vec::new();
    let mut start: usize = 0;
    let mut i: usize = 0;
    let mut in_word = false;
    while i < s.len()
        invariant
            start <= i <= s@.len(),
            views(r@) + words_rec(s@, start as int, i as int, in_word) == words(s@),
        decreases s@.len() - i,
    {
        if is_ws_exec(s[i]) {
            if in_word {
                let piece = slice_copy(s, start, i);
                proof {
                    assert(views(r@).push(piece@) + words_rec(s@, (i + 1) as int, (i + 1) as int, false)
                        =~= views(r@) + words_rec(s@, start as int, i as int, in_word));
                }
                push_piece(&mut r, piece);
            }
            i = i + 1;
            start = i;
            in_word = false;
        } else {
            if !in_word {
                start = i;
            }
            i = i + 1;
            in_word = true;
        }
    }
    if in_word {
        let last = slice_copy(s, start, s.len());
        proof {
            assert(views(r@).push(last@) =~= views(r@) + words_rec(s@, start as int, i as int, in_word));
        }
        push_piece(&mut r, last);
    } else {
        assert(views(r@) =~= views(r@) + words_rec(s@, start as int, i as int, in_word));
    }
    r
}

/// `str::trim`.
pub fn trim_exec(s: &[char]) -> (r: Vec<char>)
    ensures
        r@ == trim(s@),
{
    let mut a: usize = 0;
    while a < s.len() && is_ws_exec(s[a])
        invariant
            a <= s@.len(),
            skip_ws(s@, 0) == skip_ws(s@, a as int),
        decreases s@.len() - a,
    {
        a = a + 1;
    }
    let mut b: usize = s.len();
    while b > 0 && is_ws_exec(s[b - 1])
        invariant
            b <= s@.len(),
            skip_ws_back(s@, s@.len() as int) == skip_ws_back(s@, b as int),
        decreases b,
    {
        b = b - 1;
    }
    if a < b {
        slice_copy(s, a, b)
    } else {
        Vec::new()
    }
}

/// `[..].join(sep)`.
pub fn join_exec(parts: &Vec<Vec<char>>, sep: &[char]) -> (r: Vec<char>)
    ensures
        r@ == join(views(parts@), sep@),
{
    let mut r: Vec<char> = Vec::new();
    let mut i: usize = 0;
    while i < parts.len()
        invariant
            i <= parts@.len(),
            r@ == join(views(parts@).take(i as int), sep@),
        decreases parts@.len() - i,
    {
        let ghost before = r@;
        if i > 0 {
            let mut k: usize = 0;
            while k < sep.len()
                invariant
                    k <= sep@.len(),
                    r@ == before + sep@.take(k as int),
                decreases sep@.len() - k,
            {
                r.push(sep[k]);
                proof {
                    assert(sep@.take(k + 1) =~= sep@.take(k as int).push(sep@[k as int]));
                }
                k = k + 1;
            }
        }
        let ghost mid = r@;
        let part = &parts[i];
        let mut k: usize = 0;
        while k < part.len()
            invariant
                k <= part@.len(),
                r@ == mid + part@.take(k as int),
            decreases part@.len() - k,
        {
            r.push(part[k]);
            proof {
                assert(part@.take(k + 1) =~= part@.take(k as int).push(part@[k as int]));
            }
            k = k + 1;
        }
        proof {
            let t = views(parts@).take(i + 1);
            assert(t.drop_last() =~= views(parts@).take(i as int));
            assert(sep@.take(sep@.len() as int) =~= sep@);
            assert(part@.take(part@.len() as int) =~= part@);
            if i == 0 {
                assert(before =~= Seq::<char>::empty());
                assert(r@ =~= join(t, sep@));
            } else {
                assert(r@ =~= join(t, sep@));
            }
        }
        i = i + 1;
    }
    proof {
        assert(views(parts@).take(parts@.len() as int) =~= views(parts@));
    }
    r
}

/// `str::starts_with`.
pub fn starts_with_exec(s: &[char], prefix: &[char]) -> (r: bool)
    ensures
        r == starts_with(s@, prefix@),
{
    occurs_at_exec(s, prefix, 0)
}

/// `str::replace` of one character by a text.
pub fn replace_char_exec(s: &[char], c: char, by: &[char]) -> (r: Vec<char>)
    ensures
        r@ == replace_char(s@, c, by@),
{
    let mut r: Vec<char> = Vec::new();
    let mut i: usize = 0;
    while i < s.len()
        invariant
            i <= s@.len(),
            r@ == replace_char(s@.take(i as int), c, by@),
        decreases s@.len() - i,
    {
        let ghost before = r@;
        if s[i] == c {
            let mut k: usize = 0;
            while k < by.len()
                invariant
                    k <= by@.len(),
                    r@ == before + by@.take(k as int),
                decreases by@.len() - k,
            {
                r.push(by[k]);
                proof {
                    assert(by@.take(k + 1) =~= by@.take(k as int).push(by@[k as int]));
                }
                k = k + 1;
            }
            proof {
                assert(by@.take(by@.len() as int) =~= by@);
            }
        } else {
            r.push(s[i]);
        }
        proof {
            assert(s@.take(i + 1).drop_last() =~= s@.take(i as int));
        }
        i = i + 1;
    }
    proof {
        assert(s@.take(s@.len() as int) =~= s@);
    }
    r
}

/// ASCII lower case of a character.
pub fn ascii_lower_exec(c: char) -> (r: char)
    ensures
        r == ascii_lower(c),
{
    if 'A' <= c && c <= 'Z' {
        let b: u8 = (c as u8) + 32;
        b as char
    } else {
        c
    }
}

/// `s` equals `word` when ASCII letters are compared without regard to case.
pub fn eq_ignore_ascii_case_exec(s: &[char], word: &[char]) -> (r: bool)
    ensures
        r == eq_ignore_ascii_case(s@, word@),
{
    if s.len() != word.len() {
        return false;
    }
    let mut i: usize = 0;
    while i < s.len()
        invariant
            s@.len() == word@.len(),
            i <= s@.len(),
            forall|k: int| 0 <= k < i ==> #[trigger] ascii_lower(s@[k]) == ascii_lower(word@[k]),
        decreases s@.len() - i,
    {
        if ascii_lower_exec(s[i]) != ascii_lower_exec(word[i]) {
            return false;
        }
        i = i + 1;
    }
    true
}

} // verus!

verus! {

/// The texts that a vector of strings holds.
pub open spec fn strings(v: Seq<String>) -> Seq<Seq<char>> {
    v.map_values(|x: String| x@)
}

/// The order of `str` (`Ord for str`): lexicographic by characters, a proper
/// prefix coming first.
pub open spec fn str_lt(a: Seq<char>, b: Seq<char>) -> bool
    decreases a.len(),
{
    if a.len() == 0 {
        b.len() > 0
    } else if b.len() == 0 {
        false
    } else if a[0] != b[0] {
        a[0] < b[0]
    } else {
        str_lt(a.drop_first(), b.drop_first())
    }
}

/// No text comes before itself.
pub proof fn lemma_str_lt_irrefl(a: Seq<char>)
    ensures
        !str_lt(a, a),
    decreases a.len(),
{
    if a.len() > 0 {
        lemma_str_lt_irrefl(a.drop_first());
    }
}

/// The order of texts is transitive.
pub proof fn lemma_str_lt_trans(a: Seq<char>, b: Seq<char>, c: Seq<char>)
    requires
        str_lt(a, b),
        str_lt(b, c),
    ensures
        str_lt(a, c),
    decreases a.len(),
{
    if a.len() > 0 && b.len() > 0 && c.len() > 0 {
        if a[0] == b[0] && b[0] == c[0] {
            lemma_str_lt_trans(a.drop_first(), b.drop_first(), c.drop_first());
        }
    }
}

/// Two different texts are ordered one way or the other.
pub proof fn lemma_str_lt_total(a: Seq<char>, b: Seq<char>)
    requires
        a != b,
    ensures
        str_lt(a, b) || str_lt(b, a),
    decreases a.len(),
{
    if a.len() > 0 && b.len() > 0 && a[0] == b[0] {
        if a.drop_first() == b.drop_first() {
            assert(a =~= seq![a[0]] + a.drop_first());
            assert(b =~= seq![b[0]] + b.drop_first());
        }
        lemma_str_lt_total(a.drop_first(), b.drop_first());
    } else if a.len() == 0 && b.len() == 0 {
        assert(a =~= b);
    }
}

/// Whether `a` comes before `b` in the order of `str`.
pub fn str_lt_exec(a: &[char], b: &[char]) -> (r: bool)
    ensures
        r == str_lt(a@, b@),
{
    let n = a.len();
    let m = b.len();
    let mut i: usize = 0;
    proof {
        assert(a@.skip(0) =~= a@);
        assert(b@.skip(0) =~= b@);
    }
    while i < n && i < m
        invariant
            n == a@.len(),
            m == b@.len(),
            i <= n,
            i <= m,
            str_lt(a@, b@) == str_lt(a@.skip(i as int), b@.skip(i as int)),
        decreases n - i,
    {
        if a[i] != b[i] {
            proof {
                assert(a@.skip(i as int)[0] == a@[i as int]);
                assert(b@.skip(i as int)[0] == b@[i as int]);
            }
            return a[i] < b[i];
        }
        proof {
            assert(a@.skip(i as int).drop_first() =~= a@.skip(i + 1));
            assert(b@.skip(i as int).drop_first() =~= b@.skip(i + 1));
        }
        i = i + 1;
    }
    i == n && i < m
}

/// Whether two texts are equal.
pub fn chars_eq(a: &[char], b: &[char]) -> (r: bool)
    ensures
        r == (a@ == b@),
{
    if a.len() != b.len() {
        return false;
    }
    let r = occurs_at_exec(a, b, 0);
    proof {
        assert(a@.subrange(0, b@.len() as int) =~= a@);
    }
    r
}

} // verus!

verus! {

/// Appends the characters of `s` to `r`.
pub fn append_chars(r: &mut Vec<char>, s: &[char])
    ensures
        final(r)@ == old(r)@ + s@,
{
    let ghost before = r@;
    let mut k: usize = 0;
    while k < s.len()
        invariant
            k <= s@.len(),
            r@ == before + s@.take(k as int),
        decreases s@.len() - k,
    {
        r.push(s[k]);
        proof {
            assert(s@.take(k + 1) =~= s@.take(k as int).push(s@[k as int]));
        }
        k = k + 1;
    }
    proof {
        assert(s@.take(s@.len() as int) =~= s@);
    }
}

} // verus!

verus! {

/// The text that the bytes encode in UTF-8, or `None` when they are not
/// valid UTF-8 (`String::from_utf8`); the contract restates the documented
/// behaviour through vstd's description of UTF-8.
#[verifier::external_body]
pub fn string_from_utf8(bytes: &[u8]) -> (r: Option<String>)
    ensures
        r is Some <==> vstd::utf8::valid_utf8(bytes@),
        r matches Some(s) ==> s@ == vstd::utf8::decode_utf8(bytes@),
{
    String::from_utf8(bytes.to_vec()).ok()
}

} // verus!

verus! {

/// What `str::to_uppercase` gives for a text (Unicode upper case mapping).
pub uninterp spec fn uppercase(s: Seq<char>) -> Seq<char>;

/// What `str::to_lowercase` gives for a text (Unicode lower case mapping).
pub uninterp spec fn lowercase(s: Seq<char>) -> Seq<char>;

/// The upper case of a text (`str::to_uppercase`); the contract names the
/// result `uppercase` of the text.
#[verifier::external_body]
pub fn to_uppercase(s: &str) -> (r: String)
    ensures
        r@ == uppercase(s@),
{
    s.to_uppercase()
}

/// The lower case of a text (`str::to_lowercase`); the contract names the
/// result `lowercase` of the text.
#[verifier::external_body]
pub fn to_lowercase(s: &str) -> (r: String)
    ensures
        r@ == lowercase(s@),
{
    s.to_lowercase()
}

} // verus!

verus! {

/// What `Debug` writes for a text: the text between double quotes, with
/// quotes, backslashes and unprintable characters escaped.
pub uninterp spec fn debug_text(s: Seq<char>) -> Seq<char>;

/// The `Debug` form of a text (`format!("{:?}", s)`); the contract names the
/// result `debug_text` of the text.
#[verifier::external_body]
pub fn debug_str(s: &str) -> (r: String)
    ensures
        r@ == debug_text(s@),
{
    format!("{:?}", s)
}

} // verus!
