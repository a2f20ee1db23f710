//! Regular expressions, through the `regex` crate.
use vstd::prelude::*;

verus! {

#[verifier::external_type_specification]
#[verifier::external_body]
pub struct ExRegex(regex::Regex);

/// Whether `regex::Regex::new` builds a regular expression from `pattern`.
pub uninterp spec fn regex_builds(pattern: Seq<char>) -> bool;

/// What `regex::Regex::captures` gives for the expression built from
/// `pattern` on `text`: the groups of the leftmost match, group 0 first, a
/// group that took no part in the match being `None`; `None` when nothing
/// matches.
pub uninterp spec fn regex_captures(pattern: Seq<char>, text: Seq<char>) -> Option<
    Seq<Option<Seq<char>>>,
>;

/// What `regex::Regex::captures_iter` gives for the expression built from
/// `pattern` on `text`: the groups of each successive non-overlapping match.
pub uninterp spec fn regex_captures_all(pattern: Seq<char>, text: Seq<char>) -> Seq<
    Seq<Option<Seq<char>>>,
>;

/// A compiled regular expression, with the pattern it was built from.
pub struct Pattern {
    source: String,
    regex: regex::Regex,
}

impl Pattern {
    /// The pattern the expression was built from.
    pub closed spec fn source(&self) -> Seq<char> {
        self.source@
    }
}

/// The texts of the groups of one match.
pub open spec fn groups_view(g: Seq<Option<String>>) -> Seq<Option<Seq<char>>> {
    g.map_values(|m: Option<String>| match m {
        Some(s) => Some(s@),
        None => None,
    })
}

/// The texts of the groups of each match.
pub open spec fn matches_view(v: Seq<Vec<Option<String>>>) -> Seq<Seq<Option<Seq<char>>>> {
    v.map_values(|g: Vec<Option<String>>| groups_view(g@))
}

/// Builds the expression of `pattern` with `regex::Regex::new`, `None` where
/// it fails (the error's description is dropped); the contract claims only
/// that success is `regex_builds` of the pattern and that the result remembers
/// the pattern.
#[verifier::external_body]
pub fn compile(pattern: &str) -> (r: Option<Pattern>)
    ensures
        r is Some <==> regex_builds(pattern@),
        r matches Some(p) ==> p.source() == pattern@,
{
    match regex::Regex::new(pattern) {
        Ok(regex) => Some(Pattern { source: pattern.to_string(), regex }),
        Err(_) => None,
    }
}

/// The groups of the leftmost match of `p` in `text` (`regex::Regex::captures`,
/// each group's matched text copied); the contract names the result
/// `regex_captures` of the pattern and the text.
#[verifier::external_body]
pub fn captures(p: &Pattern, text: &str) -> (r: Option<Vec<Option<String>>>)
    ensures
        match r {
            Some(g) => regex_captures(p.source(), text@) == Some(groups_view(g@)),
            None => regex_captures(p.source(), text@) is None,
        },
{
    p.regex.captures(text).map(|c| c.iter().map(|m| m.map(|m| m.as_str().to_string())).collect())
}

/// The groups of each successive match of `p` in `text`
/// (`regex::Regex::captures_iter`, each group's matched text copied); the
/// contract names the result `regex_captures_all` of the pattern and the text.
#[verifier::external_body]
pub fn captures_all(p: &Pattern, text: &str) -> (r: Vec<Vec<Option<String>>>)
    ensures
        matches_view(r@) == regex_captures_all(p.source(), text@),
{
    p.regex.captures_iter(text).map(
        |c| c.iter().map(|m| m.map(|m| m.as_str().to_string())).collect(),
    ).collect()
}

} // verus!
