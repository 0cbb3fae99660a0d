//! Regular expressions, matched by the `regex` crate. What a match returns is
//! not described here: each call has a name, and the contracts of the parsers
//! speak of the match through that name.

use vstd::prelude::*;

verus! {

/// The text of one capture group, where the group took part in the match.
pub open spec fn group_text(g: Option<String>) -> Option<Seq<char>> {
    match g {
        Some(s) => Some(s@),
        None => None,
    }
}

/// The groups of one match: the whole match first, then each capture group.
pub open spec fn groups_of(c: Vec<Option<String>>) -> Seq<Option<Seq<char>>> {
    c@.map_values(|g: Option<String>| group_text(g))
}

/// The matches of a text, each with its groups.
pub open spec fn matches_of(v: Vec<Vec<Option<String>>>) -> Seq<Seq<Option<Seq<char>>>> {
    v@.map_values(|c: Vec<Option<String>>| groups_of(c))
}

/// The groups of the leftmost match of `pattern` in `text`, as
/// `regex::Regex::captures` finds it; `None` where the pattern does not
/// compile or nothing matches.
pub uninterp spec fn first_match(pattern: Seq<char>, text: Seq<char>) -> Option<
    Seq<Option<Seq<char>>>,
>;

/// The successive matches of `pattern` in `text` that do not overlap, each
/// with its groups, as `regex::Regex::captures_iter` yields them; `None`
/// where the pattern does not compile.
pub uninterp spec fn all_matches(pattern: Seq<char>, text: Seq<char>) -> Option<
    Seq<Seq<Option<Seq<char>>>>,
>;

/// Compiles the pattern with `regex::Regex::new` and applies
/// `regex::Regex::captures` to the text. The contract claims only that the
/// groups handed back are those that `first_match` names for the same pattern
/// and text; a group that did not take part in the match is `None`.
#[verifier::external_body]
pub(crate) fn captures(pattern: &str, text: &str) -> (r: Option<Vec<Option<String>>>)
    ensures
        match r {
            Some(c) => first_match(pattern@, text@) == Some(groups_of(c)),
            None => first_match(pattern@, text@) is None,
        },
{
    let re = regex::Regex::new(pattern).ok()?;
    let caps = re.captures(text)?;
    Some(caps.iter().map(|g| g.map(|m| m.as_str().to_owned())).collect())
}

/// Compiles the pattern with `regex::Regex::new` and walks the text with
/// `regex::Regex::captures_iter`. The contract claims only that the matches
/// handed back are those that `all_matches` names for the same pattern and
/// text, in the same order.
#[verifier::external_body]
pub(crate) fn captures_iter(pattern: &str, text: &str) -> (r: Option<Vec<Vec<Option<String>>>>)
    ensures
        match r {
            Some(v) => all_matches(pattern@, text@) == Some(matches_of(v)),
            None => all_matches(pattern@, text@) is None,
        },
{
    let re = regex::Regex::new(pattern).ok()?;
    Some(
        re.captures_iter(text).map(
            |caps| caps.iter().map(|g| g.map(|m| m.as_str().to_owned())).collect(),
        ).collect(),
    )
}

/// The text of group `i` of a match, where the match has such a group and it
/// took part.
pub open spec fn group_at(groups: Seq<Option<Seq<char>>>, i: int) -> Option<Seq<char>> {
    if 0 <= i < groups.len() {
        groups[i]
    } else {
        None
    }
}

/// The characters of group `i` of a match.
pub fn group(groups: &Vec<Option<String>>, i: usize) -> (r: Option<Vec<char>>)
    ensures
        match r {
            Some(t) => group_at(groups_of(*groups), i as int) == Some(t@),
            None => group_at(groups_of(*groups), i as int) is None,
        },
{
    if i < groups.len() {
        match &groups[i] {
            Some(s) => Some(crate::text::chars_of(s.as_str())),
            None => None,
        }
    } else {
        None
    }
}

} // verus!
