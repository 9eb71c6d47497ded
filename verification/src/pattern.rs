//! Regular-expression matching, delegated to the `regex` crate.
//!
//! The library reads what a match captured, never how the match was found:
//! `regex_captures` names the outcome of a search, and the verified callers
//! state their results in terms of it.

use vstd::prelude::*;

verus! {

#[verifier::external_type_specification]
#[verifier::external_body]
pub struct ExRegex(regex::Regex);

/// Whether `regex::Regex::new` accepts `pattern`.
pub uninterp spec fn regex_accepts(pattern: Seq<char>) -> bool;

/// The capture groups of the first match of `pattern` in `haystack`, as
/// `regex::Regex::captures` reports them: `None` when nothing matches, else
/// one entry per group (group 0 being the whole match), each the captured
/// text or `None` for a group that took no part in the match.
pub uninterp spec fn regex_captures(pattern: Seq<char>, haystack: Seq<char>) -> Option<
    Seq<Option<Seq<char>>>,
>;

/// A compiled regular expression together with the text it was compiled
/// from.
pub struct Pattern {
    regex: regex::Regex,
    source: String,
}

impl Pattern {
    /// The text this pattern was compiled from.
    pub closed spec fn source(&self) -> Seq<char> {
        self.source@
    }

    /// Compiles `source` with `regex::Regex::new`.
    ///
    /// Trusted: `Regex::new` succeeds exactly when it accepts the pattern
    /// (`regex_accepts`, a name for that outcome), and the returned pattern
    /// remembers `source`.
    #[verifier::external_body]
    pub(crate) fn compile(source: &str) -> (r: Option<Pattern>)
        ensures
            r is Some <==> regex_accepts(source@),
            r matches Some(p) ==> p.source() == source@,
    {
        match regex::Regex::new(source) {
            Ok(regex) => Some(Pattern { regex, source: source.to_string() }),
            Err(_) => None,
        }
    }

    /// The capture groups of the first match in `haystack`, from
    /// `regex::Regex::captures` and `Captures::iter`.
    ///
    /// Trusted: the groups are those that `regex_captures` names for this
    /// pattern's source and `haystack`, and, as the crate documents, group 0
    /// is present in every match.
    #[verifier::external_body]
    pub(crate) fn captures(&self, haystack: &str) -> (r: Option<Vec<Option<String>>>)
        ensures
            r.deep_view() == regex_captures(self.source(), haystack@),
            r matches Some(groups) ==> groups@.len() >= 1 && groups@[0] is Some,
    {
        match self.regex.captures(haystack) {
            Some(caps) => Some(caps.iter().map(|m| m.map(|m| m.as_str().to_string())).collect()),
            None => None,
        }
    }
}

/// The text of capture group `i`, when the search matched and that group
/// took part.
pub open spec fn group(caps: Option<Seq<Option<Seq<char>>>>, i: int) -> Option<Seq<char>> {
    match caps {
        Some(g) => if 0 <= i < g.len() { g[i] } else { None },
        None => None,
    }
}

/// Takes capture group `i` out of a search result.
pub fn take_group(caps: &Option<Vec<Option<String>>>, i: usize) -> (r: Option<&String>)
    ensures
        r.deep_view() == group(caps.deep_view(), i as int),
{
    match caps {
        Some(groups) => {
            if i < groups.len() {
                match &groups[i] {
                    Some(s) => Some(s),
                    None => None,
                }
            } else {
                None
            }
        },
        None => None,
    }
}

} // verus!
