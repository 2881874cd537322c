use vstd::prelude::*;

verus! {

/// A compiled expression of `regex`; nothing of its inside is seen here.
#[verifier::external_type_specification]
#[verifier::external_body]
pub struct ExRegex(regex::Regex);

/// The error of `regex`; nothing of its inside is seen here.
#[verifier::external_type_specification]
#[verifier::external_body]
pub struct ExRegexError(regex::Error);

/// Whether `regex::Regex::new` accepts a pattern text.
pub uninterp spec fn pattern_accepted(pattern: Seq<char>) -> bool;

/// The pattern text that a compiled expression was built from, which
/// `regex::Regex::as_str` reports.
pub uninterp spec fn pattern_source(re: regex::Regex) -> Seq<char>;

/// What `regex::Regex::captures` finds for a pattern in a haystack: `None`
/// where the pattern matches nowhere; else, for the leftmost match, the
/// text of each group in the order of the opening parentheses, the whole
/// match first, with `None` for a group that took no part.
pub uninterp spec fn pattern_captures(pattern: Seq<char>, haystack: Seq<char>) -> Option<
    Seq<Option<Seq<char>>>,
>;

/// `regex::Regex::new` compiles a pattern text. Whether it succeeds depends
/// on the text alone, and the expression it gives remembers that text.
pub assume_specification[ regex::Regex::new ](re: &str) -> (r: Result<regex::Regex, regex::Error>)
    ensures
        r is Ok <==> pattern_accepted(re@),
        r matches Ok(compiled) ==> pattern_source(compiled) == re@,
;

/// `regex::Regex::captures` searches the haystack for the leftmost match of
/// the expression; `Captures::iter` then hands out its groups, each copied
/// here into a string of its own. The result depends on the pattern text and
/// the haystack alone.
#[verifier::external_body]
pub(crate) fn captures(re: &regex::Regex, haystack: &str) -> (r: Option<Vec<Option<String>>>)
    ensures
        r.deep_view() == pattern_captures(pattern_source(*re), haystack@),
{
    re.captures(haystack).map(|c| c.iter().map(|m| m.map(|g| g.as_str().to_string())).collect())
}

} // verus!
