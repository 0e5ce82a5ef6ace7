use vstd::prelude::*;

verus! {

/// Whether `regex::Regex::new` accepts `pattern`: it refuses a pattern that is not valid
/// syntax, or whose compiled form exceeds the crate's default size limit.
pub uninterp spec fn regex_compiles(pattern: Seq<char>) -> bool;

/// Whether the regular expression compiled from `pattern` finds a match anywhere in
/// `haystack` (`regex::Regex::is_match`: an unanchored search).
pub uninterp spec fn regex_finds(pattern: Seq<char>, haystack: Seq<char>) -> bool;

/// Compiles `pattern` with `regex::Regex::new` and, where that succeeds, searches `haystack`
/// with `regex::Regex::is_match`. Trusted: `None` exactly when the crate refuses the pattern,
/// otherwise the crate's answer, of which nothing is stated beyond its name `regex_finds`.
#[verifier::external_body]
pub(crate) fn pattern_matches(pattern: &str, haystack: &str) -> (r: Option<bool>)
    ensures
        r is Some <==> regex_compiles(pattern@),
        r matches Some(b) ==> b == regex_finds(pattern@, haystack@),
{
    match regex::Regex::new(pattern) {
        Ok(re) => Some(re.is_match(haystack)),
        Err(_) => None,
    }
}

} // verus!
