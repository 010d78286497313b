//! Regular expressions, as the `regex` crate reads and runs them.
use vstd::prelude::*;

verus! {

/// Whether a regular expression matches somewhere in a text; `None` where
/// the expression itself is refused.
pub uninterp spec fn regex_match(pattern: Seq<char>, haystack: Seq<char>) -> Option<bool>;

/// `Regex::new` on the pattern and, where it gives a regex, `Regex::is_match`
/// on the haystack: the verdict of that regex, or `None` where the pattern
/// does not compile.
#[verifier::external_body]
fn regex_is_match(pattern: &str, haystack: &str) -> (verdict: Option<bool>)
    ensures
        verdict == regex_match(pattern@, haystack@),
{
    regex::Regex::new(pattern).ok().map(|re| re.is_match(haystack))
}

/// Whether `pattern` matches somewhere in `haystack`, or `None` where
/// `pattern` is no regular expression.
pub fn is_match(pattern: &str, haystack: &str) -> (verdict: Option<bool>)
    ensures
        verdict == regex_match(pattern@, haystack@),
{
    regex_is_match(pattern, haystack)
}

} // verus!
