//! The trusted interface to the `regex` crate: pattern compilation, the match
//! test, and highlight substitution.
//!
//! Matching and substitution are functions of the pattern and the input texts
//! alone, so their results are named rather than written out.

use vstd::prelude::*;

verus! {

#[verifier::external_type_specification]
#[verifier::external_body]
pub struct ExRegex(regex::Regex);

/// Whether a pattern text compiles; `regex::Regex::new` succeeds or fails on
/// the pattern text alone.
pub uninterp spec fn pattern_ok(p: Seq<char>) -> bool;

/// The pattern text a compiled `regex::Regex` was built from.
pub uninterp spec fn regex_pattern(re: regex::Regex) -> Seq<char>;

/// Whether the pattern matches anywhere in the text.
pub uninterp spec fn pattern_matches(p: Seq<char>, text: Seq<char>) -> bool;

/// The text with every non-overlapping match of the pattern replaced by the
/// replacement text (with its capture-group references expanded).
pub uninterp spec fn pattern_replace_all(p: Seq<char>, text: Seq<char>, rep: Seq<char>) -> Seq<
    char,
>;

/// Relies on `regex::Regex::new`: compiles the pattern text, failing exactly
/// on texts that are not valid pattern syntax.
#[verifier::external_body]
pub(crate) fn regex_new(pattern: &str) -> (r: Option<regex::Regex>)
    ensures
        r is Some <==> pattern_ok(pattern@),
        r matches Some(re) ==> regex_pattern(re) == pattern@,
{
    regex::Regex::new(pattern).ok()
}

/// Relies on `regex::Regex::is_match`: true exactly when the compiled
/// pattern matches somewhere in the haystack.
#[verifier::external_body]
pub(crate) fn regex_is_match(re: &regex::Regex, haystack: &str) -> (r: bool)
    ensures
        r == pattern_matches(regex_pattern(*re), haystack@),
{
    re.is_match(haystack)
}

/// Relies on `regex::Regex::replace_all`: replaces every non-overlapping
/// match in the haystack with the replacement, expanding `$`-references.
#[verifier::external_body]
pub(crate) fn regex_replace_all(re: &regex::Regex, haystack: &str, rep: &str) -> (r: String)
    ensures
        r@ == pattern_replace_all(regex_pattern(*re), haystack@, rep@),
{
    re.replace_all(haystack, rep).into_owned()
}

} // verus!
