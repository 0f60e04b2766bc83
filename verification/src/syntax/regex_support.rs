//! The calls into the `regex` crate that the lexer relies on. Nothing in this
//! file is proved: each contract says what the crate documents.

use vstd::prelude::*;
use vstd::string::StringSliceAdditionalSpecFns;
use vstd::utf8::is_char_boundary;

verus! {

/// `regex::Regex`, a compiled regular expression.
#[verifier::external_type_specification]
#[verifier::external_body]
pub struct ExRegex(regex::Regex);

/// `regex::Error`, the reason a pattern did not compile.
#[verifier::external_type_specification]
#[verifier::external_body]
pub struct ExRegexError(regex::Error);

/// The pattern of a compiled expression, which decides what it matches.
pub uninterp spec fn regex_pattern(re: regex::Regex) -> Seq<char>;

/// The byte offset at which the leftmost match of `pattern` in `haystack`
/// ends, or `None` where the pattern matches nowhere in it.
pub uninterp spec fn regex_match_end(pattern: Seq<char>, haystack: Seq<char>) -> Option<usize>;

/// `regex::Regex::new`: compiles `pattern`. Whether a pattern compiles is
/// left to the crate; an expression that did compile has that pattern.
#[verifier::external_body]
pub(crate) fn compile(pattern: &str) -> (res: Result<regex::Regex, regex::Error>)
    ensures
        res matches Ok(re) ==> regex_pattern(re) == pattern@,
{
    regex::Regex::new(pattern)
}

/// `regex::Regex::find` followed by `regex::Match::end`: where the leftmost
/// match ends. The crate documents that this offset lies on a character
/// boundary of the haystack, so that the haystack may be split there.
#[verifier::external_body]
pub(crate) fn find_end(re: &regex::Regex, haystack: &str) -> (end: Option<usize>)
    ensures
        end == regex_match_end(regex_pattern(*re), haystack@),
        end matches Some(e) ==> is_char_boundary(haystack.spec_bytes(), e as int),
{
    match re.find(haystack) {
        Some(m) => Some(m.end()),
        None => None,
    }
}

} // verus!
