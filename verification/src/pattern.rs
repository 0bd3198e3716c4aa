//! Regular expressions, as the `regex` crate compiles and runs them.

use vstd::prelude::*;
use crate::value::Value;

verus! {

/// `regex::Error`: why a pattern did not compile.
#[verifier::external_type_specification]
#[verifier::external_body]
pub struct ExRegexError(regex::Error);

/// Whether the regex library compiles the pattern, with the options and
/// limits that it has by default.
pub uninterp spec fn pattern_compiles(pattern: Seq<char>) -> bool;

/// Whether the pattern, compiled with the default options, matches somewhere
/// in the text.
pub uninterp spec fn pattern_finds(pattern: Seq<char>, text: Seq<char>) -> bool;

/// `regex::Regex::new`, and on its result `regex::Regex::is_match`: compiles
/// the pattern, or says why it cannot, and tells whether there is a match
/// anywhere in the text. The contract names the set of patterns that compile
/// and, for those, the answer by the pattern and the text.
#[verifier::external_body]
fn search(pattern: &str, text: &str) -> (r: Result<bool, regex::Error>)
    ensures
        r is Ok <==> pattern_compiles(pattern@),
        r matches Ok(found) ==> found == pattern_finds(pattern@, text@),
{
    match regex::Regex::new(pattern) {
        Ok(re) => Ok(re.is_match(text)),
        Err(e) => Err(e),
    }
}

/// The `Display` text of a `regex::Error`. Nothing is claimed of it.
#[verifier::external_body]
pub(crate) fn pattern_error_text(err: &regex::Error) -> (r: String)
{
    format!("{}", err)
}

/// What `valid_regex` answers where the pattern compiles: only a text can
/// match, and it matches where the pattern is found in it.
pub open spec fn matches_pattern(value: crate::value::ValueView, pattern: Seq<char>) -> bool {
    value matches crate::value::ValueView::Str(text) && pattern_finds(pattern, text)
}

/// Tells whether a value is a text that the pattern matches somewhere. The
/// pattern is compiled only for a text: any other value does not match,
/// whatever the pattern is.
pub fn valid_regex(value: &Value, pattern: &str) -> (r: Result<bool, regex::Error>)
    ensures
        r is Err <==> value@ is Str && !pattern_compiles(pattern@),
        r matches Ok(found) ==> found == matches_pattern(value@, pattern@),
{
    match value {
        Value::String(text) => search(pattern, text.as_str()),
        _ => Ok(false),
    }
}

} // verus!
