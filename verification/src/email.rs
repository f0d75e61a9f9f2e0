//! The e-mail address check that guards the creation of an account, made with
//! the `regex` crate.

use vstd::prelude::*;

verus! {

#[verifier::external_type_specification]
#[verifier::external_body]
pub struct ExRegex(regex::Regex);

#[verifier::external_type_specification]
#[verifier::external_body]
pub struct ExRegexError(regex::Error);

/// Whether `regex::Regex::new` accepts `pattern`.
pub uninterp spec fn regex_compiles(pattern: Seq<char>) -> bool;

/// What `regex::Regex::is_match` answers for a regex compiled from `pattern`
/// and the haystack `haystack`.
pub uninterp spec fn regex_finds_match(pattern: Seq<char>, haystack: Seq<char>) -> bool;

/// The pattern that an account's e-mail address must match.
pub const EMAIL_PATTERN: &'static str = "^[a-zA-Z0-9._%+-]+@[a-zA-Z0-9.-]+\\.[a-zA-Z]{2,}$";

/// A compiled regular expression together with the pattern it came from.
/// Only `compile` builds one, so `source` is always the compiled pattern.
pub struct CompiledPattern {
    source: String,
    regex: regex::Regex,
}

impl CompiledPattern {
    /// The pattern this regex was compiled from.
    pub closed spec fn source(&self) -> Seq<char> {
        self.source@
    }
}

/// Compiles `pattern` with `regex::Regex::new`, keeping the pattern beside the
/// result. The contract claims that success depends on the pattern alone.
#[verifier::external_body]
fn compile(pattern: &str) -> (r: Result<CompiledPattern, regex::Error>)
    ensures
        r is Ok <==> regex_compiles(pattern@),
        r matches Ok(p) ==> p.source() == pattern@,
{
    match regex::Regex::new(pattern) {
        Ok(regex) => Ok(CompiledPattern { source: pattern.to_string(), regex }),
        Err(e) => Err(e),
    }
}

/// `regex::Regex::is_match`: whether the regex matches somewhere in
/// `haystack`. The contract claims that the answer depends on the pattern and
/// the haystack alone; what it is, is left to the regex engine.
#[verifier::external_body]
fn is_match(p: &CompiledPattern, haystack: &str) -> (r: bool)
    ensures
        r == regex_finds_match(p.source(), haystack@),
{
    p.regex.is_match(haystack)
}

/// Whether `email` has the shape of an e-mail address: `EMAIL_PATTERN`
/// matches it. A pattern that the engine refused would accept nothing.
pub fn is_valid_email(email: &str) -> (r: bool)
    ensures
        r == (regex_compiles(EMAIL_PATTERN@) && regex_finds_match(EMAIL_PATTERN@, email@)),
{
    match compile(EMAIL_PATTERN) {
        Ok(p) => is_match(&p, email),
        Err(_) => false,
    }
}

} // verus!
