//! The boundary to the external pattern-compilation engine.
//!
//! The builder never inspects pattern syntax itself; whether the assembled
//! text is a valid pattern is decided entirely by the engine, behind the
//! trusted items below.
use vstd::prelude::*;

verus! {

#[verifier::external_type_specification]
#[verifier::external_body]
pub struct ExRegex(regex::Regex);

#[verifier::external_type_specification]
#[verifier::external_body]
pub struct ExRegexError(regex::Error);

/// Whether the engine accepts `pattern` as valid pattern syntax.
pub uninterp spec fn pattern_compiles(pattern: Seq<char>) -> bool;

/// Relies on `regex::Regex::new`: compiles the pattern text, returning a
/// matcher on success and a structured error otherwise.  The outcome is
/// deterministic in the pattern text alone.
#[verifier::external_body]
pub(crate) fn regex_new(pattern: &str) -> (result: Result<regex::Regex, regex::Error>)
    ensures
        result is Ok <==> pattern_compiles(pattern@),
{
    regex::Regex::new(pattern)
}

} // verus!
