//! Regular expressions from the `regex` crate, for parameter patterns.
//!
//! The matching semantics are not restated here: whether a pattern
//! compiles and whether it matches a text each have a name.
use vstd::prelude::*;

verus! {

#[verifier::external_type_specification]
#[verifier::external_body]
pub struct ExRegex(regex::Regex);

/// Whether `regex::Regex::new` accepts the pattern.
pub uninterp spec fn regex_compiles(pattern: Seq<char>) -> bool;

/// Whether the compiled pattern matches somewhere in the text.
pub uninterp spec fn regex_matches(pattern: Seq<char>, text: Seq<char>) -> bool;

/// A compiled regular expression together with its source pattern.
pub struct CompiledPattern {
    re: regex::Regex,
    source: Ghost<Seq<char>>,
}

impl CompiledPattern {
    /// The pattern it was compiled from.
    pub closed spec fn pattern(&self) -> Seq<char> {
        self.source@
    }
}

/// `regex::Regex::new`: compiles the pattern; gives nothing when the
/// crate refuses it (a syntax error or a size limit).
#[verifier::external_body]
pub(crate) fn compile_pattern(pattern: &str) -> (r: Option<CompiledPattern>)
    ensures
        r is Some <==> regex_compiles(pattern@),
        r matches Some(c) ==> c.pattern() == pattern@,
{
    match regex::Regex::new(pattern) {
        Ok(re) => Some(CompiledPattern { re, source: Ghost(pattern@) }),
        Err(_) => None,
    }
}

/// `regex::Regex::is_match`: whether the pattern matches somewhere in the
/// text.
#[verifier::external_body]
pub(crate) fn pattern_is_match(p: &CompiledPattern, text: &str) -> (r: bool)
    ensures
        r == regex_matches(p.pattern(), text@),
{
    p.re.is_match(text)
}

/// What checking `text` against `pattern` gives: nothing when the pattern
/// does not compile, else whether it matches.
pub open spec fn pattern_outcome(pattern: Seq<char>, text: Seq<char>) -> Option<bool> {
    if regex_compiles(pattern) {
        Some(regex_matches(pattern, text))
    } else {
        None
    }
}

/// Checks `text` against `pattern` (see `pattern_outcome`).
pub fn match_pattern(pattern: &str, text: &str) -> (r: Option<bool>)
    ensures
        r == pattern_outcome(pattern@, text@),
{
    match compile_pattern(pattern) {
        Some(c) => Some(pattern_is_match(&c, text)),
        None => None,
    }
}

} // verus!
