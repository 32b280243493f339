//! Unicode-aware character and string classification from the standard
//! library, used where names and keywords are compared case-insensitively.
//!
//! The full Unicode case and class tables are not restated here: each
//! result has a name, and only the ASCII behaviour is written out.
use vstd::prelude::*;

verus! {

/// Whether every character is ASCII.
pub open spec fn all_ascii(s: Seq<char>) -> bool {
    forall|i: int| 0 <= i < s.len() ==> (#[trigger] s[i]) as int <= 127
}

/// ASCII lowercase of one character.
pub open spec fn ascii_lower_char(c: char) -> char {
    if 65 <= c as int && c as int <= 90 {
        ((c as int) + 32) as char
    } else {
        c
    }
}

/// ASCII lowercase of a string.
pub open spec fn ascii_lower(s: Seq<char>) -> Seq<char> {
    s.map_values(|c: char| ascii_lower_char(c))
}

/// Whether an ASCII character is a letter or a digit.
pub open spec fn ascii_alnum(c: char) -> bool {
    (48 <= c as int && c as int <= 57) || (65 <= c as int && c as int <= 90) || (97 <= c as int
        && c as int <= 122)
}

/// What `str::to_lowercase` returns for a string.
pub uninterp spec fn lowercase(s: Seq<char>) -> Seq<char>;

/// What `char::is_alphanumeric` returns for a character.
pub uninterp spec fn alphanumeric(c: char) -> bool;

/// `str::to_lowercase`: the Unicode lowercase mapping of `s`. On an ASCII
/// string it maps `A`..`Z` to `a`..`z` and leaves every other character.
#[verifier::external_body]
pub(crate) fn to_lowercase(s: &str) -> (r: String)
    ensures
        r@ == lowercase(s@),
        all_ascii(s@) ==> r@ == ascii_lower(s@),
{
    s.to_lowercase()
}

/// `char::is_alphanumeric`: whether `c` is alphabetic or numeric in
/// Unicode. For an ASCII character that is exactly the ASCII letters and
/// digits.
#[verifier::external_body]
pub(crate) fn is_alphanumeric(c: char) -> (r: bool)
    ensures
        r == alphanumeric(c),
        c as int <= 127 ==> (r <==> ascii_alnum(c)),
{
    c.is_alphanumeric()
}

} // verus!
