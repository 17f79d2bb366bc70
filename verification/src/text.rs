//! Lower-casing of environment variable names.

use vstd::prelude::*;

verus! {

/// The lower-case mapping of `s` as Unicode defines it, which is what
/// `str::to_lowercase` returns for a string whose characters are `s`.
pub uninterp spec fn lowercase(s: Seq<char>) -> Seq<char>;

/// Whether every character of `s` is ASCII.
pub open spec fn is_ascii_text(s: Seq<char>) -> bool {
    forall|i: int| 0 <= i < s.len() ==> (s[i] as u32) < 128
}

/// The ASCII lower-case of one character: `A`..=`Z` become `a`..=`z`, every
/// other character stays.
pub open spec fn ascii_lower_char(c: char) -> char {
    if 'A' <= c && c <= 'Z' {
        ((c as u32) + 32) as char
    } else {
        c
    }
}

/// The ASCII lower-case of every character of `s`.
pub open spec fn ascii_lowercase(s: Seq<char>) -> Seq<char> {
    s.map_values(|c: char| ascii_lower_char(c))
}

/// Calls `str::to_lowercase`. Its result is a function of the characters of
/// `s` alone (the Unicode lower-case mapping, with no locale), so it is named
/// by `lowercase`. Of that mapping only the ASCII case is stated: on a string
/// of ASCII characters it lower-cases `A`..=`Z` one for one and keeps every
/// other character, as the Unicode mapping does for ASCII. What it does to
/// other characters (which may map to several, or depend on their
/// neighbours, such as a final sigma) is left unsaid.
#[verifier::external_body]
pub(crate) fn to_lowercase(s: &str) -> (r: String)
    ensures
        r@ == lowercase(s@),
        is_ascii_text(s@) ==> r@ == ascii_lowercase(s@),
{
    s.to_lowercase()
}

} // verus!
