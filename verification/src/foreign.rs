//! The calls into code outside this crate that the logic makes: the case
//! conversions of `heck`, `str::to_lowercase`, and `syn`'s type parser.
//!
//! The case conversions are not restated here: each is given a name, and the
//! trusted wrapper that makes the call says that its result is that name
//! applied to its argument. The type parser's outcome depends on which lexer
//! `proc-macro2` uses in the running process, so nothing is claimed of it.

use vstd::prelude::*;

verus! {

/// What `heck::ToPascalCase::to_pascal_case` returns for the characters `s`.
pub uninterp spec fn pascal_case(s: Seq<char>) -> Seq<char>;

/// What `heck::ToLowerCamelCase::to_lower_camel_case` returns for the characters `s`.
pub uninterp spec fn lower_camel_case(s: Seq<char>) -> Seq<char>;

/// What `str::to_lowercase` returns for the characters `s`.
pub uninterp spec fn lowercase(s: Seq<char>) -> Seq<char>;

#[verifier::external_type_specification]
#[verifier::external_body]
pub struct ExSynType(syn::Type);

/// Whether `c` is an ASCII character other than a letter or a digit.
pub open spec fn is_ascii_non_alphanumeric(c: char) -> bool {
    (c as u32) < 128 && !((c as u32) >= 48 && (c as u32) <= 57) && !((c as u32) >= 65 && (c
        as u32) <= 90) && !((c as u32) >= 97 && (c as u32) <= 122)
}

/// Whether no character of `s` is ASCII punctuation, whitespace or a control character.
pub open spec fn free_of_ascii_separators(s: Seq<char>) -> bool {
    forall|i: int| 0 <= i < s.len() ==> !is_ascii_non_alphanumeric(#[trigger] s[i])
}

/// The ASCII lowercase of `c`: `A`..`Z` become `a`..`z`, everything else stays.
pub open spec fn ascii_lower(c: char) -> char {
    if (c as u32) >= 65 && (c as u32) <= 90 {
        ((c as u32) + 32) as char
    } else {
        c
    }
}

/// `s` with `A`..`Z` mapped to `a`..`z` and every other character kept.
pub open spec fn ascii_lowercase(s: Seq<char>) -> Seq<char> {
    s.map_values(|c: char| ascii_lower(c))
}

/// Calls `heck::ToPascalCase::to_pascal_case` (an alias of heck's upper camel
/// case: words split at non-alphanumerics and case changes, each capitalised).
/// Trusted: the result is claimed to be `pascal_case` of the argument; empty
/// for the empty string (the single empty word writes nothing); and free of
/// ASCII characters other than letters and digits, since heck writes only the
/// upper- and lowercase mappings of the alphanumeric characters of its words,
/// and no Unicode case mapping of an alphanumeric character yields ASCII
/// punctuation, whitespace or a control character.
#[verifier::external_body]
pub(crate) fn to_pascal_case(s: &str) -> (r: String)
    ensures
        r@ == pascal_case(s@),
        s@.len() == 0 ==> r@.len() == 0,
        free_of_ascii_separators(r@),
{
    heck::ToPascalCase::to_pascal_case(s)
}

/// Calls `heck::ToLowerCamelCase::to_lower_camel_case` (first word lowercased,
/// the rest capitalised, no separators).
/// Trusted: the result is claimed to be `lower_camel_case` of the argument, nothing more.
#[verifier::external_body]
pub(crate) fn to_lower_camel_case(s: &str) -> (r: String)
    ensures
        r@ == lower_camel_case(s@),
{
    heck::ToLowerCamelCase::to_lower_camel_case(s)
}

/// Calls `str::to_lowercase` (Unicode lowercase mapping of every character).
/// Trusted: the result is claimed to be `lowercase` of the argument and, for
/// an all-ASCII argument, the argument with `A`..`Z` mapped to `a`..`z`
/// character by character (the Unicode lowercase mapping of ASCII).
#[verifier::external_body]
pub(crate) fn to_lowercase(s: &str) -> (r: String)
    ensures
        r@ == lowercase(s@),
        vstd::utf8::is_ascii_chars(s@) ==> r@ == ascii_lowercase(s@),
{
    s.to_lowercase()
}

/// Calls `syn::parse_str::<syn::Type>`, turning its error into the error's message.
/// Nothing is claimed of the outcome: `proc-macro2` lexes with the compiler's
/// lexer inside a procedural macro and with its own elsewhere, and the two
/// disagree on some texts, so one text need not give one outcome.
#[verifier::external_body]
pub(crate) fn parse_type(s: &str) -> (r: Result<syn::Type, String>) {
    match syn::parse_str::<syn::Type>(s) {
        Ok(t) => Ok(t),
        Err(e) => Err(e.to_string()),
    }
}

} // verus!
