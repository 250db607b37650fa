//! Small text utilities: verified string equality, and trusted views of the
//! Unicode case predicates and case folding from std that the domain rules
//! are written against.

use vstd::prelude::*;

verus! {

/// What `str::to_lowercase` returns for a given sequence of characters. The
/// full mapping follows the Unicode tables, so it is left uninterpreted; the
/// wrapper below states the facts callers rely on.
pub uninterp spec fn lower_of(s: Seq<char>) -> Seq<char>;

/// Whether `char::is_lowercase` holds of the character (the Unicode
/// `Lowercase` property).
pub uninterp spec fn lowercase_char(c: char) -> bool;

/// Whether `char::is_uppercase` holds of the character (the Unicode
/// `Uppercase` property).
pub uninterp spec fn uppercase_char(c: char) -> bool;

/// An ASCII character that lowercasing leaves in place: anything ASCII that
/// is not an uppercase letter.
pub open spec fn ascii_not_upper(c: char) -> bool {
    (c as int) < 128 && !('A' <= c && c <= 'Z')
}

/// Relies on `str::to_lowercase`: the result depends on the characters
/// alone, and characters with no uppercase form are left unchanged, so a
/// string of ASCII characters without uppercase letters comes back as it is.
#[verifier::external_body]
pub fn lowercase(s: &str) -> (r: String)
    ensures
        r@ == lower_of(s@),
        (forall|i: int| 0 <= i < s@.len() ==> ascii_not_upper(#[trigger] s@[i])) ==> r@ == s@,
{
    s.to_lowercase()
}

/// Relies on `char::is_lowercase`: a property of the character alone;
/// ASCII `a`-`z` are lowercase, while ASCII uppercase letters and digits
/// are not.
#[verifier::external_body]
pub fn char_is_lowercase(c: char) -> (r: bool)
    ensures
        r == lowercase_char(c),
        'a' <= c && c <= 'z' ==> r,
        ('A' <= c && c <= 'Z') || ('0' <= c && c <= '9') ==> !r,
{
    c.is_lowercase()
}

/// Relies on `char::is_uppercase`: a property of the character alone;
/// ASCII `A`-`Z` are uppercase, while ASCII lowercase letters and digits
/// are not.
#[verifier::external_body]
pub fn char_is_uppercase(c: char) -> (r: bool)
    ensures
        r == uppercase_char(c),
        'A' <= c && c <= 'Z' ==> r,
        ('a' <= c && c <= 'z') || ('0' <= c && c <= '9') ==> !r,
{
    c.is_uppercase()
}

/// String equality on views, built from vstd's specifications of
/// `str::to_owned` and `String` equality.
pub fn str_eq(a: &str, b: &str) -> (r: bool)
    ensures
        r == (a@ == b@),
{
    let sa: String = a.to_owned();
    let sb: String = b.to_owned();
    sa == sb
}

} // verus!
