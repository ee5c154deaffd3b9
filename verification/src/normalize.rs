//! Alias canonicalization: surrounding whitespace is trimmed, then the
//! characters are lowercased. The same form is used on every write and on
//! every read, so lookups are insensitive to padding and to case.

use vstd::prelude::*;

verus! {

/// What `str::trim` returns for the given characters.
pub uninterp spec fn trim_of(s: Seq<char>) -> Seq<char>;

/// What `str::to_lowercase` returns for the given characters.
pub uninterp spec fn lower_of(s: Seq<char>) -> Seq<char>;

/// The canonical form of an alias: trimmed, then lowercased.
pub open spec fn normalized(s: Seq<char>) -> Seq<char> {
    lower_of(trim_of(s))
}

/// The length in bytes of the UTF-8 encoding of `s`.
pub open spec fn byte_len(s: Seq<char>) -> nat {
    vstd::utf8::encode_utf8(s).len()
}

/// Relies on `str::trim`: returns the slice with leading and trailing
/// whitespace removed; the result depends on the characters alone.
#[verifier::external_body]
fn trim_str(s: &str) -> (r: &str)
    ensures
        r@ == trim_of(s@),
{
    s.trim()
}

/// Relies on `str::to_lowercase`: the result depends on the characters
/// alone.
#[verifier::external_body]
fn lowercase_str(s: &str) -> (r: String)
    ensures
        r@ == lower_of(s@),
{
    s.to_lowercase()
}

/// Canonicalizes an alias.
pub fn normalize(s: &str) -> (r: String)
    ensures
        r@ == normalized(s@),
{
    lowercase_str(trim_str(s))
}

} // verus!
