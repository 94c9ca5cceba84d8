//! Text operations taken from the standard library: Unicode lowercasing for
//! job names and option keys, and lossy decoding of secret bytes.

use vstd::prelude::*;

verus! {

/// What `str::to_lowercase` returns for a given sequence of characters; the
/// result depends on the characters alone.
pub uninterp spec fn lower_of(s: Seq<char>) -> Seq<char>;

/// What `String::from_utf8_lossy` returns for a given sequence of bytes; the
/// result depends on the bytes alone.
pub uninterp spec fn lossy_utf8_of(b: Seq<u8>) -> Seq<char>;

/// Relies on str::to_lowercase: the lower-case equivalent of the string,
/// empty exactly when the input is empty.
#[verifier::external_body]
pub fn to_lowercase(s: &str) -> (r: String)
    ensures
        r@ == lower_of(s@),
        s@.len() == 0 ==> r@.len() == 0,
{
    s.to_lowercase()
}

/// Relies on String::from_utf8_lossy: the bytes decoded as UTF-8 with
/// invalid sequences replaced, empty exactly when the input is empty.
#[verifier::external_body]
pub fn from_utf8_lossy(b: &Vec<u8>) -> (r: String)
    ensures
        r@ == lossy_utf8_of(b@),
        b@.len() == 0 ==> r@.len() == 0,
{
    String::from_utf8_lossy(b.as_slice()).into_owned()
}

} // verus!
