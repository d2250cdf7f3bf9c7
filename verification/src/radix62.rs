//! Radix-62 transcoding between byte blobs and printable strings.
//!
//! A blob is read as one big unsigned big-endian integer and written in
//! base 62 over the alphabet `0-9A-Za-z`, most significant digit first;
//! leading zero bytes survive as leading `0` symbols.  The conversion
//! itself is done by the `base_x` crate behind trusted wrappers.

use vstd::prelude::*;
use crate::BrankaError;

verus! {

/// True of the 62 characters `0-9`, `A-Z`, `a-z` that may appear in a token.
pub open spec fn is_b62_char(c: char) -> bool {
    ('0' <= c && c <= '9') || ('A' <= c && c <= 'Z') || ('a' <= c && c <= 'z')
}

/// The radix-62 text form of a byte sequence.
pub uninterp spec fn base62_of(b: Seq<u8>) -> Seq<char>;

/// The byte sequence a radix-62 text decodes to, when all of its
/// characters lie in the alphabet.
pub uninterp spec fn base62_val(s: Seq<char>) -> Seq<u8>;

/// Relies on base_x::encode with the 62-symbol alphabet: the output is a
/// deterministic function of the input bytes, is drawn from the alphabet
/// alone, and base_x::decode maps it back to the input.
#[verifier::external_body]
fn b62_encode(data: &[u8]) -> (r: String)
    ensures
        r@ == base62_of(data@) && base62_val(r@) == data@ && (forall|i: int|
            0 <= i < r@.len() ==> is_b62_char(#[trigger] r@[i])),
{
    base_x::encode("0123456789ABCDEFGHIJKLMNOPQRSTUVWXYZabcdefghijklmnopqrstuvwxyz", data)
}

/// Relies on base_x::decode with the 62-symbol alphabet: it fails exactly
/// when a character outside the alphabet occurs, and is a deterministic
/// function of the input text.
#[verifier::external_body]
fn b62_decode(data: &str) -> (r: Option<Vec<u8>>)
    ensures
        r matches Some(v) ==> v@ == base62_val(data@) && (forall|i: int|
            0 <= i < data@.len() ==> is_b62_char(#[trigger] data@[i])),
        r is None ==> exists|i: int| 0 <= i < data@.len() && !is_b62_char(#[trigger] data@[i]),
{
    match base_x::decode("0123456789ABCDEFGHIJKLMNOPQRSTUVWXYZabcdefghijklmnopqrstuvwxyz", data) {
        Ok(v) => Some(v),
        Err(_) => None,
    }
}

/// Write a byte blob as a printable radix-62 string.
pub fn radix62_encode(data: &[u8]) -> (r: String)
    ensures
        r@ == base62_of(data@),
        base62_val(r@) == data@,
        forall|i: int| 0 <= i < r@.len() ==> is_b62_char(#[trigger] r@[i]),
{
    b62_encode(data)
}

/// Read a radix-62 string back into the byte blob it denotes.
///
/// Fails with `InvalidBase62` exactly when the string holds a character
/// outside the alphabet; on the image of `radix62_encode` it returns the
/// encoded bytes, since that image carries `base62_val` back to them.
pub fn radix62_decode(data: &str) -> (r: Result<Vec<u8>, BrankaError>)
    ensures
        r is Err <==> exists|i: int| 0 <= i < data@.len() && !is_b62_char(#[trigger] data@[i]),
        r is Err ==> r->Err_0 == BrankaError::InvalidBase62,
        r is Ok ==> r->Ok_0@ == base62_val(data@),
{
    match b62_decode(data) {
        Some(v) => Ok(v),
        None => Err(BrankaError::InvalidBase62),
    }
}

} // verus!
