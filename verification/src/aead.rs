//! Authenticated encryption behind trusted wrappers.
//!
//! Sealing and opening are done by the `chacha20poly1305` crate's
//! XChaCha20-Poly1305 construction: a 32-byte key, a 24-byte nonce,
//! associated data that is authenticated but not encrypted, a ciphertext
//! of the plaintext's length, and a 16-byte tag.

use vstd::prelude::*;
use chacha20poly1305::aead::{AeadCore, AeadInPlace, KeyInit, OsRng};
use chacha20poly1305::{Key, Tag, XChaCha20Poly1305, XNonce};
use crate::MAX_PAYLOAD_LEN;

verus! {

/// The ciphertext that sealing produces; a deterministic function of
/// key, nonce, associated data and plaintext.
pub uninterp spec fn seal_ct(key: Seq<u8>, nonce: Seq<u8>, ad: Seq<u8>, pt: Seq<u8>) -> Seq<u8>;

/// The authentication tag that sealing produces; a deterministic
/// function of key, nonce, associated data and plaintext.
pub uninterp spec fn seal_tag(key: Seq<u8>, nonce: Seq<u8>, ad: Seq<u8>, pt: Seq<u8>) -> Seq<u8>;

/// What opening returns: the recovered plaintext, or nothing when the
/// tag does not authenticate the given data under the given key.
pub uninterp spec fn open_pt(
    key: Seq<u8>,
    nonce: Seq<u8>,
    ad: Seq<u8>,
    ct: Seq<u8>,
    tag: Seq<u8>,
) -> Option<Seq<u8>>;

/// Relies on XChaCha20Poly1305::new and encrypt_in_place_detached: the
/// ciphertext keeps the plaintext's length, the tag has 16 bytes, both
/// are deterministic in the arguments, and decrypt_in_place_detached
/// recovers the plaintext from them.
#[verifier::external_body]
pub(crate) fn xchacha_seal(key: &[u8], nonce: &[u8], ad: &[u8], pt: &[u8]) -> (r: (Vec<u8>, Vec<u8>))
    requires
        key@.len() == 32,
        nonce@.len() == 24,
        pt@.len() <= MAX_PAYLOAD_LEN,
    ensures
        r.0@ == seal_ct(key@, nonce@, ad@, pt@),
        r.0@.len() == pt@.len(),
        r.1@ == seal_tag(key@, nonce@, ad@, pt@),
        r.1@.len() == 16,
        r.0@.len() == pt@.len() && open_pt(key@, nonce@, ad@, r.0@, r.1@) == Some(pt@),
{
    let cipher = XChaCha20Poly1305::new(Key::from_slice(key));
    let mut buf = pt.to_vec();
    let tag = cipher.encrypt_in_place_detached(XNonce::from_slice(nonce), ad, &mut buf).unwrap();
    (buf, tag.to_vec())
}

/// Relies on XChaCha20Poly1305::new and decrypt_in_place_detached: the
/// outcome is a deterministic function of key, nonce, associated data,
/// ciphertext and tag, and fails exactly when the tag does not
/// authenticate them.
#[verifier::external_body]
pub(crate) fn xchacha_open(key: &[u8], nonce: &[u8], ad: &[u8], ct: &[u8], tag: &[u8]) -> (r: Option<
    Vec<u8>,
>)
    requires
        key@.len() == 32,
        nonce@.len() == 24,
        tag@.len() == 16,
    ensures
        r matches Some(v) ==> open_pt(key@, nonce@, ad@, ct@, tag@) == Some(v@) && v@.len()
            == ct@.len(),
        r is None ==> open_pt(key@, nonce@, ad@, ct@, tag@) is None,
{
    let cipher = XChaCha20Poly1305::new(Key::from_slice(key));
    let mut buf = ct.to_vec();
    match cipher.decrypt_in_place_detached(XNonce::from_slice(nonce), ad, &mut buf, Tag::from_slice(tag)) {
        Ok(()) => Some(buf),
        Err(_) => None,
    }
}

/// Relies on XChaCha20Poly1305::generate_nonce over the operating
/// system's entropy source: 24 fresh random bytes for each call.
#[verifier::external_body]
pub(crate) fn gen_nonce() -> (r: Vec<u8>)
    ensures
        r@.len() == 24,
{
    let n = XChaCha20Poly1305::generate_nonce(&mut OsRng);
    n.to_vec()
}

} // verus!
