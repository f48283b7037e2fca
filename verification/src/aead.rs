//! Opening of the encrypted payload with AES-256-GCM.

use aes_gcm::aead::Aead;
use aes_gcm::KeyInit;
use crate::record::option_bytes;
use vstd::prelude::*;

verus! {

/// The length of the key of the cipher, in bytes.
pub const CIPHER_KEY_LEN: usize = 32;

/// The length of the nonce, in bytes.
pub const NONCE_LEN: usize = 12;

/// The length of the authentication tag at the end of a ciphertext, in bytes.
pub const TAG_LEN: usize = 16;

/// Why a payload could not be opened.
#[derive(Clone, Copy, Debug, PartialEq, Eq, Structural)]
pub enum DecryptError {
    /// The tag does not fit: a wrong key, so a wrong password, or changed
    /// bytes.
    AuthenticationFailed,
    /// The stored data has not the shape that it must have.
    Malformed,
}

/// The plaintext that AES-256-GCM, without associated data, gives for a
/// ciphertext that ends in its tag; `None` where the tag does not fit.
pub uninterp spec fn aes256gcm_plaintext(key: Seq<u8>, nonce: Seq<u8>, ciphertext: Seq<u8>) -> Option<
    Seq<u8>,
>;

/// Calls `aes_gcm::Aes256Gcm::new` and `decrypt` of `aes_gcm::aead::Aead`.
/// Trusted: the result is the plaintext that the cipher gives, and `None`
/// where it reports an error. Keys and nonces of other lengths are left out,
/// on which the conversion to arrays panics.
#[verifier::external_body]
fn aes256gcm_decrypt(key: &[u8], nonce: &[u8], ciphertext: &[u8]) -> (out: Option<Vec<u8>>)
    requires
        key@.len() == CIPHER_KEY_LEN,
        nonce@.len() == NONCE_LEN,
    ensures
        option_bytes(out) == aes256gcm_plaintext(key@, nonce@, ciphertext@),
{
    let cipher = aes_gcm::Aes256Gcm::new(aes_gcm::Key::<aes_gcm::Aes256Gcm>::from_slice(key));
    cipher.decrypt(aes_gcm::Nonce::from_slice(nonce), ciphertext).ok()
}

/// What the cipher's answer means: a plaintext, or a failed authentication.
pub open spec fn authenticated_spec(outcome: Option<Seq<u8>>) -> Result<Seq<u8>, DecryptError> {
    match outcome {
        Some(plaintext) => Ok(plaintext),
        None => Err(DecryptError::AuthenticationFailed),
    }
}

/// What opening a payload gives.
pub open spec fn open_spec(key: Seq<u8>, nonce: Seq<u8>, ciphertext: Seq<u8>) -> Result<
    Seq<u8>,
    DecryptError,
> {
    if key.len() != CIPHER_KEY_LEN || nonce.len() != NONCE_LEN || ciphertext.len() < TAG_LEN {
        Err(DecryptError::Malformed)
    } else {
        authenticated_spec(aes256gcm_plaintext(key, nonce, ciphertext))
    }
}

/// Turns the cipher's answer into the result of opening: the plaintext, or
/// `AuthenticationFailed` where there is none.
pub fn authenticated(outcome: Option<Vec<u8>>) -> (r: Result<Vec<u8>, DecryptError>)
    ensures
        match r {
            Ok(p) => authenticated_spec(option_bytes(outcome)) == Ok::<Seq<u8>, DecryptError>(p@),
            Err(e) => authenticated_spec(option_bytes(outcome)) == Err::<Seq<u8>, DecryptError>(
                e,
            ),
        },
{
    match outcome {
        Some(plaintext) => Ok(plaintext),
        None => Err(DecryptError::AuthenticationFailed),
    }
}

/// Opens an encrypted payload.
///
/// A key, a nonce or a ciphertext of a wrong length gives `Malformed`; a tag
/// that does not fit gives `AuthenticationFailed`.
pub fn open(key: &[u8], nonce: &[u8], ciphertext: &[u8]) -> (r: Result<Vec<u8>, DecryptError>)
    ensures
        match r {
            Ok(p) => open_spec(key@, nonce@, ciphertext@) == Ok::<Seq<u8>, DecryptError>(p@),
            Err(e) => open_spec(key@, nonce@, ciphertext@) == Err::<Seq<u8>, DecryptError>(e),
        },
{
    if key.len() != CIPHER_KEY_LEN || nonce.len() != NONCE_LEN || ciphertext.len() < TAG_LEN {
        return Err(DecryptError::Malformed);
    }
    authenticated(aes256gcm_decrypt(key, nonce, ciphertext))
}

} // verus!
