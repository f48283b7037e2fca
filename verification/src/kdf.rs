//! Derivation of the decryption key and of the password fingerprint from a
//! password, a salt and the cost parameters, with Argon2id.
//!
//! One derivation gives 64 bytes: the first 32 are the key, the last 32 the
//! fingerprint that a wallet stores and shows.

use crate::aead::DecryptError;
use crate::record::{option_bytes, KdfParams};
use vstd::prelude::*;
use vstd::slice::slice_subrange;
use vstd::slice::slice_to_vec;

verus! {

/// The length of the decryption key, in bytes.
pub const KEY_LEN: usize = 32;

/// The length of the fingerprint, in bytes.
pub const FINGERPRINT_LEN: usize = 32;

/// The highest number of lanes that the derivation takes.
pub const MAX_LANES: u32 = 0xFF_FFFF;

/// The most memory, in KiB, that a wallet may ask of the derivation: 4 GiB.
pub const MAX_MEMORY_KIB: u32 = 0x40_0000;

/// A decryption key and the fingerprint that goes with it.
#[derive(Debug)]
pub struct DerivedKey {
    /// The symmetric key that opens the payload.
    pub key: Vec<u8>,
    /// The fingerprint of the derivation, which is no secret.
    pub fingerprint: Vec<u8>,
}

/// What Argon2id (version 0x13, no secret, no associated data) gives for
/// these inputs and `len` bytes of output; `None` where it refuses them.
pub uninterp spec fn argon2id_output(
    password: Seq<u8>,
    salt: Seq<u8>,
    memory_kib: u32,
    iterations: u32,
    parallelism: u32,
    len: nat,
) -> Option<Seq<u8>>;

/// Calls `argon2::Params::new` and `argon2::Argon2::hash_password_into`.
/// Trusted: the result is what Argon2id gives for the inputs, and `None`
/// where either call reports an error. More lanes than `MAX_LANES` are left
/// out, on which the check of the parameters can overflow, and more memory
/// than `MAX_MEMORY_KIB`, which the call allocates at once.
#[verifier::external_body]
fn argon2id(
    password: &[u8],
    salt: &[u8],
    memory_kib: u32,
    iterations: u32,
    parallelism: u32,
    len: usize,
) -> (out: Option<Vec<u8>>)
    requires
        parallelism <= MAX_LANES,
        memory_kib <= MAX_MEMORY_KIB,
    ensures
        option_bytes(out) == argon2id_output(
            password@,
            salt@,
            memory_kib,
            iterations,
            parallelism,
            len as nat,
        ),
{
    let params = argon2::Params::new(memory_kib, iterations, parallelism, Some(len)).ok()?;
    let hasher = argon2::Argon2::new(argon2::Algorithm::Argon2id, argon2::Version::V0x13, params);
    let mut out = vec![0u8; len];
    hasher.hash_password_into(password, salt, &mut out).ok()?;
    Some(out)
}

/// The key and the fingerprint in the raw output of the derivation.
pub open spec fn split_spec(raw: Option<Seq<u8>>) -> Result<(Seq<u8>, Seq<u8>), DecryptError> {
    match raw {
        Some(v) => if v.len() == KEY_LEN + FINGERPRINT_LEN {
            Ok((v.take(KEY_LEN as int), v.skip(KEY_LEN as int)))
        } else {
            Err(DecryptError::Malformed)
        },
        None => Err(DecryptError::Malformed),
    }
}

/// The key and the fingerprint for a password, a salt and cost parameters.
pub open spec fn derive_spec(password: Seq<u8>, salt: Seq<u8>, params: KdfParams) -> Result<
    (Seq<u8>, Seq<u8>),
    DecryptError,
> {
    if params.parallelism > MAX_LANES || params.memory_kib > MAX_MEMORY_KIB {
        Err(DecryptError::Malformed)
    } else {
        split_spec(
            argon2id_output(
                password,
                salt,
                params.memory_kib,
                params.iterations,
                params.parallelism,
                (KEY_LEN + FINGERPRINT_LEN) as nat,
            ),
        )
    }
}

/// Splits the raw output of the derivation into key and fingerprint.
///
/// An output that is missing or has another length than 64 bytes gives
/// `Malformed`.
pub fn split_output(raw: Option<Vec<u8>>) -> (r: Result<DerivedKey, DecryptError>)
    ensures
        match r {
            Ok(d) => split_spec(option_bytes(raw)) == Ok::<(Seq<u8>, Seq<u8>), DecryptError>(
                (d.key@, d.fingerprint@),
            ),
            Err(e) => split_spec(option_bytes(raw)) == Err::<(Seq<u8>, Seq<u8>), DecryptError>(e),
        },
{
    match raw {
        Some(v) => {
            if v.len() != KEY_LEN + FINGERPRINT_LEN {
                return Err(DecryptError::Malformed);
            }
            let key = slice_to_vec(slice_subrange(v.as_slice(), 0, KEY_LEN));
            let fingerprint = slice_to_vec(
                slice_subrange(v.as_slice(), KEY_LEN, KEY_LEN + FINGERPRINT_LEN),
            );
            assert(key@ =~= v@.take(KEY_LEN as int));
            assert(fingerprint@ =~= v@.skip(KEY_LEN as int));
            Ok(DerivedKey { key, fingerprint })
        },
        None => Err(DecryptError::Malformed),
    }
}

/// Derives the decryption key and the fingerprint.
///
/// Parameters that the derivation refuses, among them more lanes than
/// `MAX_LANES` and more memory than `MAX_MEMORY_KIB`, give `Malformed`. No
/// password is refused.
pub fn derive(password: &[u8], salt: &[u8], params: &KdfParams) -> (r: Result<
    DerivedKey,
    DecryptError,
>)
    ensures
        match r {
            Ok(d) => derive_spec(password@, salt@, *params) == Ok::<
                (Seq<u8>, Seq<u8>),
                DecryptError,
            >((d.key@, d.fingerprint@)),
            Err(e) => derive_spec(password@, salt@, *params) == Err::<
                (Seq<u8>, Seq<u8>),
                DecryptError,
            >(e),
        },
{
    if params.parallelism > MAX_LANES || params.memory_kib > MAX_MEMORY_KIB {
        return Err(DecryptError::Malformed);
    }
    split_output(
        argon2id(
            password,
            salt,
            params.memory_kib,
            params.iterations,
            params.parallelism,
            KEY_LEN + FINGERPRINT_LEN,
        ),
    )
}

/// The derivation is a function of its inputs: the same password, salt and
/// parameters give the same key and fingerprint.
pub proof fn lemma_derive_deterministic(
    password_a: Seq<u8>,
    salt_a: Seq<u8>,
    params_a: KdfParams,
    password_b: Seq<u8>,
    salt_b: Seq<u8>,
    params_b: KdfParams,
)
    requires
        password_a == password_b,
        salt_a == salt_b,
        params_a == params_b,
    ensures
        derive_spec(password_a, salt_a, params_a) == derive_spec(password_b, salt_b, params_b),
{
}

} // verus!
