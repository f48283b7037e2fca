//! The key pair that a wallet holds, its address and its phrase.
//!
//! The decrypted payload of a wallet is the public key, 33 bytes of which the
//! first is the type tag, followed by the private key.

use crate::mnemonic::{encode, encode_spec, is_supported_len, supported_entropy_len, SeedType};
use crate::secret::clear;
use crate::text::texts;
use vstd::prelude::*;
use vstd::slice::slice_subrange;
use vstd::slice::slice_to_vec;

verus! {

/// The length of a public key with its type tag, in bytes.
pub const PUBLIC_KEY_LEN: usize = 33;

/// The type tag of an Ed25519 key.
pub const KEY_TYPE_ED25519: u8 = 1;

/// The version byte of an address.
pub const ADDRESS_VERSION: u8 = 0;

/// Why bytes are no key pair, or no public key.
#[derive(Clone, Copy, Debug, PartialEq, Eq, Structural)]
pub enum FormatError {
    /// The public key is too short or too long, or has an unknown type tag.
    BadPublicKey,
    /// The private key has a length that no phrase encodes.
    BadPrivateKeyLength,
}

/// Whether `pk` is a public key: the type tag and 32 bytes.
pub open spec fn valid_public_key(pk: Seq<u8>) -> bool {
    pk.len() == PUBLIC_KEY_LEN && pk[0] == KEY_TYPE_ED25519
}

/// The Base58Check text of a payload under a version byte.
pub uninterp spec fn base58check_text(version: u8, payload: Seq<u8>) -> Seq<char>;

/// Calls `bs58::encode` with `with_check_version` and `into_string`.
/// Trusted: the result is the Base58Check text of the payload under the
/// version byte.
#[verifier::external_body]
fn base58check(version: u8, payload: &[u8]) -> (s: String)
    ensures
        s@ == base58check_text(version, payload@),
{
    bs58::encode(payload).with_check_version(version).into_string()
}

/// The address of a public key.
pub open spec fn address_spec(pk: Seq<u8>) -> Result<Seq<char>, FormatError> {
    if valid_public_key(pk) {
        Ok(base58check_text(ADDRESS_VERSION, pk))
    } else {
        Err(FormatError::BadPublicKey)
    }
}

/// The public and the private key in a decrypted payload.
pub open spec fn parse_spec(bytes: Seq<u8>) -> Result<(Seq<u8>, Seq<u8>), FormatError> {
    if bytes.len() < PUBLIC_KEY_LEN || bytes[0] != KEY_TYPE_ED25519 {
        Err(FormatError::BadPublicKey)
    } else if !supported_entropy_len(bytes.len() - PUBLIC_KEY_LEN) {
        Err(FormatError::BadPrivateKeyLength)
    } else {
        Ok((bytes.take(PUBLIC_KEY_LEN as int), bytes.skip(PUBLIC_KEY_LEN as int)))
    }
}

/// Whether `pk` is a public key.
pub fn is_public_key(pk: &[u8]) -> (b: bool)
    ensures
        b == valid_public_key(pk@),
{
    pk.len() == PUBLIC_KEY_LEN && pk[0] == KEY_TYPE_ED25519
}

/// Writes the address of a public key; `BadPublicKey` where the bytes are no
/// public key.
pub fn address_of(public_key: &[u8]) -> (r: Result<String, FormatError>)
    ensures
        match r {
            Ok(s) => address_spec(public_key@) == Ok::<Seq<char>, FormatError>(s@),
            Err(e) => address_spec(public_key@) == Err::<Seq<char>, FormatError>(e),
        },
{
    if is_public_key(public_key) {
        Ok(base58check(ADDRESS_VERSION, public_key))
    } else {
        Err(FormatError::BadPublicKey)
    }
}

/// A public key and the private key that belongs to it.
#[derive(Debug)]
pub struct Keypair {
    private_key: Vec<u8>,
    public_key: Vec<u8>,
}

impl Keypair {
    #[verifier::type_invariant]
    spec fn well_formed(&self) -> bool {
        valid_public_key(self.public_key@) && supported_entropy_len(self.private_key@.len() as int)
    }

    /// The bytes of the private key.
    pub closed spec fn private_bytes(&self) -> Seq<u8> {
        self.private_key@
    }

    /// The bytes of the public key.
    pub closed spec fn public_bytes(&self) -> Seq<u8> {
        self.public_key@
    }

    /// Reads a key pair from a decrypted payload.
    ///
    /// A payload without a sound public key at its start gives
    /// `BadPublicKey`; one whose private key has an unsupported length gives
    /// `BadPrivateKeyLength`.
    pub fn from_bytes(bytes: &[u8]) -> (r: Result<Keypair, FormatError>)
        ensures
            match r {
                Ok(kp) => parse_spec(bytes@) == Ok::<(Seq<u8>, Seq<u8>), FormatError>(
                    (kp.public_bytes(), kp.private_bytes()),
                ),
                Err(e) => parse_spec(bytes@) == Err::<(Seq<u8>, Seq<u8>), FormatError>(e),
            },
    {
        if bytes.len() < PUBLIC_KEY_LEN || bytes[0] != KEY_TYPE_ED25519 {
            return Err(FormatError::BadPublicKey);
        }
        if !is_supported_len(bytes.len() - PUBLIC_KEY_LEN) {
            return Err(FormatError::BadPrivateKeyLength);
        }
        let public_key = slice_to_vec(slice_subrange(bytes, 0, PUBLIC_KEY_LEN));
        let private_key = slice_to_vec(slice_subrange(bytes, PUBLIC_KEY_LEN, bytes.len()));
        assert(public_key@ =~= bytes@.take(PUBLIC_KEY_LEN as int));
        assert(private_key@ =~= bytes@.skip(PUBLIC_KEY_LEN as int));
        Ok(Keypair { private_key, public_key })
    }

    /// The private key.
    pub fn private_key(&self) -> (k: &Vec<u8>)
        ensures
            k@ == self.private_bytes(),
            supported_entropy_len(k@.len() as int),
    {
        proof {
            use_type_invariant(self);
        }
        &self.private_key
    }

    /// The public key.
    pub fn public_key(&self) -> (k: &Vec<u8>)
        ensures
            k@ == self.public_bytes(),
            valid_public_key(k@),
    {
        proof {
            use_type_invariant(self);
        }
        &self.public_key
    }

    /// The address of the public key.
    pub fn address(&self) -> (s: String)
        ensures
            address_spec(self.public_bytes()) == Ok::<Seq<char>, FormatError>(s@),
    {
        proof {
            use_type_invariant(self);
        }
        base58check(ADDRESS_VERSION, self.public_key.as_slice())
    }

    /// Gives the key pair up; the bytes of the private key are cleared.
    pub fn erase(self) {
        let Keypair { private_key, public_key } = self;
        let mut secret = private_key;
        clear(&mut secret);
    }

    /// The private key as a phrase of the dialect asked for; no words where
    /// no dialect is asked for.
    pub fn phrase(&self, seed_type: Option<SeedType>) -> (words: Vec<String>)
        ensures
            texts(words@) == phrase_spec(self.private_bytes(), seed_type),
            words@.len() == phrase_spec(self.private_bytes(), seed_type).len(),
    {
        proof {
            use_type_invariant(self);
        }
        match seed_type {
            None => {
                let words: Vec<String> = Vec::new();
                assert(texts(words@) =~= Seq::<Seq<char>>::empty());
                words
            },
            Some(t) => {
                match encode(self.private_key.as_slice(), t) {
                    Ok(words) => words,
                    // Not reached: the private key has a supported length.
                    Err(_) => Vec::new(),
                }
            },
        }
    }
}

/// The phrase of a private key in the dialect asked for; no words where no
/// dialect is asked for.
pub open spec fn phrase_spec(private_key: Seq<u8>, seed_type: Option<SeedType>) -> Seq<Seq<char>> {
    match seed_type {
        None => Seq::empty(),
        Some(t) => encode_spec(t, private_key),
    }
}

} // verus!
