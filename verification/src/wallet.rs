//! A wallet as loaded, single or sharded, and its decryption with a
//! password.

use crate::aead::{open, open_spec, DecryptError};
use crate::kdf::derive_spec;
use crate::keypair::{
    address_of, address_spec, parse_spec, valid_public_key, FormatError, Keypair, PUBLIC_KEY_LEN,
};
use crate::mnemonic::supported_entropy_len;
use crate::record::{bytes_eq, ShardSet, WalletRecord};
use crate::secret::clear;
use crate::sharing::{combine, combine_spec, ShareError};
use crate::text::{hex_text, to_hex};
use vstd::prelude::*;
use vstd::slice::slice_to_vec;

verus! {

/// Why a wallet could not be decrypted.
#[derive(Clone, Copy, Debug, PartialEq, Eq, Structural)]
pub enum WalletError {
    /// The shards could not be combined.
    Share(ShareError),
    /// The payload could not be opened.
    Decrypt(DecryptError),
    /// The opened payload holds no key pair.
    Format(FormatError),
}

/// A wallet as loaded from disk.
#[derive(Debug)]
pub enum Wallet {
    /// An unsharded wallet: one record with the whole encrypted payload.
    Single(WalletRecord),
    /// A sharded wallet: the shards that were found.
    Sharded(ShardSet),
}

impl Wallet {
    /// Whether the wallet is sharded.
    pub open spec fn sharded(&self) -> bool {
        self is Sharded
    }

    /// The record from which the wallet takes what all its records share;
    /// none for a sharded wallet without shards.
    pub open spec fn header_spec(&self) -> Option<WalletRecord> {
        match self {
            Wallet::Single(r) => Some(*r),
            Wallet::Sharded(s) => if s.records@.len() > 0 {
                Some(s.records@[0])
            } else {
                None
            },
        }
    }

    /// The encrypted payload: that of the single record, which must be no
    /// shard, or what the shards combine to.
    pub open spec fn payload_spec(&self) -> Result<Seq<u8>, ShareError> {
        match self {
            Wallet::Single(r) => if r.sharded() {
                Err(ShareError::Inconsistent)
            } else {
                Ok(r.ciphertext@)
            },
            Wallet::Sharded(s) => combine_spec(s.records@),
        }
    }

    /// The stored fingerprint in hexadecimal; empty for a sharded wallet
    /// without shards.
    pub open spec fn pwhash_spec(&self) -> Seq<char> {
        match self.header_spec() {
            Some(h) => hex_text(h.pwhash@),
            None => Seq::empty(),
        }
    }

    /// The address of the stored public key.
    pub open spec fn wallet_address(&self) -> Result<Seq<char>, FormatError> {
        match self.header_spec() {
            Some(h) => address_spec(h.public_key@),
            None => Err(FormatError::BadPublicKey),
        }
    }

    /// The keys that decrypting with a password gives, the public one first.
    pub open spec fn decrypt_spec(&self, password: Seq<u8>) -> Result<(Seq<u8>, Seq<u8>), WalletError> {
        match self.payload_spec() {
            Err(e) => Err(WalletError::Share(e)),
            Ok(payload) => {
                let h = self.header_spec()->0;
                match derive_spec(password, h.salt@, h.kdf) {
                    Err(e) => Err(WalletError::Decrypt(e)),
                    Ok(derived) => match open_spec(derived.0, h.nonce@, payload) {
                        Err(e) => Err(WalletError::Decrypt(e)),
                        Ok(plaintext) => match parse_spec(plaintext) {
                            Err(e) => Err(WalletError::Format(e)),
                            Ok(keys) => if keys.0 == h.public_key@ {
                                Ok(keys)
                            } else {
                                Err(WalletError::Decrypt(DecryptError::Malformed))
                            },
                        },
                    },
                }
            },
        }
    }

    /// Whether the wallet is sharded.
    pub fn is_sharded(&self) -> (b: bool)
        ensures
            b == self.sharded(),
    {
        match self {
            Wallet::Single(_) => false,
            Wallet::Sharded(_) => true,
        }
    }

    /// The record from which the wallet takes what all its records share.
    pub fn header(&self) -> (h: Option<&WalletRecord>)
        ensures
            match h {
                Some(r) => self.header_spec() == Some(*r),
                None => self.header_spec() is None,
            },
    {
        match self {
            Wallet::Single(r) => Some(r),
            Wallet::Sharded(s) => {
                if s.records.len() > 0 {
                    Some(&s.records[0])
                } else {
                    None
                }
            },
        }
    }

    /// The stored fingerprint of the password derivation, in hexadecimal.
    pub fn pwhash(&self) -> (s: String)
        ensures
            s@ == self.pwhash_spec(),
    {
        match self.header() {
            Some(h) => to_hex(h.pwhash.as_slice()),
            None => String::new(),
        }
    }

    /// The address of the stored public key; `BadPublicKey` where the wallet
    /// has no sound public key.
    pub fn address(&self) -> (r: Result<String, FormatError>)
        ensures
            match r {
                Ok(s) => self.wallet_address() == Ok::<Seq<char>, FormatError>(s@),
                Err(e) => self.wallet_address() == Err::<Seq<char>, FormatError>(e),
            },
    {
        match self.header() {
            Some(h) => address_of(h.public_key.as_slice()),
            None => Err(FormatError::BadPublicKey),
        }
    }

    /// The encrypted payload of the wallet.
    pub fn payload(&self) -> (r: Result<Vec<u8>, ShareError>)
        ensures
            match r {
                Ok(p) => self.payload_spec() == Ok::<Seq<u8>, ShareError>(p@),
                Err(e) => self.payload_spec() == Err::<Seq<u8>, ShareError>(e),
            },
    {
        match self {
            Wallet::Single(r) => {
                if r.is_sharded() {
                    Err(ShareError::Inconsistent)
                } else {
                    Ok(slice_to_vec(r.ciphertext.as_slice()))
                }
            },
            Wallet::Sharded(s) => combine(s),
        }
    }

    /// Decrypts the wallet with a password.
    ///
    /// A wrong password gives `Decrypt(AuthenticationFailed)`. Shards that do
    /// not combine, stored data of a wrong shape, a payload that holds no key
    /// pair, or one whose public key is not the stored one, give the other
    /// errors. The combined payload, the derived key and the opened payload are
    /// cleared before the call returns, whatever the outcome.
    pub fn decrypt(&self, password: &[u8]) -> (r: Result<Keypair, WalletError>)
        ensures
            match r {
                Ok(kp) => self.decrypt_spec(password@) == Ok::<(Seq<u8>, Seq<u8>), WalletError>(
                    (kp.public_bytes(), kp.private_bytes()),
                ),
                Err(e) => self.decrypt_spec(password@) == Err::<(Seq<u8>, Seq<u8>), WalletError>(
                    e,
                ),
            },
    {
        let mut payload = match self.payload() {
            Ok(p) => p,
            Err(e) => {
                return Err(WalletError::Share(e));
            },
        };
        let h = match self.header() {
            Some(h) => h,
            None => {
                clear(&mut payload);
                return Err(WalletError::Share(ShareError::InsufficientShares));
            },
        };
        let mut derived = match crate::kdf::derive(password, h.salt.as_slice(), &h.kdf) {
            Ok(d) => d,
            Err(e) => {
                clear(&mut payload);
                return Err(WalletError::Decrypt(e));
            },
        };
        let opened = open(derived.key.as_slice(), h.nonce.as_slice(), payload.as_slice());
        clear(&mut derived.key);
        clear(&mut payload);
        let mut plaintext = match opened {
            Ok(p) => p,
            Err(e) => {
                return Err(WalletError::Decrypt(e));
            },
        };
        let parsed = Keypair::from_bytes(plaintext.as_slice());
        clear(&mut plaintext);
        match parsed {
            Ok(kp) => {
                if bytes_eq(kp.public_key().as_slice(), h.public_key.as_slice()) {
                    Ok(kp)
                } else {
                    Err(WalletError::Decrypt(DecryptError::Malformed))
                }
            },
            Err(e) => Err(WalletError::Format(e)),
        }
    }
}

/// A password under which the payload of a wallet opens to the stored public
/// key and a private key of a supported length decrypts the wallet to that
/// key pair, whose address is the wallet's.
pub proof fn lemma_correct_password_decrypts(
    wallet: Wallet,
    password: Seq<u8>,
    key: Seq<u8>,
    fingerprint: Seq<u8>,
    private_key: Seq<u8>,
)
    requires
        wallet.payload_spec() is Ok,
        wallet.header_spec() is Some,
        valid_public_key(wallet.header_spec()->0.public_key@),
        supported_entropy_len(private_key.len() as int),
        derive_spec(password, wallet.header_spec()->0.salt@, wallet.header_spec()->0.kdf) == Ok::<
            (Seq<u8>, Seq<u8>),
            DecryptError,
        >((key, fingerprint)),
        open_spec(key, wallet.header_spec()->0.nonce@, wallet.payload_spec()->Ok_0) == Ok::<
            Seq<u8>,
            DecryptError,
        >(wallet.header_spec()->0.public_key@ + private_key),
    ensures
        wallet.decrypt_spec(password) == Ok::<(Seq<u8>, Seq<u8>), WalletError>(
            (wallet.header_spec()->0.public_key@, private_key),
        ),
        wallet.wallet_address() == address_spec(wallet.header_spec()->0.public_key@),
        wallet.wallet_address() is Ok,
{
    let public_key = wallet.header_spec()->0.public_key@;
    let plaintext = public_key + private_key;
    assert(plaintext.take(PUBLIC_KEY_LEN as int) =~= public_key);
    assert(plaintext.skip(PUBLIC_KEY_LEN as int) =~= private_key);
    assert(plaintext[0] == public_key[0]);
}

/// A key pair that a wallet decrypts to has the wallet's stored public key,
/// and so the wallet's address.
pub proof fn lemma_decrypted_matches_wallet(
    wallet: Wallet,
    password: Seq<u8>,
    public_key: Seq<u8>,
    private_key: Seq<u8>,
)
    requires
        wallet.decrypt_spec(password) == Ok::<(Seq<u8>, Seq<u8>), WalletError>(
            (public_key, private_key),
        ),
    ensures
        wallet.header_spec() matches Some(h) && h.public_key@ == public_key,
        wallet.wallet_address() == address_spec(public_key),
        wallet.wallet_address() is Ok,
{
}

/// Whatever the password, a payload that the cipher does not authenticate
/// under the derived key is reported as a failed authentication, never as
/// a key pair.
pub proof fn lemma_unauthenticated_fails(wallet: Wallet, password: Seq<u8>)
    requires
        wallet.payload_spec() is Ok,
        derive_spec(password, wallet.header_spec()->0.salt@, wallet.header_spec()->0.kdf) is Ok,
        open_spec(
            derive_spec(password, wallet.header_spec()->0.salt@, wallet.header_spec()->0.kdf)->Ok_0.0,
            wallet.header_spec()->0.nonce@,
            wallet.payload_spec()->Ok_0,
        ) == Err::<Seq<u8>, DecryptError>(DecryptError::AuthenticationFailed),
    ensures
        wallet.decrypt_spec(password) == Err::<(Seq<u8>, Seq<u8>), WalletError>(
            WalletError::Decrypt(DecryptError::AuthenticationFailed),
        ),
{
}

} // verus!
