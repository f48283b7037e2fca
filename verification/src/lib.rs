//! Cryptographic core of a password-protected, optionally sharded wallet
//! store.
//!
//! A wallet lies on disk as one record, or as one record for each shard. To
//! verify a password against it, the shards are combined into the encrypted
//! payload ([`sharing`], over the field of [`gf256`] with the interpolation
//! of [`lagrange`]), a key is derived from the password ([`kdf`]), the
//! payload is opened with that key ([`aead`]) and read as a key pair
//! ([`keypair`]). The private key can be spelled as a phrase of words in one
//! of two dialects ([`mnemonic`], with the word lists of [`wordlists`]).
//! [`wallet`] ties the steps together and [`cmd`] builds the record that is
//! shown.

pub mod aead;
pub mod bits;
pub mod cmd;
pub mod gf256;
pub mod hash;
pub mod kdf;
pub mod keypair;
pub mod lagrange;
pub mod mnemonic;
pub mod record;
pub mod secret;
pub mod sharing;
pub mod text;
pub mod vocabulary;
pub mod wallet;
pub mod wordcode;
pub mod wordlists;
