//! Verification of an encrypted wallet against a password, and the record
//! that is shown for it.

use crate::aead::DecryptError;
use crate::keypair::{phrase_spec, Keypair};
use crate::mnemonic::SeedType;
use crate::text::{join_words, joined};
use crate::wallet::{Wallet, WalletError};
use vstd::prelude::*;
use vstd::string::*;

verus! {

/// Verify an encrypted wallet.
#[derive(Clone, Copy, Debug)]
pub struct Cmd {
    /// The dialect in which the phrase of the private key is shown; no
    /// phrase is shown where there is none.
    pub seed: Option<SeedType>,
}

/// What is shown for a wallet after a password was tried on it.
#[derive(Debug)]
pub struct Report {
    /// The address of the stored public key, or `unknown`.
    pub address: String,
    /// Whether the wallet is sharded.
    pub sharded: bool,
    /// Whether the password opened the wallet.
    pub verify: bool,
    /// The stored fingerprint of the password derivation.
    pub pwhash: String,
    /// The phrase of the private key, where a dialect was asked for. It is
    /// empty where the password did not open the wallet.
    pub phrase: Option<String>,
}

/// The address that is shown for a wallet: its own, or `unknown` where its
/// public key is malformed.
pub open spec fn shown_address(wallet: Wallet) -> Seq<char> {
    match wallet.wallet_address() {
        Ok(a) => a,
        Err(_) => "unknown"@,
    }
}

/// The phrase that is shown: none where no dialect is asked for, the words
/// of the private key in one line where there is a key, and an empty line
/// where there is none.
pub open spec fn shown_phrase(private_key: Option<Seq<u8>>, seed_type: Option<SeedType>) -> Option<
    Seq<char>,
> {
    match seed_type {
        None => None,
        Some(t) => match private_key {
            Some(k) => Some(joined(phrase_spec(k, seed_type))),
            None => Some(Seq::empty()),
        },
    }
}

/// Whether a report shows this wallet, this outcome and this phrase.
pub open spec fn reports(
    report: Report,
    wallet: Wallet,
    private_key: Option<Seq<u8>>,
    seed_type: Option<SeedType>,
) -> bool {
    &&& report.address@ == shown_address(wallet)
    &&& report.sharded == wallet.sharded()
    &&& report.verify == (private_key is Some)
    &&& report.pwhash@ == wallet.pwhash_spec()
    &&& match shown_phrase(private_key, seed_type) {
        Some(line) => report.phrase matches Some(p) && p@ == line,
        None => report.phrase is None,
    }
}

/// Builds the record that is printed for a wallet and the outcome of its
/// decryption.
///
/// A key pair gives a record with `verify` set; a failed authentication,
/// which is what a wrong password gives, a record with `verify` unset. Every
/// other error is handed on. The address and the fingerprint are those that
/// the wallet stores, whatever the outcome.
pub fn print_result(
    wallet: &Wallet,
    decrypted: &Result<Keypair, WalletError>,
    seed_type: Option<SeedType>,
) -> (r: Result<Report, WalletError>)
    ensures
        match *decrypted {
            Ok(kp) => r matches Ok(report) && reports(
                report,
                *wallet,
                Some(kp.private_bytes()),
                seed_type,
            ),
            Err(WalletError::Decrypt(DecryptError::AuthenticationFailed)) => r matches Ok(report)
                && reports(report, *wallet, None, seed_type),
            Err(e) => r == Err::<Report, WalletError>(e),
        },
{
    let phrase = match decrypted {
        Ok(kp) => match seed_type {
            Some(_) => Some(join_words(&kp.phrase(seed_type))),
            None => None,
        },
        Err(WalletError::Decrypt(DecryptError::AuthenticationFailed)) => match seed_type {
            Some(_) => Some(String::new()),
            None => None,
        },
        Err(e) => {
            return Err(*e);
        },
    };
    let address = match wallet.address() {
        Ok(a) => a,
        Err(_) => String::from_str("unknown"),
    };
    Ok(
        Report {
            address,
            sharded: wallet.is_sharded(),
            verify: decrypted.is_ok(),
            pwhash: wallet.pwhash(),
            phrase,
        },
    )
}

impl Cmd {
    /// Tries a password on a wallet and builds the record to show.
    ///
    /// A wrong password is no error: it gives a record with `verify` unset.
    /// Shards that do not combine and stored data of a wrong shape are
    /// errors. The key pair is cleared once the record is built.
    pub fn run(&self, wallet: &Wallet, password: &[u8]) -> (r: Result<Report, WalletError>)
        ensures
            match wallet.decrypt_spec(password@) {
                Ok(keys) => r matches Ok(report) && reports(
                    report,
                    *wallet,
                    Some(keys.1),
                    self.seed,
                ),
                Err(WalletError::Decrypt(DecryptError::AuthenticationFailed)) => r matches Ok(
                    report,
                ) && reports(report, *wallet, None, self.seed),
                Err(e) => r == Err::<Report, WalletError>(e),
            },
    {
        let decrypted = wallet.decrypt(password);
        let report = print_result(wallet, &decrypted, self.seed);
        match decrypted {
            Ok(keypair) => keypair.erase(),
            Err(_) => {},
        }
        report
    }
}

} // verus!
