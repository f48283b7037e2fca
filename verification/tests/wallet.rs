use shard_wallet::aead::DecryptError;
use shard_wallet::cmd::{print_result, Cmd};
use shard_wallet::keypair::{FormatError, Keypair};
use shard_wallet::mnemonic::SeedType;
use shard_wallet::record::{KdfParams, ShardSet, Sharding, WalletRecord};
use shard_wallet::sharing::ShareError;
use shard_wallet::wallet::{Wallet, WalletError};

const PASSWORD: &[u8] = b"correct horse battery staple";
const ADDRESS: &str = "13Btt1f8imFr1ZxDZ12qWY5L8h3HejFcECLeBz8oEJ6aZepT2CD";
const PWHASH: &str = "5610846b9472f9362746494ee600e264fd322f3a7139ab49d99702e032e16c21";
const PUBLIC: &str = "01202122232425262728292a2b2c2d2e2f303132333435363738393a3b3c3d3e3f";
const CIPHERTEXT: &str = "e89ba99c1df51ae2d81ae13d7cc4309da6860ade6752a2a4cde3d2b7e1969ef8c56f14faf7d866955bce43de550cdf46f205e8f6e0001faa48c49ebc04885db210";
const SHARES: [&str; 3] = [
    "e58fb2be34c52ddc9d56b2671dac5febdb02814cfef2050a785f117d304e411e289beff8fec8718b7ee270e414449010af61838499809824dd583d16b530e274dd",
    "f2b39fd84f95749e52824789be14ee715c9507e14e09f7e3bc804f38583d3b2f049cf9fee5f848a9119625aad79c41ea48cd3e12121b0aad79e7c3f37de3382591",
    "ffa784fa66a543a017ce14d3df7c810721118c73d7a9504d093c8cf289e5e4c9e96802fcece85fb734ba169096d40ebc15a955606b9b8d23ec7b6059cc5b87e35c",
];
const BIP39_PHRASE: &str = "legal winner thank year wave sausage worth useful legal winner thank yellow";
const MOBILE_PHRASE: &str = "melon magnet magnet magnet magnet magnet magnet magnet magnet magnet magnet magnet magnet magnet magnet magnet magnet";

fn bytes(s: &str) -> Vec<u8> {
    (0..s.len() / 2).map(|i| u8::from_str_radix(&s[2 * i..2 * i + 2], 16).unwrap()).collect()
}

fn record(sharding: Option<Sharding>, ciphertext: &str) -> WalletRecord {
    WalletRecord {
        format: 2,
        public_key: bytes(PUBLIC),
        sharding,
        salt: bytes("101112131415161718191a1b1c1d1e1f"),
        kdf: KdfParams { memory_kib: 64, iterations: 2, parallelism: 1 },
        nonce: bytes("a0a1a2a3a4a5a6a7a8a9aaab"),
        ciphertext: bytes(ciphertext),
        pwhash: bytes(PWHASH),
    }
}

fn single() -> Wallet {
    Wallet::Single(record(None, CIPHERTEXT))
}

fn shard(index: u8) -> WalletRecord {
    record(
        Some(Sharding { share_index: index, threshold: 2, total_shares: 3 }),
        SHARES[index as usize - 1],
    )
}

fn sharded(indices: &[u8]) -> Wallet {
    Wallet::Sharded(ShardSet { records: indices.iter().map(|i| shard(*i)).collect() })
}

#[test]
fn unsharded_wallet_decrypts_to_the_expected_key() {
    let keypair = single().decrypt(PASSWORD).unwrap();
    assert_eq!(keypair.private_key(), &vec![0x7fu8; 16]);
    assert_eq!(keypair.public_key(), &bytes(PUBLIC));
    assert_eq!(keypair.address(), ADDRESS);
    assert_eq!(keypair.phrase(Some(SeedType::Bip39)).join(" "), BIP39_PHRASE);
    assert_eq!(keypair.phrase(Some(SeedType::Bip39)).len(), 12);
    assert_eq!(keypair.phrase(Some(SeedType::Mobile)).join(" "), MOBILE_PHRASE);
    assert_eq!(keypair.phrase(Some(SeedType::Mobile)).len(), 17);
}

#[test]
fn decrypted_address_is_the_stored_address() {
    let wallet = single();
    let keypair = wallet.decrypt(PASSWORD).unwrap();
    assert_eq!(wallet.address(), Ok(keypair.address()));
    assert_eq!(wallet.address(), Ok(ADDRESS.to_string()));
}

#[test]
fn two_of_three_shards_give_the_same_key() {
    for pair in [[1u8, 2], [1, 3], [2, 3], [2, 1], [3, 1], [3, 2]] {
        let wallet = sharded(&pair);
        assert_eq!(wallet.payload(), Ok(bytes(CIPHERTEXT)));
        let keypair = wallet.decrypt(PASSWORD).unwrap();
        assert_eq!(keypair.private_key(), &vec![0x7fu8; 16]);
        assert_eq!(keypair.address(), ADDRESS);
    }
}

#[test]
fn all_three_shards_give_the_same_key() {
    let keypair = sharded(&[1, 2, 3]).decrypt(PASSWORD).unwrap();
    assert_eq!(keypair.private_key(), &vec![0x7fu8; 16]);
}

#[test]
fn one_shard_of_three_is_insufficient() {
    for index in [1u8, 2, 3] {
        let wallet = sharded(&[index]);
        assert_eq!(
            wallet.decrypt(PASSWORD).err(),
            Some(WalletError::Share(ShareError::InsufficientShares))
        );
    }
    assert_eq!(
        sharded(&[]).decrypt(PASSWORD).err(),
        Some(WalletError::Share(ShareError::InsufficientShares))
    );
}

#[test]
fn repeated_shard_is_inconsistent() {
    assert_eq!(
        sharded(&[2, 2]).decrypt(PASSWORD).err(),
        Some(WalletError::Share(ShareError::Inconsistent))
    );
}

#[test]
fn lone_shard_as_single_wallet_is_inconsistent() {
    let wallet = Wallet::Single(shard(1));
    assert_eq!(wallet.payload(), Err(ShareError::Inconsistent));
    assert_eq!(
        wallet.decrypt(PASSWORD).err(),
        Some(WalletError::Share(ShareError::Inconsistent))
    );
}

#[test]
fn wrong_password_fails_authentication() {
    for password in [&b"wrong password"[..], b"", b"correct horse battery stapl", b"Correct horse battery staple"] {
        assert_eq!(
            single().decrypt(password).err(),
            Some(WalletError::Decrypt(DecryptError::AuthenticationFailed))
        );
        assert_eq!(
            sharded(&[1, 3]).decrypt(password).err(),
            Some(WalletError::Decrypt(DecryptError::AuthenticationFailed))
        );
    }
}

#[test]
fn changed_ciphertext_byte_fails_authentication() {
    let len = bytes(CIPHERTEXT).len();
    for i in [0usize, 1, 20, 33, 48, len - 16, len - 2, len - 1] {
        let mut changed = record(None, CIPHERTEXT);
        changed.ciphertext[i] ^= 0x20;
        assert_eq!(
            Wallet::Single(changed).decrypt(PASSWORD).err(),
            Some(WalletError::Decrypt(DecryptError::AuthenticationFailed))
        );
    }
}

#[test]
fn changed_nonce_byte_fails_authentication() {
    for i in 0..12usize {
        let mut changed = record(None, CIPHERTEXT);
        changed.nonce[i] ^= 0x01;
        assert_eq!(
            Wallet::Single(changed).decrypt(PASSWORD).err(),
            Some(WalletError::Decrypt(DecryptError::AuthenticationFailed))
        );
    }
}

#[test]
fn changed_salt_or_cost_fails_authentication() {
    let mut salted = record(None, CIPHERTEXT);
    salted.salt[3] ^= 0x01;
    assert_eq!(
        Wallet::Single(salted).decrypt(PASSWORD).err(),
        Some(WalletError::Decrypt(DecryptError::AuthenticationFailed))
    );
    let mut slower = record(None, CIPHERTEXT);
    slower.kdf.iterations = 3;
    assert_eq!(
        Wallet::Single(slower).decrypt(PASSWORD).err(),
        Some(WalletError::Decrypt(DecryptError::AuthenticationFailed))
    );
}

#[test]
fn changed_share_byte_fails_authentication() {
    let mut first = shard(1);
    first.ciphertext[7] ^= 0x40;
    let wallet = Wallet::Sharded(ShardSet { records: vec![first, shard(2)] });
    assert_eq!(
        wallet.decrypt(PASSWORD).err(),
        Some(WalletError::Decrypt(DecryptError::AuthenticationFailed))
    );
}

#[test]
fn malformed_stored_data_is_reported() {
    let mut short_nonce = record(None, CIPHERTEXT);
    short_nonce.nonce.pop();
    assert_eq!(
        Wallet::Single(short_nonce).decrypt(PASSWORD).err(),
        Some(WalletError::Decrypt(DecryptError::Malformed))
    );
    let mut short_payload = record(None, CIPHERTEXT);
    short_payload.ciphertext.truncate(15);
    assert_eq!(
        Wallet::Single(short_payload).decrypt(PASSWORD).err(),
        Some(WalletError::Decrypt(DecryptError::Malformed))
    );
    let mut short_salt = record(None, CIPHERTEXT);
    short_salt.salt.truncate(4);
    assert_eq!(
        Wallet::Single(short_salt).decrypt(PASSWORD).err(),
        Some(WalletError::Decrypt(DecryptError::Malformed))
    );
    let mut lanes = record(None, CIPHERTEXT);
    lanes.kdf.parallelism = u32::MAX;
    assert_eq!(
        Wallet::Single(lanes).decrypt(PASSWORD).err(),
        Some(WalletError::Decrypt(DecryptError::Malformed))
    );
}

#[test]
fn other_stored_public_key_is_malformed() {
    let mut other = record(None, CIPHERTEXT);
    other.public_key[10] ^= 0x01;
    assert_eq!(
        Wallet::Single(other).decrypt(PASSWORD).err(),
        Some(WalletError::Decrypt(DecryptError::Malformed))
    );
}

#[test]
fn wallet_address_and_pwhash_need_no_password() {
    let wallet = single();
    assert_eq!(wallet.address(), Ok(ADDRESS.to_string()));
    assert_eq!(wallet.pwhash(), PWHASH);
    assert!(!wallet.is_sharded());
    let shards = sharded(&[3]);
    assert_eq!(shards.address(), Ok(ADDRESS.to_string()));
    assert_eq!(shards.pwhash(), PWHASH);
    assert!(shards.is_sharded());
    assert!(shards.header().is_some());
}

#[test]
fn wallet_with_malformed_public_key_has_no_address() {
    let mut broken = record(None, CIPHERTEXT);
    broken.public_key.truncate(20);
    assert_eq!(Wallet::Single(broken).address(), Err(FormatError::BadPublicKey));
    let empty = sharded(&[]);
    assert_eq!(empty.address(), Err(FormatError::BadPublicKey));
    assert_eq!(empty.pwhash(), "");
    assert!(empty.header().is_none());
}

#[test]
fn run_reports_a_verified_wallet() {
    let report = Cmd { seed: None }.run(&single(), PASSWORD).unwrap();
    assert_eq!(report.address, ADDRESS);
    assert!(!report.sharded);
    assert!(report.verify);
    assert_eq!(report.pwhash, PWHASH);
    assert_eq!(report.phrase, None);
}

#[test]
fn run_reports_the_phrase_in_the_dialect_asked_for() {
    let bip39 = Cmd { seed: Some(SeedType::Bip39) }.run(&single(), PASSWORD).unwrap();
    assert_eq!(bip39.phrase, Some(BIP39_PHRASE.to_string()));
    assert!(bip39.verify);
    let mobile = Cmd { seed: Some(SeedType::Mobile) }.run(&sharded(&[2, 3]), PASSWORD).unwrap();
    assert_eq!(mobile.phrase, Some(MOBILE_PHRASE.to_string()));
    assert!(mobile.verify);
    assert!(mobile.sharded);
    assert_eq!(mobile.address, ADDRESS);
}

#[test]
fn run_reports_a_wrong_password_as_unverified() {
    let report = Cmd { seed: None }.run(&single(), b"not the password").unwrap();
    assert_eq!(report.address, ADDRESS);
    assert!(!report.sharded);
    assert!(!report.verify);
    assert_eq!(report.pwhash, PWHASH);
    assert_eq!(report.phrase, None);
    let with_seed = Cmd { seed: Some(SeedType::Bip39) }.run(&single(), b"not the password").unwrap();
    assert!(!with_seed.verify);
    assert_eq!(with_seed.phrase, Some(String::new()));
}

#[test]
fn run_hands_on_structural_faults() {
    assert_eq!(
        Cmd { seed: None }.run(&sharded(&[1]), PASSWORD).err(),
        Some(WalletError::Share(ShareError::InsufficientShares))
    );
    assert_eq!(
        Cmd { seed: None }.run(&sharded(&[1, 1]), PASSWORD).err(),
        Some(WalletError::Share(ShareError::Inconsistent))
    );
    let mut short_nonce = record(None, CIPHERTEXT);
    short_nonce.nonce.pop();
    assert_eq!(
        Cmd { seed: Some(SeedType::Mobile) }.run(&Wallet::Single(short_nonce), PASSWORD).err(),
        Some(WalletError::Decrypt(DecryptError::Malformed))
    );
}

#[test]
fn print_result_shows_unknown_for_a_malformed_public_key() {
    let mut broken = record(None, CIPHERTEXT);
    broken.public_key = vec![1, 2, 3];
    let wallet = Wallet::Single(broken);
    let failed: Result<Keypair, WalletError> =
        Err(WalletError::Decrypt(DecryptError::AuthenticationFailed));
    let report = print_result(&wallet, &failed, None).unwrap();
    assert_eq!(report.address, "unknown");
    assert!(!report.verify);
    assert_eq!(report.pwhash, PWHASH);
}

#[test]
fn print_result_follows_the_outcome_it_is_given() {
    let wallet = single();
    let decrypted = wallet.decrypt(PASSWORD);
    let report = print_result(&wallet, &decrypted, Some(SeedType::Bip39)).unwrap();
    assert!(report.verify);
    assert_eq!(report.phrase, Some(BIP39_PHRASE.to_string()));
    let format: Result<Keypair, WalletError> = Err(WalletError::Format(FormatError::BadPrivateKeyLength));
    assert_eq!(
        print_result(&wallet, &format, None).err(),
        Some(WalletError::Format(FormatError::BadPrivateKeyLength))
    );
    let bad_key: Result<Keypair, WalletError> = Err(WalletError::Format(FormatError::BadPublicKey));
    assert_eq!(
        print_result(&wallet, &bad_key, Some(SeedType::Mobile)).err(),
        Some(WalletError::Format(FormatError::BadPublicKey))
    );
}
