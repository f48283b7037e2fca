use aes_gcm::aead::Aead;
use aes_gcm::KeyInit;
use shard_wallet::aead::{authenticated, open, DecryptError};
use shard_wallet::kdf::split_output;
use shard_wallet::keypair::{address_of, is_public_key, FormatError, Keypair};
use shard_wallet::mnemonic::SeedType;
use shard_wallet::record::KdfParams;
use shard_wallet::secret::clear;
use shard_wallet::text::{join_words, to_hex};

fn from_hex(s: &str) -> Vec<u8> {
    (0..s.len() / 2).map(|i| u8::from_str_radix(&s[2 * i..2 * i + 2], 16).unwrap()).collect()
}

fn cost() -> KdfParams {
    KdfParams { memory_kib: 64, iterations: 2, parallelism: 1 }
}

fn payload_of(private_key: &[u8]) -> Vec<u8> {
    let mut bytes = from_hex("01202122232425262728292a2b2c2d2e2f303132333435363738393a3b3c3d3e3f");
    bytes.extend_from_slice(private_key);
    bytes
}

#[test]
fn derive_known_vector() {
    let salt = from_hex("101112131415161718191a1b1c1d1e1f");
    let derived = shard_wallet::kdf::derive(b"correct horse battery staple", &salt, &cost()).unwrap();
    assert_eq!(
        derived.key,
        from_hex("c847eda3617a81b312fc9bb361e16391215aebbc7e0c1a60cab1a4f796ec9956")
    );
    assert_eq!(
        derived.fingerprint,
        from_hex("5610846b9472f9362746494ee600e264fd322f3a7139ab49d99702e032e16c21")
    );
}

#[test]
fn derive_is_deterministic() {
    let salt = from_hex("101112131415161718191a1b1c1d1e1f");
    let first = shard_wallet::kdf::derive(b"some password", &salt, &cost()).unwrap();
    let second = shard_wallet::kdf::derive(b"some password", &salt, &cost()).unwrap();
    assert_eq!(first.key, second.key);
    assert_eq!(first.fingerprint, second.fingerprint);
    assert_eq!(first.key.len(), 32);
    assert_eq!(first.fingerprint.len(), 32);
    assert_ne!(first.key, first.fingerprint);
}

#[test]
fn derive_depends_on_password_salt_and_cost() {
    let salt = from_hex("101112131415161718191a1b1c1d1e1f");
    let base = shard_wallet::kdf::derive(b"correct horse battery staple", &salt, &cost()).unwrap();
    let other_password = shard_wallet::kdf::derive(b"wrong password", &salt, &cost()).unwrap();
    assert_eq!(
        other_password.key,
        from_hex("c7f3250fbb31b629cdaccc1e7edee518511d0be827cca04c83589c23b60600e5")
    );
    assert_ne!(base.key, other_password.key);
    let other_salt = shard_wallet::kdf::derive(b"correct horse battery staple", &[0u8; 16], &cost()).unwrap();
    assert_ne!(base.key, other_salt.key);
    let slower = KdfParams { memory_kib: 64, iterations: 3, parallelism: 1 };
    let other_cost = shard_wallet::kdf::derive(b"correct horse battery staple", &salt, &slower).unwrap();
    assert_ne!(base.key, other_cost.key);
}

#[test]
fn derive_accepts_the_empty_password() {
    let salt = from_hex("101112131415161718191a1b1c1d1e1f");
    assert!(shard_wallet::kdf::derive(b"", &salt, &cost()).is_ok());
}

#[test]
fn derive_reports_refused_parameters_as_malformed() {
    let salt = from_hex("101112131415161718191a1b1c1d1e1f");
    let lanes = KdfParams { memory_kib: 64, iterations: 2, parallelism: 0x0100_0000 };
    assert_eq!(shard_wallet::kdf::derive(b"pw", &salt, &lanes).err(), Some(DecryptError::Malformed));
    let no_lanes = KdfParams { memory_kib: 64, iterations: 2, parallelism: 0 };
    assert_eq!(shard_wallet::kdf::derive(b"pw", &salt, &no_lanes).err(), Some(DecryptError::Malformed));
    let no_passes = KdfParams { memory_kib: 64, iterations: 0, parallelism: 1 };
    assert_eq!(shard_wallet::kdf::derive(b"pw", &salt, &no_passes).err(), Some(DecryptError::Malformed));
    let no_memory = KdfParams { memory_kib: 1, iterations: 2, parallelism: 1 };
    assert_eq!(shard_wallet::kdf::derive(b"pw", &salt, &no_memory).err(), Some(DecryptError::Malformed));
    assert_eq!(shard_wallet::kdf::derive(b"pw", &[1, 2, 3], &cost()).err(), Some(DecryptError::Malformed));
    let too_much = KdfParams { memory_kib: u32::MAX, iterations: 1, parallelism: 1 };
    assert_eq!(shard_wallet::kdf::derive(b"pw", &salt, &too_much).err(), Some(DecryptError::Malformed));
    let above = KdfParams { memory_kib: 0x40_0001, iterations: 1, parallelism: 1 };
    assert_eq!(shard_wallet::kdf::derive(b"pw", &salt, &above).err(), Some(DecryptError::Malformed));
}

#[test]
fn split_output_takes_key_then_fingerprint() {
    let raw: Vec<u8> = (0u8..64).collect();
    let derived = split_output(Some(raw)).unwrap();
    assert_eq!(derived.key, (0u8..32).collect::<Vec<u8>>());
    assert_eq!(derived.fingerprint, (32u8..64).collect::<Vec<u8>>());
}

#[test]
fn split_output_refuses_other_lengths() {
    assert_eq!(split_output(None).err(), Some(DecryptError::Malformed));
    assert_eq!(split_output(Some(vec![0u8; 63])).err(), Some(DecryptError::Malformed));
    assert_eq!(split_output(Some(vec![0u8; 65])).err(), Some(DecryptError::Malformed));
    assert_eq!(split_output(Some(Vec::new())).err(), Some(DecryptError::Malformed));
}

#[test]
fn open_known_vector() {
    let ciphertext = from_hex("cea7403d4d606b6e074ec5d3baf39d18d0d1c8a799996bf0265b98b5d48ab919");
    assert_eq!(open(&[0u8; 32], &[0u8; 12], &ciphertext), Ok(vec![0u8; 16]));
}

#[test]
fn open_inverts_the_cipher() {
    let key = [0x42u8; 32];
    let nonce = [7u8; 12];
    let cipher = aes_gcm::Aes256Gcm::new(aes_gcm::Key::<aes_gcm::Aes256Gcm>::from_slice(&key));
    for len in [0usize, 1, 16, 49, 100] {
        let plaintext: Vec<u8> = (0..len).map(|i| i as u8).collect();
        let sealed = cipher.encrypt(aes_gcm::Nonce::from_slice(&nonce), plaintext.as_slice()).unwrap();
        assert_eq!(sealed.len(), len + 16);
        assert_eq!(open(&key, &nonce, &sealed), Ok(plaintext));
    }
}

#[test]
fn open_rejects_a_wrong_key() {
    let ciphertext = from_hex("cea7403d4d606b6e074ec5d3baf39d18d0d1c8a799996bf0265b98b5d48ab919");
    assert_eq!(open(&[1u8; 32], &[0u8; 12], &ciphertext), Err(DecryptError::AuthenticationFailed));
}

#[test]
fn open_rejects_every_single_changed_byte() {
    let ciphertext = from_hex("cea7403d4d606b6e074ec5d3baf39d18d0d1c8a799996bf0265b98b5d48ab919");
    for i in 0..ciphertext.len() {
        let mut changed = ciphertext.clone();
        changed[i] ^= 0x01;
        assert_eq!(open(&[0u8; 32], &[0u8; 12], &changed), Err(DecryptError::AuthenticationFailed));
    }
    for i in 0..12 {
        let mut nonce = [0u8; 12];
        nonce[i] = 0x80;
        assert_eq!(open(&[0u8; 32], &nonce, &ciphertext), Err(DecryptError::AuthenticationFailed));
    }
}

#[test]
fn open_reports_wrong_lengths_as_malformed() {
    let ciphertext = from_hex("cea7403d4d606b6e074ec5d3baf39d18d0d1c8a799996bf0265b98b5d48ab919");
    assert_eq!(open(&[0u8; 31], &[0u8; 12], &ciphertext), Err(DecryptError::Malformed));
    assert_eq!(open(&[0u8; 33], &[0u8; 12], &ciphertext), Err(DecryptError::Malformed));
    assert_eq!(open(&[0u8; 32], &[0u8; 11], &ciphertext), Err(DecryptError::Malformed));
    assert_eq!(open(&[0u8; 32], &[0u8; 13], &ciphertext), Err(DecryptError::Malformed));
    assert_eq!(open(&[0u8; 32], &[0u8; 12], &ciphertext[..15]), Err(DecryptError::Malformed));
    assert_eq!(open(&[0u8; 32], &[0u8; 12], &[]), Err(DecryptError::Malformed));
}

#[test]
fn authenticated_maps_the_cipher_answer() {
    assert_eq!(authenticated(Some(vec![1, 2, 3])), Ok(vec![1u8, 2, 3]));
    assert_eq!(authenticated(Some(Vec::new())), Ok(Vec::new()));
    assert_eq!(authenticated(None), Err(DecryptError::AuthenticationFailed));
}

#[test]
fn keypair_from_bytes_splits_public_and_private() {
    let keypair = Keypair::from_bytes(&payload_of(&[0x7f; 16])).unwrap();
    assert_eq!(
        keypair.public_key(),
        &from_hex("01202122232425262728292a2b2c2d2e2f303132333435363738393a3b3c3d3e3f")
    );
    assert_eq!(keypair.private_key(), &vec![0x7fu8; 16]);
    for len in [16usize, 20, 24, 28, 32] {
        let keypair = Keypair::from_bytes(&payload_of(&vec![5u8; len])).unwrap();
        assert_eq!(keypair.private_key().len(), len);
    }
}

#[test]
fn keypair_from_bytes_refuses_a_bad_public_key() {
    assert_eq!(Keypair::from_bytes(&[]).err(), Some(FormatError::BadPublicKey));
    assert_eq!(Keypair::from_bytes(&[1u8; 32]).err(), Some(FormatError::BadPublicKey));
    let mut wrong_tag = payload_of(&[0x7f; 16]);
    wrong_tag[0] = 2;
    assert_eq!(Keypair::from_bytes(&wrong_tag).err(), Some(FormatError::BadPublicKey));
    wrong_tag[0] = 0;
    assert_eq!(Keypair::from_bytes(&wrong_tag).err(), Some(FormatError::BadPublicKey));
}

#[test]
fn keypair_from_bytes_refuses_a_bad_private_key_length() {
    for len in [0usize, 1, 15, 17, 31, 33, 64] {
        assert_eq!(
            Keypair::from_bytes(&payload_of(&vec![9u8; len])).err(),
            Some(FormatError::BadPrivateKeyLength)
        );
    }
}

#[test]
fn keypair_address_is_base58check_of_the_public_key() {
    let keypair = Keypair::from_bytes(&payload_of(&[0x7f; 16])).unwrap();
    assert_eq!(keypair.address(), "13Btt1f8imFr1ZxDZ12qWY5L8h3HejFcECLeBz8oEJ6aZepT2CD");
    assert_eq!(
        address_of(keypair.public_key()),
        Ok("13Btt1f8imFr1ZxDZ12qWY5L8h3HejFcECLeBz8oEJ6aZepT2CD".to_string())
    );
    let expected = bs58::encode(keypair.public_key()).with_check_version(0).into_string();
    assert_eq!(keypair.address(), expected);
}

#[test]
fn address_of_refuses_a_malformed_public_key() {
    assert_eq!(address_of(&[]), Err(FormatError::BadPublicKey));
    assert_eq!(address_of(&[1u8; 32]), Err(FormatError::BadPublicKey));
    assert_eq!(address_of(&[1u8; 34]), Err(FormatError::BadPublicKey));
    assert_eq!(address_of(&[2u8; 33]), Err(FormatError::BadPublicKey));
    assert!(address_of(&[1u8; 33]).is_ok());
    assert!(is_public_key(&[1u8; 33]));
    assert!(!is_public_key(&[0u8; 33]));
    assert!(!is_public_key(&[1u8; 3]));
}

#[test]
fn keypair_phrase_without_dialect_is_empty() {
    let keypair = Keypair::from_bytes(&payload_of(&[0x7f; 16])).unwrap();
    assert_eq!(keypair.phrase(None), Vec::<String>::new());
}

#[test]
fn keypair_phrase_in_both_dialects() {
    let keypair = Keypair::from_bytes(&payload_of(&[0x7f; 16])).unwrap();
    assert_eq!(
        keypair.phrase(Some(SeedType::Bip39)).join(" "),
        "legal winner thank year wave sausage worth useful legal winner thank yellow"
    );
    let mobile = keypair.phrase(Some(SeedType::Mobile));
    assert_eq!(mobile.len(), 17);
    assert_eq!(mobile[0], "melon");
    assert_eq!(mobile[16], "magnet");
    let long = Keypair::from_bytes(&payload_of(&[0u8; 32])).unwrap();
    assert_eq!(long.phrase(Some(SeedType::Bip39)).len(), 24);
    assert_eq!(long.phrase(Some(SeedType::Mobile)).len(), 33);
}

#[test]
fn clear_empties_the_buffer() {
    let mut secret = vec![1u8, 2, 3, 4];
    clear(&mut secret);
    assert!(secret.is_empty());
    let mut nothing: Vec<u8> = Vec::new();
    clear(&mut nothing);
    assert!(nothing.is_empty());
}

#[test]
fn to_hex_writes_two_lower_case_digits_per_byte() {
    assert_eq!(to_hex(&[]), "");
    assert_eq!(to_hex(&[0x00, 0x0f, 0xa0, 0xff, 0x5c]), "000fa0ff5c");
    assert_eq!(to_hex(&[0x12, 0x34, 0x56, 0x78, 0x9a, 0xbc, 0xde, 0xf0]), "123456789abcdef0");
}

#[test]
fn join_words_puts_one_space_between_words() {
    assert_eq!(join_words(&Vec::new()), "");
    assert_eq!(join_words(&vec!["one".to_string()]), "one");
    assert_eq!(join_words(&vec!["one".to_string(), "two".to_string(), "three".to_string()]), "one two three");
    assert_eq!(join_words(&vec!["".to_string(), "".to_string()]), " ");
}

#[test]
fn keypair_erase_gives_the_key_up() {
    let keypair = Keypair::from_bytes(&payload_of(&[0x7f; 16])).unwrap();
    keypair.erase();
}
