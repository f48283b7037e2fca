use shard_wallet::gf256::multiply;
use shard_wallet::record::{bytes_eq, KdfParams, ShardSet, Sharding, WalletRecord};
use shard_wallet::sharing::{combine, is_consistent, ShareError};

fn unhex(s: &str) -> Vec<u8> {
    (0..s.len() / 2).map(|i| u8::from_str_radix(&s[2 * i..2 * i + 2], 16).unwrap()).collect()
}

fn shard(index: u8, threshold: u8, total: u8, payload: &[u8]) -> WalletRecord {
    WalletRecord {
        format: 2,
        public_key: vec![1u8; 33],
        sharding: Some(Sharding { share_index: index, threshold, total_shares: total }),
        salt: vec![7u8; 16],
        kdf: KdfParams { memory_kib: 64, iterations: 2, parallelism: 1 },
        nonce: vec![9u8; 12],
        ciphertext: payload.to_vec(),
        pwhash: vec![3u8; 32],
    }
}

fn set(records: Vec<WalletRecord>) -> ShardSet {
    ShardSet { records }
}

fn five_shares() -> Vec<Vec<u8>> {
    vec![
        unhex("cd02b93cd7c3"),
        unhex("07fe13a07351"),
        unhex("ca03ba39feec"),
        unhex("2050251fa803"),
        unhex("edad8c8625be"),
    ]
}

#[test]
fn three_of_five_recovers_the_secret_from_every_triple() {
    let shares = five_shares();
    let secret = unhex("00ff10a55a7e");
    for a in 0..5usize {
        for b in 0..5usize {
            for c in 0..5usize {
                if a != b && b != c && a != c {
                    let records = vec![
                        shard(a as u8 + 1, 3, 5, &shares[a]),
                        shard(b as u8 + 1, 3, 5, &shares[b]),
                        shard(c as u8 + 1, 3, 5, &shares[c]),
                    ];
                    assert_eq!(combine(&set(records)), Ok(secret.clone()));
                }
            }
        }
    }
}

#[test]
fn more_shares_than_the_threshold_use_the_first() {
    let shares = five_shares();
    let records = (0..5).map(|i| shard(i as u8 + 1, 3, 5, &shares[i])).collect();
    assert_eq!(combine(&set(records)), Ok(unhex("00ff10a55a7e")));
}

#[test]
fn fewer_shares_than_the_threshold_are_insufficient() {
    let shares = five_shares();
    let two = vec![shard(1, 3, 5, &shares[0]), shard(4, 3, 5, &shares[3])];
    assert_eq!(combine(&set(two)), Err(ShareError::InsufficientShares));
    let one = vec![shard(2, 3, 5, &shares[1])];
    assert_eq!(combine(&set(one)), Err(ShareError::InsufficientShares));
}

#[test]
fn no_shares_are_insufficient() {
    assert_eq!(combine(&set(Vec::new())), Err(ShareError::InsufficientShares));
}

#[test]
fn repeated_index_is_inconsistent() {
    let shares = five_shares();
    let records =
        vec![shard(1, 3, 5, &shares[0]), shard(2, 3, 5, &shares[1]), shard(1, 3, 5, &shares[0])];
    assert_eq!(combine(&set(records)), Err(ShareError::Inconsistent));
}

#[test]
fn different_thresholds_are_inconsistent() {
    let shares = five_shares();
    let records =
        vec![shard(1, 3, 5, &shares[0]), shard(2, 2, 5, &shares[1]), shard(3, 3, 5, &shares[2])];
    assert_eq!(combine(&set(records)), Err(ShareError::Inconsistent));
}

#[test]
fn different_totals_are_inconsistent() {
    let shares = five_shares();
    let records =
        vec![shard(1, 3, 5, &shares[0]), shard(2, 3, 6, &shares[1]), shard(3, 3, 5, &shares[2])];
    assert_eq!(combine(&set(records)), Err(ShareError::Inconsistent));
}

#[test]
fn zero_index_is_inconsistent() {
    let shares = five_shares();
    let records =
        vec![shard(0, 3, 5, &shares[0]), shard(2, 3, 5, &shares[1]), shard(3, 3, 5, &shares[2])];
    assert_eq!(combine(&set(records)), Err(ShareError::Inconsistent));
}

#[test]
fn threshold_above_total_is_inconsistent() {
    let records = vec![shard(1, 3, 2, &[1, 2]), shard(2, 3, 2, &[3, 4]), shard(3, 3, 2, &[5, 6])];
    assert_eq!(combine(&set(records)), Err(ShareError::Inconsistent));
}

#[test]
fn zero_threshold_is_inconsistent() {
    let records = vec![shard(1, 0, 2, &[1, 2])];
    assert_eq!(combine(&set(records)), Err(ShareError::Inconsistent));
}

#[test]
fn unsharded_record_among_shards_is_inconsistent() {
    let shares = five_shares();
    let mut plain = shard(3, 3, 5, &shares[2]);
    plain.sharding = None;
    let records = vec![shard(1, 3, 5, &shares[0]), shard(2, 3, 5, &shares[1]), plain];
    assert_eq!(combine(&set(records)), Err(ShareError::Inconsistent));
}

#[test]
fn different_salt_nonce_or_key_is_inconsistent() {
    let shares = five_shares();
    for field in 0..6 {
        let mut odd = shard(3, 3, 5, &shares[2]);
        match field {
            0 => odd.salt[0] ^= 1,
            1 => odd.nonce[0] ^= 1,
            2 => odd.public_key[5] ^= 1,
            3 => odd.kdf.iterations += 1,
            4 => odd.pwhash[0] ^= 1,
            _ => odd.ciphertext.push(0),
        }
        let records = vec![shard(1, 3, 5, &shares[0]), shard(2, 3, 5, &shares[1]), odd];
        assert!(!is_consistent(&records));
        assert_eq!(combine(&set(records)), Err(ShareError::Inconsistent));
    }
}

#[test]
fn inconsistent_comes_before_insufficient() {
    let shares = five_shares();
    let records = vec![shard(1, 3, 5, &shares[0]), shard(1, 3, 5, &shares[0])];
    assert_eq!(combine(&set(records)), Err(ShareError::Inconsistent));
}

#[test]
fn threshold_one_hands_the_share_back() {
    let records = vec![shard(9, 1, 4, &[10, 20, 30])];
    assert_eq!(combine(&set(records)), Ok(vec![10u8, 20, 30]));
}

#[test]
fn shares_made_with_the_field_recombine() {
    let secret = [0x11u8, 0x22, 0x33, 0x44];
    let slope = [0xa1u8, 0x05, 0xff, 0x00];
    let at = |x: u8| -> Vec<u8> { (0..4).map(|i| secret[i] ^ multiply(slope[i], x)).collect() };
    for (a, b) in [(1u8, 2u8), (7, 200), (255, 1), (33, 34)] {
        let records = vec![shard(a, 2, 255, &at(a)), shard(b, 2, 255, &at(b))];
        assert_eq!(combine(&set(records)), Ok(secret.to_vec()));
    }
}

#[test]
fn empty_payloads_combine_to_nothing() {
    let records = vec![shard(1, 2, 3, &[]), shard(2, 2, 3, &[])];
    assert_eq!(combine(&set(records)), Ok(Vec::new()));
}

#[test]
fn is_consistent_accepts_a_sound_set() {
    let shares = five_shares();
    let records: Vec<WalletRecord> = (0..5).map(|i| shard(i as u8 + 1, 3, 5, &shares[i])).collect();
    assert!(is_consistent(&records));
    assert!(is_consistent(&Vec::new()));
}

#[test]
fn bytes_eq_compares_contents() {
    assert!(bytes_eq(&[1, 2, 3], &[1, 2, 3]));
    assert!(!bytes_eq(&[1, 2, 3], &[1, 2, 4]));
    assert!(!bytes_eq(&[1, 2, 3], &[1, 2]));
    assert!(bytes_eq(&[], &[]));
}
