use shard_wallet::bits::{bits_of, read_bits, spread_bytes, spread_indices};
use shard_wallet::hash::checksum_byte;
use shard_wallet::mnemonic::{
    decode, encode, entropy_len_of, is_supported_len, is_well_grouped, MnemonicError, SeedType,
};
use shard_wallet::vocabulary::{code_at, find_code, index_of, len_of, word_at};
use shard_wallet::wordcode::{code_of_word, word_of_code};

fn phrase(line: &str) -> Vec<String> {
    line.split(' ').map(|w| w.to_string()).collect()
}

fn sample(len: usize, seed: u8) -> Vec<u8> {
    (0..len).map(|i| (i as u8).wrapping_mul(37).wrapping_add(seed).rotate_left(3)).collect()
}

#[test]
fn bip39_zero_entropy_gives_the_standard_phrase() {
    let words = encode(&[0u8; 16], SeedType::Bip39).unwrap();
    assert_eq!(
        words.join(" "),
        "abandon abandon abandon abandon abandon abandon abandon abandon abandon abandon abandon about"
    );
}

#[test]
fn bip39_sevenf_entropy_gives_the_standard_phrase() {
    let words = encode(&[0x7fu8; 16], SeedType::Bip39).unwrap();
    assert_eq!(
        words.join(" "),
        "legal winner thank year wave sausage worth useful legal winner thank yellow"
    );
}

#[test]
fn bip39_counting_entropy_gives_twenty_four_words() {
    let entropy: Vec<u8> = (0u8..32).collect();
    let words = encode(&entropy, SeedType::Bip39).unwrap();
    assert_eq!(
        words.join(" "),
        "abandon amount liar amount expire adjust cage candy arch gather drum bullet absurd math era live bid rhythm alien crouch range attend journey unaware"
    );
}

#[test]
fn bip39_agrees_with_the_reference_codec() {
    for len in [16usize, 20, 24, 28, 32] {
        for seed in [0u8, 1, 77, 200, 255] {
            let entropy = sample(len, seed);
            let ours = encode(&entropy, SeedType::Bip39).unwrap();
            let theirs: Vec<String> = bip39::Mnemonic::from_entropy(&entropy)
                .unwrap()
                .words()
                .map(|w| w.to_string())
                .collect();
            assert_eq!(ours, theirs);
            let parsed = bip39::Mnemonic::parse(ours.join(" ")).unwrap();
            assert_eq!(decode(&ours, SeedType::Bip39), Ok(parsed.to_entropy()));
        }
    }
}

#[test]
fn bip39_word_list_is_the_standard_one() {
    let list = bip39::Language::English.word_list();
    assert_eq!(len_of(SeedType::Bip39), 2048);
    for i in 0..2048u16 {
        let word = word_at(SeedType::Bip39, i);
        assert_eq!(word, list[i as usize]);
        assert_eq!(index_of(SeedType::Bip39, &word), Some(i));
    }
}

#[test]
fn mobile_zero_entropy_phrase() {
    let words = encode(&[0u8; 16], SeedType::Mobile).unwrap();
    assert_eq!(
        words.join(" "),
        "cypress acorn acorn acorn acorn acorn acorn acorn acorn acorn acorn acorn acorn acorn acorn acorn acorn"
    );
}

#[test]
fn mobile_sevenf_entropy_phrase() {
    let words = encode(&[0x7fu8; 16], SeedType::Mobile).unwrap();
    assert_eq!(
        words.join(" "),
        "melon magnet magnet magnet magnet magnet magnet magnet magnet magnet magnet magnet magnet magnet magnet magnet magnet"
    );
}

#[test]
fn mobile_counting_entropy_phrase() {
    let entropy: Vec<u8> = (0u8..32).collect();
    let words = encode(&entropy, SeedType::Mobile).unwrap();
    assert_eq!(
        words.join(" "),
        "ivory acorn agate alder almond amber anchor anvil apricot arbor aspen aster atlas badger bamboo banjo barley basalt basil beacon beech birch bison blossom bobcat bramble brook buffalo burrow cactus camel canary candle"
    );
}

#[test]
fn mobile_word_list_has_a_word_for_every_byte() {
    assert_eq!(len_of(SeedType::Mobile), 256);
    assert_eq!(word_at(SeedType::Mobile, 0), "acorn");
    assert_eq!(word_at(SeedType::Mobile, 127), "magnet");
    assert_eq!(word_at(SeedType::Mobile, 128), "magpie");
    assert_eq!(word_at(SeedType::Mobile, 255), "wasp");
    let mut previous = String::new();
    for i in 0..256u16 {
        let word = word_at(SeedType::Mobile, i);
        assert!(previous < word);
        assert_eq!(index_of(SeedType::Mobile, &word), Some(i));
        previous = word;
    }
}

#[test]
fn word_counts_per_dialect() {
    for (len, bip39_words, mobile_words) in
        [(16usize, 12usize, 17usize), (20, 15, 21), (24, 18, 25), (28, 21, 29), (32, 24, 33)]
    {
        let entropy = sample(len, 5);
        assert_eq!(encode(&entropy, SeedType::Bip39).unwrap().len(), bip39_words);
        assert_eq!(encode(&entropy, SeedType::Mobile).unwrap().len(), mobile_words);
        assert_eq!(entropy_len_of(SeedType::Bip39, bip39_words), Some(len));
        assert_eq!(entropy_len_of(SeedType::Mobile, mobile_words), Some(len));
    }
}

#[test]
fn decode_inverts_encode_for_every_length_and_dialect() {
    for seed_type in [SeedType::Bip39, SeedType::Mobile] {
        for len in [16usize, 20, 24, 28, 32] {
            for seed in 0..40u8 {
                let entropy = sample(len, seed);
                let words = encode(&entropy, seed_type).unwrap();
                assert_eq!(decode(&words, seed_type), Ok(entropy));
            }
        }
    }
}

#[test]
fn encode_refuses_unsupported_lengths() {
    for len in [0usize, 1, 15, 17, 18, 31, 33, 64] {
        let entropy = vec![1u8; len];
        assert_eq!(encode(&entropy, SeedType::Bip39), Err(MnemonicError::UnsupportedEntropyLength));
        assert_eq!(encode(&entropy, SeedType::Mobile), Err(MnemonicError::UnsupportedEntropyLength));
        assert!(!is_supported_len(len));
    }
    assert!(is_supported_len(16) && is_supported_len(32));
}

#[test]
fn decode_refuses_wrong_word_counts() {
    let eleven = phrase("abandon abandon abandon abandon abandon abandon abandon abandon abandon abandon about");
    assert_eq!(decode(&eleven, SeedType::Bip39), Err(MnemonicError::InvalidPhrase));
    assert_eq!(decode(&[], SeedType::Bip39), Err(MnemonicError::InvalidPhrase));
    assert_eq!(decode(&[], SeedType::Mobile), Err(MnemonicError::InvalidPhrase));
    let twelve = encode(&[0u8; 16], SeedType::Bip39).unwrap();
    assert_eq!(decode(&twelve, SeedType::Mobile), Err(MnemonicError::InvalidPhrase));
    assert_eq!(entropy_len_of(SeedType::Bip39, 13), None);
    assert_eq!(entropy_len_of(SeedType::Bip39, 27), None);
    assert_eq!(entropy_len_of(SeedType::Mobile, 12), None);
    assert_eq!(entropy_len_of(SeedType::Mobile, 0), None);
}

#[test]
fn decode_reports_unsupported_entropy_lengths() {
    for count in [3usize, 9, 27, 30] {
        let words = vec!["abandon".to_string(); count];
        assert_eq!(decode(&words, SeedType::Bip39), Err(MnemonicError::UnsupportedEntropyLength));
    }
    for count in [1usize, 5, 16, 18, 34] {
        let words = vec!["acorn".to_string(); count];
        assert_eq!(decode(&words, SeedType::Mobile), Err(MnemonicError::UnsupportedEntropyLength));
    }
    let mut nine = vec!["abandon".to_string(); 9];
    nine[8] = "xyzzy".to_string();
    assert_eq!(decode(&nine, SeedType::Bip39), Err(MnemonicError::InvalidPhrase));
    for count in [1usize, 2, 13, 14, 25] {
        let words = vec!["abandon".to_string(); count];
        assert_eq!(decode(&words, SeedType::Bip39), Err(MnemonicError::InvalidPhrase));
    }
}

#[test]
fn word_counts_that_carry_whole_bytes() {
    assert!(is_well_grouped(SeedType::Bip39, 3));
    assert!(is_well_grouped(SeedType::Bip39, 12));
    assert!(!is_well_grouped(SeedType::Bip39, 0));
    assert!(!is_well_grouped(SeedType::Bip39, 13));
    assert!(is_well_grouped(SeedType::Mobile, 1));
    assert!(is_well_grouped(SeedType::Mobile, 17));
    assert!(!is_well_grouped(SeedType::Mobile, 0));
}

#[test]
fn decode_refuses_words_outside_the_list() {
    let mut words = encode(&[0u8; 16], SeedType::Bip39).unwrap();
    words[4] = "abandonn".to_string();
    assert_eq!(decode(&words, SeedType::Bip39), Err(MnemonicError::InvalidPhrase));
    words[4] = "Abandon".to_string();
    assert_eq!(decode(&words, SeedType::Bip39), Err(MnemonicError::InvalidPhrase));
    words[4] = "".to_string();
    assert_eq!(decode(&words, SeedType::Bip39), Err(MnemonicError::InvalidPhrase));
    words[4] = "acorn".to_string();
    assert_eq!(decode(&words, SeedType::Bip39), Err(MnemonicError::InvalidPhrase));
    let mut mobile = encode(&[0u8; 16], SeedType::Mobile).unwrap();
    mobile[16] = "abandon".to_string();
    assert_eq!(decode(&mobile, SeedType::Mobile), Err(MnemonicError::InvalidPhrase));
}

#[test]
fn decode_detects_a_wrong_checksum() {
    let words = phrase("abandon abandon abandon abandon abandon abandon abandon abandon abandon abandon abandon abandon");
    assert_eq!(decode(&words, SeedType::Bip39), Err(MnemonicError::ChecksumMismatch));
    let mut mobile = encode(&[0u8; 16], SeedType::Mobile).unwrap();
    mobile[0] = "acorn".to_string();
    assert_eq!(decode(&mobile, SeedType::Mobile), Err(MnemonicError::ChecksumMismatch));
    let mut changed = encode(&[0u8; 16], SeedType::Mobile).unwrap();
    changed[9] = "zebra".to_string();
    assert_eq!(decode(&changed, SeedType::Mobile), Err(MnemonicError::InvalidPhrase));
    changed[9] = "wasp".to_string();
    assert_eq!(decode(&changed, SeedType::Mobile), Err(MnemonicError::ChecksumMismatch));
}

#[test]
fn checksum_byte_is_the_first_byte_of_sha256() {
    assert_eq!(checksum_byte(b"abc"), 0xba);
    assert_eq!(checksum_byte(b""), 0xe3);
    assert_eq!(checksum_byte(&[0u8; 16]), 0x37);
    assert_eq!(checksum_byte(&[0x7fu8; 16]), 0x87);
}

#[test]
fn word_codes_hold_the_letters() {
    assert_eq!(code_of_word("abandon"), Some(0x6162616e646f6e00));
    assert_eq!(word_of_code(0x6162616e646f6e00), "abandon");
    assert_eq!(code_of_word("zoo"), Some(0x7a6f6f0000000000));
    assert_eq!(word_of_code(0x7a6f6f0000000000), "zoo");
    assert_eq!(code_of_word("abstract"), Some(0x6162737472616374));
    assert_eq!(word_of_code(0x6162737472616374), "abstract");
    assert_eq!(code_of_word(""), None);
    assert_eq!(code_of_word("abstracts"), None);
    assert_eq!(code_of_word("Zoo"), None);
    assert_eq!(code_of_word("zo o"), None);
    assert_eq!(code_of_word("z\u{e9}ro"), None);
}

#[test]
fn find_code_finds_exactly_the_listed_codes() {
    assert_eq!(code_at(SeedType::Bip39, 0), 0x6162616e646f6e00);
    assert_eq!(find_code(SeedType::Bip39, 0x6162616e646f6e00), Some(0));
    assert_eq!(find_code(SeedType::Bip39, 0x7a6f6f0000000000), Some(2047));
    assert_eq!(find_code(SeedType::Bip39, 0x6162616e646f6e01), None);
    assert_eq!(find_code(SeedType::Bip39, 0), None);
    assert_eq!(find_code(SeedType::Bip39, u64::MAX), None);
    assert_eq!(find_code(SeedType::Mobile, code_of_word("wasp").unwrap()), Some(255));
    assert_eq!(find_code(SeedType::Mobile, code_of_word("zoo").unwrap()), None);
}

#[test]
fn bits_are_written_highest_first() {
    assert_eq!(bits_of(0b101, 3), vec![true, false, true]);
    assert_eq!(bits_of(0b101, 5), vec![false, false, true, false, true]);
    assert_eq!(bits_of(0xffff, 0), Vec::<bool>::new());
    assert_eq!(
        spread_bytes(&[0x80, 0x01]),
        vec![
            true, false, false, false, false, false, false, false, false, false, false, false,
            false, false, false, true
        ]
    );
    assert_eq!(spread_indices(&vec![3u16, 2047], 11).len(), 22);
    assert_eq!(spread_indices(&vec![5u16, 2], 3), vec![true, false, true, false, true, false]);
}

#[test]
fn read_bits_reads_groups() {
    let bits = spread_bytes(&[0b1010_1100, 0b0101_0011]);
    assert_eq!(read_bits(&bits, 0, 8), 0b1010_1100);
    assert_eq!(read_bits(&bits, 8, 8), 0b0101_0011);
    assert_eq!(read_bits(&bits, 4, 8), 0b1100_0101);
    assert_eq!(read_bits(&bits, 0, 11), 0b1010_1100_010);
    assert_eq!(read_bits(&bits, 0, 16), 0b1010_1100_0101_0011);
    assert_eq!(read_bits(&bits, 7, 0), 0);
}
