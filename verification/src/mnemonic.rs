//! The mnemonic codec: entropy to words and back, in two dialects.
//!
//! The BIP-39 dialect appends the highest bits of the checksum byte to the
//! entropy, one bit for every four bytes, and spells each group of 11 bits as
//! a word. The mobile dialect spells the checksum byte as the first word and
//! then each byte of the entropy as a word.

use crate::bits::{
    bits_of, bytes_as_nats, gather, indices_as_nats, lemma_gather_spread, lemma_spread_gather,
    lemma_spread_len, lemma_spread_push, lemma_to_bits_len, lemma_to_from_bits, nats_as_bytes,
    read_bits, spread, spread_bytes, spread_indices, to_bits,
};
use crate::hash::{check_byte, checksum_byte};
use crate::text::texts;
use crate::vocabulary::{
    in_vocabulary, index_of, lemma_index_of_word, list_len, word_at, word_index, word_text,
};
use vstd::arithmetic::power2::lemma2_to64;
use vstd::prelude::*;
use vstd::slice::slice_to_vec;

verus! {

/// The dialect of a phrase: its word list, its grouping of bits and the
/// place of its checksum.
#[derive(Clone, Copy, Debug, PartialEq, Eq, Structural)]
pub enum SeedType {
    /// Groups of 11 bits into a list of 2048 words, the checksum bits last.
    Bip39,
    /// One word of a list of 256 for each byte, the checksum byte first.
    Mobile,
}

/// Why a phrase or an entropy was refused.
#[derive(Clone, Copy, Debug, PartialEq, Eq, Structural)]
pub enum MnemonicError {
    /// The number of words fits no whole number of bytes, or a word is not
    /// in the list.
    InvalidPhrase,
    /// The words are well formed, but the checksum does not fit the entropy.
    ChecksumMismatch,
    /// The entropy, given or carried by a phrase, has a length that the
    /// dialects do not encode.
    UnsupportedEntropyLength,
}

/// The lengths of entropy, in bytes, that both dialects encode.
pub open spec fn supported_entropy_len(n: int) -> bool {
    n == 16 || n == 20 || n == 24 || n == 28 || n == 32
}

/// The number of words of a phrase for `n` bytes of entropy.
pub open spec fn word_count(t: SeedType, n: int) -> int {
    match t {
        SeedType::Bip39 => 3 * n / 4,
        SeedType::Mobile => n + 1,
    }
}

/// The number of bytes of entropy in a phrase of `m` words.
pub open spec fn entropy_len(t: SeedType, m: int) -> int {
    match t {
        SeedType::Bip39 => m / 3 * 4,
        SeedType::Mobile => m - 1,
    }
}

/// Whether `m` words of the dialect carry a whole number of bytes and a
/// checksum: a multiple of three words but none in the BIP-39 dialect, one
/// word at least in the mobile dialect.
pub open spec fn well_grouped(t: SeedType, m: int) -> bool {
    match t {
        SeedType::Bip39 => m > 0 && m % 3 == 0,
        SeedType::Mobile => m > 0,
    }
}

/// Whether a phrase of the dialect can have `m` words.
pub open spec fn valid_word_count(t: SeedType, m: int) -> bool {
    well_grouped(t, m) && supported_entropy_len(entropy_len(t, m))
}

/// The word indices of the phrase for an entropy.
pub open spec fn phrase_indices(t: SeedType, e: Seq<u8>) -> Seq<nat> {
    match t {
        SeedType::Bip39 => gather(
            spread(bytes_as_nats(e.push(check_byte(e))), 8).take(11 * word_count(t, e.len() as int)),
            11,
        ),
        SeedType::Mobile => bytes_as_nats(seq![check_byte(e)] + e),
    }
}

/// The phrase for an entropy.
pub open spec fn encode_spec(t: SeedType, e: Seq<u8>) -> Seq<Seq<char>> {
    let indices = phrase_indices(t, e);
    Seq::new(indices.len(), |k: int| word_text(t, indices[k] as int))
}

/// The entropy that word indices carry.
pub open spec fn indices_entropy(t: SeedType, indices: Seq<nat>) -> Seq<u8> {
    match t {
        SeedType::Bip39 => nats_as_bytes(
            gather(spread(indices, 11).take(8 * entropy_len(t, indices.len() as int)), 8),
        ),
        SeedType::Mobile => nats_as_bytes(indices.drop_first()),
    }
}

/// Whether the checksum that word indices carry is that of their entropy.
pub open spec fn indices_checked(t: SeedType, indices: Seq<nat>) -> bool {
    let e = indices_entropy(t, indices);
    match t {
        SeedType::Bip39 => spread(indices, 11).skip(8 * (e.len() as int)) == to_bits(
            check_byte(e) as nat,
            8,
        ).take(e.len() as int / 4),
        SeedType::Mobile => indices[0] == check_byte(e) as nat,
    }
}

/// The word indices of a phrase whose words are all in the list.
pub open spec fn words_indices(t: SeedType, words: Seq<Seq<char>>) -> Seq<nat> {
    Seq::new(words.len(), |k: int| word_index(t, words[k]) as nat)
}

/// What decoding a phrase gives.
pub open spec fn decode_spec(t: SeedType, words: Seq<Seq<char>>) -> Result<Seq<u8>, MnemonicError> {
    if !well_grouped(t, words.len() as int) || !(forall|k: int|
        0 <= k < words.len() ==> in_vocabulary(t, #[trigger] words[k])) {
        Err(MnemonicError::InvalidPhrase)
    } else if !supported_entropy_len(entropy_len(t, words.len() as int)) {
        Err(MnemonicError::UnsupportedEntropyLength)
    } else if indices_checked(t, words_indices(t, words)) {
        Ok(indices_entropy(t, words_indices(t, words)))
    } else {
        Err(MnemonicError::ChecksumMismatch)
    }
}

/// A result with the bytes of its value.
pub open spec fn bytes_result(r: Result<Vec<u8>, MnemonicError>) -> Result<Seq<u8>, MnemonicError> {
    match r {
        Ok(v) => Ok(v@),
        Err(e) => Err(e),
    }
}

/// The bits of the entropy with its checksum byte are the bits of the
/// entropy, then the eight bits of the checksum byte.
proof fn lemma_bip39_stream(e: Seq<u8>)
    requires
        supported_entropy_len(e.len() as int),
    ensures
        spread(bytes_as_nats(e.push(check_byte(e))), 8) == spread(bytes_as_nats(e), 8) + to_bits(
            check_byte(e) as nat,
            8,
        ),
        spread(bytes_as_nats(e), 8).len() == 8 * e.len(),
        to_bits(check_byte(e) as nat, 8).len() == 8,
{
    let h = check_byte(e);
    assert(bytes_as_nats(e.push(h)) =~= bytes_as_nats(e).push(h as nat));
    lemma_spread_push(bytes_as_nats(e), h as nat, 8);
    lemma_spread_len(bytes_as_nats(e), 8);
    lemma_to_bits_len(h as nat, 8);
}

/// The indices of a phrase are as many as the dialect has words for the
/// entropy, and each is an index into the list.
pub proof fn lemma_phrase_indices(t: SeedType, e: Seq<u8>)
    requires
        supported_entropy_len(e.len() as int),
    ensures
        phrase_indices(t, e).len() == word_count(t, e.len() as int),
        valid_word_count(t, word_count(t, e.len() as int)),
        entropy_len(t, word_count(t, e.len() as int)) == e.len(),
        forall|k: int|
            0 <= k < phrase_indices(t, e).len() ==> #[trigger] phrase_indices(t, e)[k] < list_len(
                t,
            ),
{
    lemma2_to64();
    match t {
        SeedType::Bip39 => {
            lemma_bip39_stream(e);
            let m = word_count(t, e.len() as int);
            let taken = spread(bytes_as_nats(e.push(check_byte(e))), 8).take(11 * m);
            assert(taken.len() == 11 * m);
            lemma_spread_gather(taken, 11);
        },
        SeedType::Mobile => {},
    }
}

/// Decoding the phrase of an entropy gives the entropy back.
pub proof fn lemma_decode_encode(t: SeedType, e: Seq<u8>)
    requires
        supported_entropy_len(e.len() as int),
    ensures
        decode_spec(t, encode_spec(t, e)) == Ok::<Seq<u8>, MnemonicError>(e),
{
    let n = e.len() as int;
    let m = word_count(t, n);
    let indices = phrase_indices(t, e);
    let words = encode_spec(t, e);
    lemma_phrase_indices(t, e);
    lemma2_to64();
    assert forall|k: int| 0 <= k < words.len() implies in_vocabulary(t, #[trigger] words[k])
        && word_index(t, words[k]) == indices[k] by {
        lemma_index_of_word(t, indices[k] as int);
    }
    assert(words_indices(t, words) =~= indices);
    match t {
        SeedType::Bip39 => {
            lemma_bip39_stream(e);
            let all = spread(bytes_as_nats(e.push(check_byte(e))), 8);
            let taken = all.take(11 * m);
            lemma_spread_gather(taken, 11);
            assert(spread(indices, 11) == taken);
            assert(taken.take(8 * n) =~= spread(bytes_as_nats(e), 8));
            lemma_gather_spread(bytes_as_nats(e), 8);
            assert(nats_as_bytes(bytes_as_nats(e)) =~= e);
            assert(indices_entropy(t, indices) == e);
            assert(taken.skip(8 * n) =~= to_bits(check_byte(e) as nat, 8).take(n / 4));
        },
        SeedType::Mobile => {
            assert(indices.drop_first() =~= bytes_as_nats(e));
            assert(nats_as_bytes(bytes_as_nats(e)) =~= e);
        },
    }
}

/// The indices of a BIP-39 phrase that carry a checked entropy are the
/// indices of the phrase for that entropy.
proof fn lemma_reencode_bip39(indices: Seq<nat>, e: Seq<u8>)
    requires
        valid_word_count(SeedType::Bip39, indices.len() as int),
        forall|k: int| 0 <= k < indices.len() ==> #[trigger] indices[k] < 2048,
        e == indices_entropy(SeedType::Bip39, indices),
        indices_checked(SeedType::Bip39, indices),
    ensures
        e.len() == entropy_len(SeedType::Bip39, indices.len() as int),
        phrase_indices(SeedType::Bip39, e) == indices,
{
    let m = indices.len() as int;
    let n = m / 3 * 4;
    assert(m == 12 || m == 15 || m == 18 || m == 21 || m == 24);
    assert(11 * m == 8 * n + n / 4 && 3 * n / 4 == m);
    lemma2_to64();
    let bits = spread(indices, 11);
    lemma_spread_len(indices, 11);
    assert(bits.len() == 11 * m);
    let head = bits.take(8 * n);
    assert(head.len() == 8 * n);
    lemma_spread_gather(head, 8);
    let vals = gather(head, 8);
    assert(vals.len() == n);
    assert(e.len() == n);
    assert(bytes_as_nats(e) =~= vals) by {
        assert forall|k: int| 0 <= k < n implies bytes_as_nats(e)[k] == vals[k] by {
            assert(vals[k] < 256);
        }
    }
    lemma_bip39_stream(e);
    let all = spread(bytes_as_nats(e.push(check_byte(e))), 8);
    assert(all == head + to_bits(check_byte(e) as nat, 8));
    let taken = all.take(11 * m);
    let tail = bits.skip(8 * n);
    assert(tail == to_bits(check_byte(e) as nat, 8).take(n / 4));
    assert(taken =~= head + tail);
    assert(head + tail =~= bits);
    lemma_gather_spread(indices, 11);
}

/// The indices of a mobile phrase that carry a checked entropy are the
/// indices of the phrase for that entropy.
proof fn lemma_reencode_mobile(indices: Seq<nat>, e: Seq<u8>)
    requires
        valid_word_count(SeedType::Mobile, indices.len() as int),
        forall|k: int| 0 <= k < indices.len() ==> #[trigger] indices[k] < 256,
        e == indices_entropy(SeedType::Mobile, indices),
        indices_checked(SeedType::Mobile, indices),
    ensures
        e.len() == entropy_len(SeedType::Mobile, indices.len() as int),
        phrase_indices(SeedType::Mobile, e) == indices,
{
    let again = bytes_as_nats(seq![check_byte(e)] + e);
    assert(again.len() == indices.len());
    assert forall|k: int| 0 <= k < indices.len() implies again[k] == indices[k] by {
        if k > 0 {
            assert(e[k - 1] == (indices.drop_first()[k - 1] % 256) as u8);
            assert(indices[k] < 256);
        }
    }
    assert(again =~= indices);
}

/// Encoding the entropy that a phrase decodes to gives the phrase back.
pub proof fn lemma_encode_decode(t: SeedType, words: Seq<Seq<char>>, e: Seq<u8>)
    requires
        decode_spec(t, words) == Ok::<Seq<u8>, MnemonicError>(e),
    ensures
        supported_entropy_len(e.len() as int),
        encode_spec(t, e) == words,
{
    let m = words.len() as int;
    let indices = words_indices(t, words);
    assert(valid_word_count(t, m));
    assert(indices_checked(t, indices));
    assert(e == indices_entropy(t, indices));
    assert forall|k: int| 0 <= k < m implies #[trigger] indices[k] < list_len(t) && word_text(
        t,
        indices[k] as int,
    ) == words[k] by {
        assert(in_vocabulary(t, words[k]));
    }
    match t {
        SeedType::Bip39 => lemma_reencode_bip39(indices, e),
        SeedType::Mobile => lemma_reencode_mobile(indices, e),
    }
    assert(encode_spec(t, e) =~= words);
}

/// Whether both dialects encode entropy of `n` bytes.
pub fn is_supported_len(n: usize) -> (b: bool)
    ensures
        b == supported_entropy_len(n as int),
{
    n == 16 || n == 20 || n == 24 || n == 28 || n == 32
}

/// Whether `m` words of the dialect carry a whole number of bytes and a
/// checksum.
pub fn is_well_grouped(t: SeedType, m: usize) -> (b: bool)
    ensures
        b == well_grouped(t, m as int),
{
    match t {
        SeedType::Bip39 => m > 0 && m % 3 == 0,
        SeedType::Mobile => m > 0,
    }
}

/// The number of bytes of entropy in a phrase of `m` words; `None` where no
/// phrase of the dialect has `m` words.
pub fn entropy_len_of(t: SeedType, m: usize) -> (r: Option<usize>)
    ensures
        match r {
            Some(n) => valid_word_count(t, m as int) && n == entropy_len(t, m as int),
            None => !valid_word_count(t, m as int),
        },
{
    match t {
        SeedType::Bip39 => {
            if m == 12 || m == 15 || m == 18 || m == 21 || m == 24 {
                Some(m / 3 * 4)
            } else {
                None
            }
        },
        SeedType::Mobile => {
            if m == 17 || m == 21 || m == 25 || m == 29 || m == 33 {
                Some(m - 1)
            } else {
                None
            }
        },
    }
}

/// Computes the word indices of the BIP-39 phrase for an entropy.
fn bip39_indices(entropy: &[u8]) -> (indices: Vec<u16>)
    requires
        supported_entropy_len(entropy@.len() as int),
    ensures
        indices_as_nats(indices@) == phrase_indices(SeedType::Bip39, entropy@),
{
    let n = entropy.len();
    let m = 3 * n / 4;
    let mut stream = slice_to_vec(entropy);
    stream.push(checksum_byte(entropy));
    let bits = spread_bytes(stream.as_slice());
    let ghost taken = bits@.take(11 * m);
    proof {
        lemma_bip39_stream(entropy@);
        lemma_phrase_indices(SeedType::Bip39, entropy@);
    }
    let mut indices: Vec<u16> = Vec::new();
    let mut k: usize = 0;
    while k < m
        invariant
            k <= m,
            m <= 24,
            bits@.len() >= 11 * m,
            taken == bits@.take(11 * m),
            gather(taken, 11).len() == m,
            indices@.len() == k,
            forall|j: int| 0 <= j < k ==> indices@[j] as nat == gather(taken, 11)[j],
        decreases m - k,
    {
        let v = read_bits(&bits, 11 * k, 11);
        assert(taken.subrange(k * 11, k * 11 + 11) =~= bits@.subrange(11 * k, 11 * k + 11));
        indices.push(v);
        k = k + 1;
    }
    assert(indices_as_nats(indices@) =~= phrase_indices(SeedType::Bip39, entropy@));
    indices
}

/// Computes the word indices of the mobile phrase for an entropy.
fn mobile_indices(entropy: &[u8]) -> (indices: Vec<u16>)
    ensures
        indices_as_nats(indices@) == phrase_indices(SeedType::Mobile, entropy@),
{
    let mut indices: Vec<u16> = Vec::new();
    indices.push(checksum_byte(entropy) as u16);
    let mut k: usize = 0;
    while k < entropy.len()
        invariant
            k <= entropy.len(),
            indices@.len() == k + 1,
            indices@[0] == check_byte(entropy@),
            forall|j: int| 0 <= j < k ==> indices@[j + 1] == entropy@[j],
        decreases entropy.len() - k,
    {
        indices.push(entropy[k] as u16);
        k = k + 1;
    }
    assert(indices_as_nats(indices@) =~= phrase_indices(SeedType::Mobile, entropy@));
    indices
}

/// Spells an entropy as a phrase of the dialect.
///
/// The entropy has to have one of the supported lengths; any other is
/// refused with `UnsupportedEntropyLength`.
pub fn encode(entropy: &[u8], seed_type: SeedType) -> (r: Result<Vec<String>, MnemonicError>)
    ensures
        match r {
            Ok(words) => supported_entropy_len(entropy@.len() as int) && texts(words@)
                == encode_spec(seed_type, entropy@) && words@.len() == word_count(
                seed_type,
                entropy@.len() as int,
            ),
            Err(err) => !supported_entropy_len(entropy@.len() as int) && err
                == MnemonicError::UnsupportedEntropyLength,
        },
{
    if !is_supported_len(entropy.len()) {
        return Err(MnemonicError::UnsupportedEntropyLength);
    }
    let indices = match seed_type {
        SeedType::Bip39 => bip39_indices(entropy),
        SeedType::Mobile => mobile_indices(entropy),
    };
    proof {
        lemma_phrase_indices(seed_type, entropy@);
    }
    let ghost wanted = phrase_indices(seed_type, entropy@);
    let mut words: Vec<String> = Vec::new();
    let mut k: usize = 0;
    while k < indices.len()
        invariant
            k <= indices.len(),
            indices_as_nats(indices@) == wanted,
            forall|j: int| 0 <= j < wanted.len() ==> #[trigger] wanted[j] < list_len(seed_type),
            words@.len() == k,
            forall|j: int| 0 <= j < k ==> (#[trigger] words@[j])@ == word_text(
                seed_type,
                wanted[j] as int,
            ),
        decreases indices.len() - k,
    {
        assert(indices_as_nats(indices@)[k as int] == indices@[k as int]);
        let w = word_at(seed_type, indices[k]);
        words.push(w);
        k = k + 1;
    }
    assert(texts(words@) =~= encode_spec(seed_type, entropy@));
    Ok(words)
}

/// Reads the entropy out of the word indices of a BIP-39 phrase and holds
/// the checksum bits against it.
fn bip39_entropy(indices: &Vec<u16>, n: usize) -> (r: Result<Vec<u8>, MnemonicError>)
    requires
        valid_word_count(SeedType::Bip39, indices@.len() as int),
        n == entropy_len(SeedType::Bip39, indices@.len() as int),
    ensures
        bytes_result(r) == (if indices_checked(SeedType::Bip39, indices_as_nats(indices@)) {
            Ok::<Seq<u8>, MnemonicError>(
                indices_entropy(SeedType::Bip39, indices_as_nats(indices@)),
            )
        } else {
            Err::<Seq<u8>, MnemonicError>(MnemonicError::ChecksumMismatch)
        }),
{
    let ghost values = indices_as_nats(indices@);
    let bits = spread_indices(indices, 11);
    proof {
        lemma_spread_len(values, 11);
    }
    let ghost head = bits@.take(8 * n);
    let mut entropy: Vec<u8> = Vec::new();
    let mut j: usize = 0;
    proof {
        vstd::arithmetic::div_mod::lemma_div_by_multiple(n as int, 8);
    }
    while j < n
        invariant
            j <= n <= 32,
            bits@.len() == 11 * indices@.len(),
            8 * n + n / 4 == bits@.len(),
            head == bits@.take(8 * n),
            gather(head, 8).len() == n,
            entropy@.len() == j,
            forall|i: int| 0 <= i < j ==> entropy@[i] == nats_as_bytes(gather(head, 8))[i],
        decreases n - j,
    {
        let v = read_bits(&bits, 8 * j, 8);
        proof {
            let group = bits@.subrange(8 * j, 8 * j + 8);
            assert(head.subrange(j * 8, j * 8 + 8) =~= group);
            lemma_to_from_bits(group);
            lemma2_to64();
        }
        entropy.push(v as u8);
        j = j + 1;
    }
    assert(entropy@ =~= indices_entropy(SeedType::Bip39, values));
    let expected = bits_of(checksum_byte(entropy.as_slice()) as u16, 8);
    let ghost tail = bits@.skip(8 * n);
    let ghost wanted = expected@.take(n as int / 4);
    let mut b: usize = 0;
    while b < n / 4
        invariant
            b <= n / 4,
            n <= 32,
            expected@.len() == 8,
            8 * n + n / 4 == bits@.len(),
            tail == bits@.skip(8 * n),
            wanted == expected@.take(n as int / 4),
            bits@ == spread(values, 11),
            values == indices_as_nats(indices@),
            entropy@ == indices_entropy(SeedType::Bip39, values),
            entropy@.len() == n,
            expected@ == to_bits(check_byte(entropy@) as nat, 8),
            forall|i: int| 0 <= i < b ==> tail[i] == wanted[i],
        decreases n / 4 - b,
    {
        if bits[8 * n + b] != expected[b] {
            assert(tail[b as int] != wanted[b as int]);
            return Err(MnemonicError::ChecksumMismatch);
        }
        b = b + 1;
    }
    assert(tail =~= wanted);
    Ok(entropy)
}

/// Reads the entropy out of the word indices of a mobile phrase and holds
/// the checksum word against it.
fn mobile_entropy(indices: &Vec<u16>) -> (r: Result<Vec<u8>, MnemonicError>)
    requires
        valid_word_count(SeedType::Mobile, indices@.len() as int),
        forall|k: int| 0 <= k < indices@.len() ==> indices@[k] < 256,
    ensures
        bytes_result(r) == (if indices_checked(SeedType::Mobile, indices_as_nats(indices@)) {
            Ok::<Seq<u8>, MnemonicError>(
                indices_entropy(SeedType::Mobile, indices_as_nats(indices@)),
            )
        } else {
            Err::<Seq<u8>, MnemonicError>(MnemonicError::ChecksumMismatch)
        }),
{
    let ghost values = indices_as_nats(indices@);
    let mut entropy: Vec<u8> = Vec::new();
    let mut j: usize = 1;
    while j < indices.len()
        invariant
            1 <= j <= indices.len(),
            values == indices_as_nats(indices@),
            entropy@.len() == j - 1,
            forall|i: int| 0 <= i < j - 1 ==> entropy@[i] == nats_as_bytes(values.drop_first())[i],
        decreases indices.len() - j,
    {
        entropy.push((indices[j] % 256) as u8);
        j = j + 1;
    }
    assert(entropy@ =~= indices_entropy(SeedType::Mobile, values));
    if indices[0] == checksum_byte(entropy.as_slice()) as u16 {
        Ok(entropy)
    } else {
        Err(MnemonicError::ChecksumMismatch)
    }
}

/// Reads a phrase of the dialect back into its entropy.
///
/// A number of words that carries no whole number of bytes, or a word that
/// the list lacks, gives `InvalidPhrase`; words that carry an entropy of a
/// length that is not supported give `UnsupportedEntropyLength`; a
/// well-formed phrase whose checksum does not fit gives `ChecksumMismatch`.
pub fn decode(words: &[String], seed_type: SeedType) -> (r: Result<Vec<u8>, MnemonicError>)
    ensures
        bytes_result(r) == decode_spec(seed_type, texts(words@)),
{
    if !is_well_grouped(seed_type, words.len()) {
        return Err(MnemonicError::InvalidPhrase);
    }
    let ghost phrase = texts(words@);
    let mut indices: Vec<u16> = Vec::new();
    let mut k: usize = 0;
    while k < words.len()
        invariant
            k <= words.len(),
            phrase == texts(words@),
            indices@.len() == k,
            forall|j: int| 0 <= j < k ==> in_vocabulary(seed_type, #[trigger] phrase[j]),
            forall|j: int|
                0 <= j < k ==> #[trigger] indices@[j] == word_index(seed_type, phrase[j]),
        decreases words.len() - k,
    {
        match index_of(seed_type, words[k].as_str()) {
            Some(i) => {
                indices.push(i);
            },
            None => {
                assert(!in_vocabulary(seed_type, phrase[k as int]));
                return Err(MnemonicError::InvalidPhrase);
            },
        }
        k = k + 1;
    }
    assert(indices_as_nats(indices@) =~= words_indices(seed_type, phrase));
    let n = match entropy_len_of(seed_type, words.len()) {
        Some(n) => n,
        None => {
            return Err(MnemonicError::UnsupportedEntropyLength);
        },
    };
    match seed_type {
        SeedType::Bip39 => bip39_entropy(&indices, n),
        SeedType::Mobile => mobile_entropy(&indices),
    }
}

} // verus!
