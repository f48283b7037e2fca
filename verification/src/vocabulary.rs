//! The words of a dialect by index, and the index of a word.

use crate::mnemonic::SeedType;
use crate::wordcode::{
    code_of_word, code_text, is_word_code, lemma_code_of_text, lemma_text_of_code, word_of_code,
};
use crate::wordlists::{
    bip39_code, bip39_code_at, lemma_bip39_rise, lemma_bip39_words, lemma_mobile_rise,
    lemma_mobile_words, mobile_code, mobile_code_at, BIP39_LEN, MOBILE_LEN,
};
use vstd::prelude::*;

verus! {

/// The number of words of a dialect.
pub open spec fn list_len(t: SeedType) -> int {
    match t {
        SeedType::Bip39 => 2048,
        SeedType::Mobile => 256,
    }
}

/// The code of the word `i` of a dialect.
pub open spec fn list_code(t: SeedType, i: int) -> u64 {
    match t {
        SeedType::Bip39 => bip39_code(i),
        SeedType::Mobile => mobile_code(i),
    }
}

/// The word `i` of a dialect.
pub open spec fn word_text(t: SeedType, i: int) -> Seq<char> {
    code_text(list_code(t, i))
}

/// Whether `w` is a word of the dialect.
pub open spec fn in_vocabulary(t: SeedType, w: Seq<char>) -> bool {
    exists|i: int| 0 <= i < list_len(t) && word_text(t, i) == w
}

/// The index of a word of the dialect.
pub open spec fn word_index(t: SeedType, w: Seq<char>) -> int {
    choose|i: int| 0 <= i < list_len(t) && word_text(t, i) == w
}

/// Every entry of a list is the code of a word.
pub proof fn lemma_list_words(t: SeedType, i: int)
    requires
        0 <= i < list_len(t),
    ensures
        is_word_code(list_code(t, i)),
{
    match t {
        SeedType::Bip39 => lemma_bip39_words(),
        SeedType::Mobile => lemma_mobile_words(),
    }
}

/// The codes of a list increase with the index.
pub proof fn lemma_list_increasing(t: SeedType, i: int, j: int)
    requires
        0 <= i < j < list_len(t),
    ensures
        list_code(t, i) < list_code(t, j),
    decreases j - i,
{
    match t {
        SeedType::Bip39 => lemma_bip39_rise(j - 1),
        SeedType::Mobile => lemma_mobile_rise(j - 1),
    }
    if i + 1 < j {
        lemma_list_increasing(t, i, j - 1);
    }
}

/// No word stands twice in a list.
pub proof fn lemma_words_distinct(t: SeedType, i: int, j: int)
    requires
        0 <= i < list_len(t),
        0 <= j < list_len(t),
        word_text(t, i) == word_text(t, j),
    ensures
        i == j,
{
    lemma_list_words(t, i);
    lemma_list_words(t, j);
    lemma_code_of_text(list_code(t, i));
    lemma_code_of_text(list_code(t, j));
    if i < j {
        lemma_list_increasing(t, i, j);
    } else if j < i {
        lemma_list_increasing(t, j, i);
    }
}

/// The index of the word `i` is `i`.
pub proof fn lemma_index_of_word(t: SeedType, i: int)
    requires
        0 <= i < list_len(t),
    ensures
        in_vocabulary(t, word_text(t, i)),
        word_index(t, word_text(t, i)) == i,
{
    let j = word_index(t, word_text(t, i));
    lemma_words_distinct(t, i, j);
}

/// The number of words of a dialect.
pub fn len_of(t: SeedType) -> (n: u16)
    ensures
        n == list_len(t),
{
    match t {
        SeedType::Bip39 => BIP39_LEN,
        SeedType::Mobile => MOBILE_LEN,
    }
}

/// Looks up the code of the word `i` of a dialect.
pub fn code_at(t: SeedType, i: u16) -> (c: u64)
    requires
        i < list_len(t),
    ensures
        c == list_code(t, i as int),
{
    match t {
        SeedType::Bip39 => bip39_code_at(i),
        SeedType::Mobile => mobile_code_at(i),
    }
}

/// Finds the index at which a list holds the code `c`, by bisection.
pub fn find_code(t: SeedType, c: u64) -> (r: Option<u16>)
    ensures
        match r {
            Some(i) => i < list_len(t) && list_code(t, i as int) == c,
            None => forall|i: int| 0 <= i < list_len(t) ==> list_code(t, i) != c,
        },
{
    let mut lo: u16 = 0;
    let mut hi: u16 = len_of(t);
    while lo < hi
        invariant
            0 <= lo <= hi <= list_len(t),
            forall|i: int| 0 <= i < lo ==> list_code(t, i) < c,
            forall|i: int| hi <= i < list_len(t) ==> list_code(t, i) > c,
        decreases hi - lo,
    {
        let mid = lo + (hi - lo) / 2;
        let v = code_at(t, mid);
        if v == c {
            return Some(mid);
        } else if v < c {
            assert forall|i: int| 0 <= i < mid + 1 implies list_code(t, i) < c by {
                if i < mid {
                    lemma_list_increasing(t, i, mid as int);
                }
            }
            lo = mid + 1;
        } else {
            assert forall|i: int| mid <= i < list_len(t) implies list_code(t, i) > c by {
                if mid < i {
                    lemma_list_increasing(t, mid as int, i);
                }
            }
            hi = mid;
        }
    }
    None
}

/// Writes out the word `i` of a dialect.
pub fn word_at(t: SeedType, i: u16) -> (w: String)
    requires
        i < list_len(t),
    ensures
        w@ == word_text(t, i as int),
{
    proof {
        lemma_list_words(t, i as int);
    }
    word_of_code(code_at(t, i))
}

/// Finds the index of a word in a dialect; `None` where the dialect does not
/// have the word.
pub fn index_of(t: SeedType, w: &str) -> (r: Option<u16>)
    ensures
        match r {
            Some(i) => in_vocabulary(t, w@) && i == word_index(t, w@),
            None => !in_vocabulary(t, w@),
        },
{
    match code_of_word(w) {
        None => {
            assert forall|i: int| 0 <= i < list_len(t) implies word_text(t, i) != w@ by {
                lemma_list_words(t, i);
                lemma_code_of_text(list_code(t, i));
            }
            None
        },
        Some(c) => {
            let r = find_code(t, c);
            proof {
                lemma_text_of_code(w@);
                match r {
                    Some(i) => {
                        assert(word_text(t, i as int) == w@);
                        lemma_index_of_word(t, i as int);
                    },
                    None => {
                        assert forall|i: int| 0 <= i < list_len(t) implies word_text(t, i)
                            != w@ by {
                            lemma_list_words(t, i);
                            lemma_code_of_text(list_code(t, i));
                        }
                    },
                }
            }
            r
        },
    }
}

} // verus!
