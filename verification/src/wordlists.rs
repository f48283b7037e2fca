//! The word lists of the two dialects, as tables of word codes.
//!
//! The BIP-39 dialect has the 2048 English words of that standard, the mobile
//! dialect 256 words of its own, one for each value of a byte. Both are in
//! alphabetical order, so the codes increase with the index. The tables
//! stand in blocks of 128 words, one module for each.

pub mod bip39_00;
pub mod bip39_01;
pub mod bip39_02;
pub mod bip39_03;
pub mod bip39_04;
pub mod bip39_05;
pub mod bip39_06;
pub mod bip39_07;
pub mod bip39_08;
pub mod bip39_09;
pub mod bip39_10;
pub mod bip39_11;
pub mod bip39_12;
pub mod bip39_13;
pub mod bip39_14;
pub mod bip39_15;
pub mod mobile_00;
pub mod mobile_01;
pub mod spelling;

use crate::wordcode::is_word_code;
use vstd::prelude::*;

verus! {

/// The number of words in the BIP-39 list.
pub const BIP39_LEN: u16 = 2048;

/// The code of the word with the index `i` in the BIP-39 list.
pub open spec fn bip39_code(i: int) -> u64 {
    if i < 128 {
        bip39_00::word_code(i - 0)
    } else if i < 256 {
        bip39_01::word_code(i - 128)
    } else if i < 384 {
        bip39_02::word_code(i - 256)
    } else if i < 512 {
        bip39_03::word_code(i - 384)
    } else if i < 640 {
        bip39_04::word_code(i - 512)
    } else if i < 768 {
        bip39_05::word_code(i - 640)
    } else if i < 896 {
        bip39_06::word_code(i - 768)
    } else if i < 1024 {
        bip39_07::word_code(i - 896)
    } else if i < 1152 {
        bip39_08::word_code(i - 1024)
    } else if i < 1280 {
        bip39_09::word_code(i - 1152)
    } else if i < 1408 {
        bip39_10::word_code(i - 1280)
    } else if i < 1536 {
        bip39_11::word_code(i - 1408)
    } else if i < 1664 {
        bip39_12::word_code(i - 1536)
    } else if i < 1792 {
        bip39_13::word_code(i - 1664)
    } else if i < 1920 {
        bip39_14::word_code(i - 1792)
    } else {
        bip39_15::word_code(i - 1920)
    }
}

/// Looks up the code of the word with the index `i` in the BIP-39 list.
pub fn bip39_code_at(i: u16) -> (c: u64)
    requires
        i < BIP39_LEN,
    ensures
        c == bip39_code(i as int),
{
    if i < 128 {
        bip39_00::word_code_at((i - 0) as usize)
    } else if i < 256 {
        bip39_01::word_code_at((i - 128) as usize)
    } else if i < 384 {
        bip39_02::word_code_at((i - 256) as usize)
    } else if i < 512 {
        bip39_03::word_code_at((i - 384) as usize)
    } else if i < 640 {
        bip39_04::word_code_at((i - 512) as usize)
    } else if i < 768 {
        bip39_05::word_code_at((i - 640) as usize)
    } else if i < 896 {
        bip39_06::word_code_at((i - 768) as usize)
    } else if i < 1024 {
        bip39_07::word_code_at((i - 896) as usize)
    } else if i < 1152 {
        bip39_08::word_code_at((i - 1024) as usize)
    } else if i < 1280 {
        bip39_09::word_code_at((i - 1152) as usize)
    } else if i < 1408 {
        bip39_10::word_code_at((i - 1280) as usize)
    } else if i < 1536 {
        bip39_11::word_code_at((i - 1408) as usize)
    } else if i < 1664 {
        bip39_12::word_code_at((i - 1536) as usize)
    } else if i < 1792 {
        bip39_13::word_code_at((i - 1664) as usize)
    } else if i < 1920 {
        bip39_14::word_code_at((i - 1792) as usize)
    } else {
        bip39_15::word_code_at((i - 1920) as usize)
    }
}

/// Every entry of the BIP-39 list is the code of a word.
pub proof fn lemma_bip39_words()
    ensures
        forall|i: int| 0 <= i < 2048 ==> is_word_code(#[trigger] bip39_code(i)),
{
    bip39_00::lemma_words();
    bip39_01::lemma_words();
    bip39_02::lemma_words();
    bip39_03::lemma_words();
    bip39_04::lemma_words();
    bip39_05::lemma_words();
    bip39_06::lemma_words();
    bip39_07::lemma_words();
    bip39_08::lemma_words();
    bip39_09::lemma_words();
    bip39_10::lemma_words();
    bip39_11::lemma_words();
    bip39_12::lemma_words();
    bip39_13::lemma_words();
    bip39_14::lemma_words();
    bip39_15::lemma_words();
}

/// The codes of the BIP-39 list increase strictly from each index to the next.
pub proof fn lemma_bip39_rise(i: int)
    requires
        0 <= i < 2047,
    ensures
        bip39_code(i) < bip39_code(i + 1),
{
    if i < 127 {
        bip39_00::lemma_rise(i - 0);
    } else if i == 127 {
        bip39_00::lemma_words();
        bip39_01::lemma_words();
    } else if i < 255 {
        bip39_01::lemma_rise(i - 128);
    } else if i == 255 {
        bip39_01::lemma_words();
        bip39_02::lemma_words();
    } else if i < 383 {
        bip39_02::lemma_rise(i - 256);
    } else if i == 383 {
        bip39_02::lemma_words();
        bip39_03::lemma_words();
    } else if i < 511 {
        bip39_03::lemma_rise(i - 384);
    } else if i == 511 {
        bip39_03::lemma_words();
        bip39_04::lemma_words();
    } else if i < 639 {
        bip39_04::lemma_rise(i - 512);
    } else if i == 639 {
        bip39_04::lemma_words();
        bip39_05::lemma_words();
    } else if i < 767 {
        bip39_05::lemma_rise(i - 640);
    } else if i == 767 {
        bip39_05::lemma_words();
        bip39_06::lemma_words();
    } else if i < 895 {
        bip39_06::lemma_rise(i - 768);
    } else if i == 895 {
        bip39_06::lemma_words();
        bip39_07::lemma_words();
    } else if i < 1023 {
        bip39_07::lemma_rise(i - 896);
    } else if i == 1023 {
        bip39_07::lemma_words();
        bip39_08::lemma_words();
    } else if i < 1151 {
        bip39_08::lemma_rise(i - 1024);
    } else if i == 1151 {
        bip39_08::lemma_words();
        bip39_09::lemma_words();
    } else if i < 1279 {
        bip39_09::lemma_rise(i - 1152);
    } else if i == 1279 {
        bip39_09::lemma_words();
        bip39_10::lemma_words();
    } else if i < 1407 {
        bip39_10::lemma_rise(i - 1280);
    } else if i == 1407 {
        bip39_10::lemma_words();
        bip39_11::lemma_words();
    } else if i < 1535 {
        bip39_11::lemma_rise(i - 1408);
    } else if i == 1535 {
        bip39_11::lemma_words();
        bip39_12::lemma_words();
    } else if i < 1663 {
        bip39_12::lemma_rise(i - 1536);
    } else if i == 1663 {
        bip39_12::lemma_words();
        bip39_13::lemma_words();
    } else if i < 1791 {
        bip39_13::lemma_rise(i - 1664);
    } else if i == 1791 {
        bip39_13::lemma_words();
        bip39_14::lemma_words();
    } else if i < 1919 {
        bip39_14::lemma_rise(i - 1792);
    } else if i == 1919 {
        bip39_14::lemma_words();
        bip39_15::lemma_words();
    } else if i < 2047 {
        bip39_15::lemma_rise(i - 1920);
    }
}

/// The number of words in the mobile list.
pub const MOBILE_LEN: u16 = 256;

/// The code of the word with the index `i` in the mobile list.
pub open spec fn mobile_code(i: int) -> u64 {
    if i < 128 {
        mobile_00::word_code(i - 0)
    } else {
        mobile_01::word_code(i - 128)
    }
}

/// Looks up the code of the word with the index `i` in the mobile list.
pub fn mobile_code_at(i: u16) -> (c: u64)
    requires
        i < MOBILE_LEN,
    ensures
        c == mobile_code(i as int),
{
    if i < 128 {
        mobile_00::word_code_at((i - 0) as usize)
    } else {
        mobile_01::word_code_at((i - 128) as usize)
    }
}

/// Every entry of the mobile list is the code of a word.
pub proof fn lemma_mobile_words()
    ensures
        forall|i: int| 0 <= i < 256 ==> is_word_code(#[trigger] mobile_code(i)),
{
    mobile_00::lemma_words();
    mobile_01::lemma_words();
}

/// The codes of the mobile list increase strictly from each index to the next.
pub proof fn lemma_mobile_rise(i: int)
    requires
        0 <= i < 255,
    ensures
        mobile_code(i) < mobile_code(i + 1),
{
    if i < 127 {
        mobile_00::lemma_rise(i - 0);
    } else if i == 127 {
        mobile_00::lemma_words();
        mobile_01::lemma_words();
    } else if i < 255 {
        mobile_01::lemma_rise(i - 128);
    }
}

} // verus!
