//! The words 384 to 511 of the BIP-39 list.

use crate::wordcode::is_word_code;
use crate::wordlists::spelling::{lemma_bip39_spelled_03, lemma_spelled_is_word, spelled};
use vstd::prelude::*;

verus! {

/// The codes of the words.
pub const WORDS: [u64; 128] = [
    0x636f707900000000,  // copy
    0x636f72616c000000,  // coral
    0x636f726500000000,  // core
    0x636f726e00000000,  // corn
    0x636f727265637400,  // correct
    0x636f737400000000,  // cost
    0x636f74746f6e0000,  // cotton
    0x636f756368000000,  // couch
    0x636f756e74727900,  // country
    0x636f75706c650000,  // couple
    0x636f757273650000,  // course
    0x636f7573696e0000,  // cousin
    0x636f766572000000,  // cover
    0x636f796f74650000,  // coyote
    0x637261636b000000,  // crack
    0x637261646c650000,  // cradle
    0x6372616674000000,  // craft
    0x6372616d00000000,  // cram
    0x6372616e65000000,  // crane
    0x6372617368000000,  // crash
    0x6372617465720000,  // crater
    0x637261776c000000,  // crawl
    0x6372617a79000000,  // crazy
    0x637265616d000000,  // cream
    0x6372656469740000,  // credit
    0x637265656b000000,  // creek
    0x6372657700000000,  // crew
    0x637269636b657400,  // cricket
    0x6372696d65000000,  // crime
    0x6372697370000000,  // crisp
    0x6372697469630000,  // critic
    0x63726f7000000000,  // crop
    0x63726f7373000000,  // cross
    0x63726f7563680000,  // crouch
    0x63726f7764000000,  // crowd
    0x6372756369616c00,  // crucial
    0x637275656c000000,  // cruel
    0x6372756973650000,  // cruise
    0x6372756d626c6500,  // crumble
    0x6372756e63680000,  // crunch
    0x6372757368000000,  // crush
    0x6372790000000000,  // cry
    0x6372797374616c00,  // crystal
    0x6375626500000000,  // cube
    0x63756c7475726500,  // culture
    0x6375700000000000,  // cup
    0x637570626f617264,  // cupboard
    0x637572696f757300,  // curious
    0x63757272656e7400,  // current
    0x6375727461696e00,  // curtain
    0x6375727665000000,  // curve
    0x63757368696f6e00,  // cushion
    0x637573746f6d0000,  // custom
    0x6375746500000000,  // cute
    0x6379636c65000000,  // cycle
    0x6461640000000000,  // dad
    0x64616d6167650000,  // damage
    0x64616d7000000000,  // damp
    0x64616e6365000000,  // dance
    0x64616e6765720000,  // danger
    0x646172696e670000,  // daring
    0x6461736800000000,  // dash
    0x6461756768746572,  // daughter
    0x6461776e00000000,  // dawn
    0x6461790000000000,  // day
    0x6465616c00000000,  // deal
    0x6465626174650000,  // debate
    0x6465627269730000,  // debris
    0x6465636164650000,  // decade
    0x646563656d626572,  // december
    0x6465636964650000,  // decide
    0x6465636c696e6500,  // decline
    0x6465636f72617465,  // decorate
    0x6465637265617365,  // decrease
    0x6465657200000000,  // deer
    0x646566656e736500,  // defense
    0x646566696e650000,  // define
    0x6465667900000000,  // defy
    0x6465677265650000,  // degree
    0x64656c6179000000,  // delay
    0x64656c6976657200,  // deliver
    0x64656d616e640000,  // demand
    0x64656d6973650000,  // demise
    0x64656e69616c0000,  // denial
    0x64656e7469737400,  // dentist
    0x64656e7900000000,  // deny
    0x6465706172740000,  // depart
    0x646570656e640000,  // depend
    0x6465706f73697400,  // deposit
    0x6465707468000000,  // depth
    0x6465707574790000,  // deputy
    0x6465726976650000,  // derive
    0x6465736372696265,  // describe
    0x6465736572740000,  // desert
    0x64657369676e0000,  // design
    0x6465736b00000000,  // desk
    0x6465737061697200,  // despair
    0x64657374726f7900,  // destroy
    0x64657461696c0000,  // detail
    0x6465746563740000,  // detect
    0x646576656c6f7000,  // develop
    0x6465766963650000,  // device
    0x6465766f74650000,  // devote
    0x6469616772616d00,  // diagram
    0x6469616c00000000,  // dial
    0x6469616d6f6e6400,  // diamond
    0x6469617279000000,  // diary
    0x6469636500000000,  // dice
    0x64696573656c0000,  // diesel
    0x6469657400000000,  // diet
    0x6469666665720000,  // differ
    0x6469676974616c00,  // digital
    0x6469676e69747900,  // dignity
    0x64696c656d6d6100,  // dilemma
    0x64696e6e65720000,  // dinner
    0x64696e6f73617572,  // dinosaur
    0x6469726563740000,  // direct
    0x6469727400000000,  // dirt
    0x6469736167726565,  // disagree
    0x646973636f766572,  // discover
    0x6469736561736500,  // disease
    0x6469736800000000,  // dish
    0x6469736d69737300,  // dismiss
    0x6469736f72646572,  // disorder
    0x646973706c617900,  // display
    0x64697374616e6365,  // distance
    0x6469766572740000,  // divert
    0x6469766964650000,  // divide
];

/// The code of the word `k` of the block.
pub closed spec fn word_code(k: int) -> u64 {
    WORDS[k]
}

/// Looks up the code of the word `k` of the block.
pub fn word_code_at(k: usize) -> (c: u64)
    requires
        k < 128,
    ensures
        c == word_code(k as int),
{
    WORDS[k]
}

/// Every entry of the block is the code of a word; the first and the last
/// entry are as stated.
pub proof fn lemma_words()
    ensures
        forall|k: int| 0 <= k < 128 ==> is_word_code(#[trigger] word_code(k)),
        word_code(0) == 0x636f707900000000,
        word_code(127) == 0x6469766964650000,
{
    lemma_bip39_spelled_03();
    assert forall|k: int| 0 <= k < 128 implies is_word_code(#[trigger] word_code(k)) by {
        assert(spelled(WORDS[k]));
        lemma_spelled_is_word(WORDS[k]);
    }
}

/// The codes of the block increase strictly from each entry to the next.
pub proof fn lemma_rise(k: int)
    requires
        0 <= k < 127,
    ensures
        word_code(k) < word_code(k + 1),
{
}

} // verus!
