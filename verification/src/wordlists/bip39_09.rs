//! The words 1152 to 1279 of the BIP-39 list.

use crate::wordcode::is_word_code;
use crate::wordlists::spelling::{lemma_bip39_spelled_09, lemma_spelled_is_word, spelled};
use vstd::prelude::*;

verus! {

/// The codes of the words.
pub const WORDS: [u64; 128] = [
    0x6d6f73717569746f,  // mosquito
    0x6d6f746865720000,  // mother
    0x6d6f74696f6e0000,  // motion
    0x6d6f746f72000000,  // motor
    0x6d6f756e7461696e,  // mountain
    0x6d6f757365000000,  // mouse
    0x6d6f766500000000,  // move
    0x6d6f766965000000,  // movie
    0x6d75636800000000,  // much
    0x6d756666696e0000,  // muffin
    0x6d756c6500000000,  // mule
    0x6d756c7469706c79,  // multiply
    0x6d7573636c650000,  // muscle
    0x6d757365756d0000,  // museum
    0x6d757368726f6f6d,  // mushroom
    0x6d75736963000000,  // music
    0x6d75737400000000,  // must
    0x6d757475616c0000,  // mutual
    0x6d7973656c660000,  // myself
    0x6d79737465727900,  // mystery
    0x6d79746800000000,  // myth
    0x6e61697665000000,  // naive
    0x6e616d6500000000,  // name
    0x6e61706b696e0000,  // napkin
    0x6e6172726f770000,  // narrow
    0x6e61737479000000,  // nasty
    0x6e6174696f6e0000,  // nation
    0x6e61747572650000,  // nature
    0x6e65617200000000,  // near
    0x6e65636b00000000,  // neck
    0x6e65656400000000,  // need
    0x6e65676174697665,  // negative
    0x6e65676c65637400,  // neglect
    0x6e65697468657200,  // neither
    0x6e65706865770000,  // nephew
    0x6e65727665000000,  // nerve
    0x6e65737400000000,  // nest
    0x6e65740000000000,  // net
    0x6e6574776f726b00,  // network
    0x6e65757472616c00,  // neutral
    0x6e65766572000000,  // never
    0x6e65777300000000,  // news
    0x6e65787400000000,  // next
    0x6e69636500000000,  // nice
    0x6e69676874000000,  // night
    0x6e6f626c65000000,  // noble
    0x6e6f697365000000,  // noise
    0x6e6f6d696e656500,  // nominee
    0x6e6f6f646c650000,  // noodle
    0x6e6f726d616c0000,  // normal
    0x6e6f727468000000,  // north
    0x6e6f736500000000,  // nose
    0x6e6f7461626c6500,  // notable
    0x6e6f746500000000,  // note
    0x6e6f7468696e6700,  // nothing
    0x6e6f746963650000,  // notice
    0x6e6f76656c000000,  // novel
    0x6e6f770000000000,  // now
    0x6e75636c65617200,  // nuclear
    0x6e756d6265720000,  // number
    0x6e75727365000000,  // nurse
    0x6e75740000000000,  // nut
    0x6f616b0000000000,  // oak
    0x6f62657900000000,  // obey
    0x6f626a6563740000,  // object
    0x6f626c6967650000,  // oblige
    0x6f62736375726500,  // obscure
    0x6f62736572766500,  // observe
    0x6f627461696e0000,  // obtain
    0x6f6276696f757300,  // obvious
    0x6f63637572000000,  // occur
    0x6f6365616e000000,  // ocean
    0x6f63746f62657200,  // october
    0x6f646f7200000000,  // odor
    0x6f66660000000000,  // off
    0x6f66666572000000,  // offer
    0x6f66666963650000,  // office
    0x6f6674656e000000,  // often
    0x6f696c0000000000,  // oil
    0x6f6b617900000000,  // okay
    0x6f6c640000000000,  // old
    0x6f6c697665000000,  // olive
    0x6f6c796d70696300,  // olympic
    0x6f6d697400000000,  // omit
    0x6f6e636500000000,  // once
    0x6f6e650000000000,  // one
    0x6f6e696f6e000000,  // onion
    0x6f6e6c696e650000,  // online
    0x6f6e6c7900000000,  // only
    0x6f70656e00000000,  // open
    0x6f70657261000000,  // opera
    0x6f70696e696f6e00,  // opinion
    0x6f70706f73650000,  // oppose
    0x6f7074696f6e0000,  // option
    0x6f72616e67650000,  // orange
    0x6f72626974000000,  // orbit
    0x6f72636861726400,  // orchard
    0x6f72646572000000,  // order
    0x6f7264696e617279,  // ordinary
    0x6f7267616e000000,  // organ
    0x6f7269656e740000,  // orient
    0x6f726967696e616c,  // original
    0x6f727068616e0000,  // orphan
    0x6f73747269636800,  // ostrich
    0x6f74686572000000,  // other
    0x6f7574646f6f7200,  // outdoor
    0x6f75746572000000,  // outer
    0x6f75747075740000,  // output
    0x6f75747369646500,  // outside
    0x6f76616c00000000,  // oval
    0x6f76656e00000000,  // oven
    0x6f76657200000000,  // over
    0x6f776e0000000000,  // own
    0x6f776e6572000000,  // owner
    0x6f787967656e0000,  // oxygen
    0x6f79737465720000,  // oyster
    0x6f7a6f6e65000000,  // ozone
    0x7061637400000000,  // pact
    0x706164646c650000,  // paddle
    0x7061676500000000,  // page
    0x7061697200000000,  // pair
    0x70616c6163650000,  // palace
    0x70616c6d00000000,  // palm
    0x70616e6461000000,  // panda
    0x70616e656c000000,  // panel
    0x70616e6963000000,  // panic
    0x70616e7468657200,  // panther
    0x7061706572000000,  // paper
];

/// The code of the word `k` of the block.
pub closed spec fn word_code(k: int) -> u64 {
    WORDS[k]
}

/// Looks up the code of the word `k` of the block.
pub fn word_code_at(k: usize) -> (c: u64)
    requires
        k < 128,
    ensures
        c == word_code(k as int),
{
    WORDS[k]
}

/// Every entry of the block is the code of a word; the first and the last
/// entry are as stated.
pub proof fn lemma_words()
    ensures
        forall|k: int| 0 <= k < 128 ==> is_word_code(#[trigger] word_code(k)),
        word_code(0) == 0x6d6f73717569746f,
        word_code(127) == 0x7061706572000000,
{
    lemma_bip39_spelled_09();
    assert forall|k: int| 0 <= k < 128 implies is_word_code(#[trigger] word_code(k)) by {
        assert(spelled(WORDS[k]));
        lemma_spelled_is_word(WORDS[k]);
    }
}

/// The codes of the block increase strictly from each entry to the next.
pub proof fn lemma_rise(k: int)
    requires
        0 <= k < 127,
    ensures
        word_code(k) < word_code(k + 1),
{
}

} // verus!
