//! The words 512 to 639 of the BIP-39 list.

use crate::wordcode::is_word_code;
use crate::wordlists::spelling::{lemma_bip39_spelled_04, lemma_spelled_is_word, spelled};
use vstd::prelude::*;

verus! {

/// The codes of the words.
pub const WORDS: [u64; 128] = [
    0x6469766f72636500,  // divorce
    0x64697a7a79000000,  // dizzy
    0x646f63746f720000,  // doctor
    0x646f63756d656e74,  // document
    0x646f670000000000,  // dog
    0x646f6c6c00000000,  // doll
    0x646f6c7068696e00,  // dolphin
    0x646f6d61696e0000,  // domain
    0x646f6e6174650000,  // donate
    0x646f6e6b65790000,  // donkey
    0x646f6e6f72000000,  // donor
    0x646f6f7200000000,  // door
    0x646f736500000000,  // dose
    0x646f75626c650000,  // double
    0x646f766500000000,  // dove
    0x6472616674000000,  // draft
    0x647261676f6e0000,  // dragon
    0x6472616d61000000,  // drama
    0x6472617374696300,  // drastic
    0x6472617700000000,  // draw
    0x647265616d000000,  // dream
    0x6472657373000000,  // dress
    0x6472696674000000,  // drift
    0x6472696c6c000000,  // drill
    0x6472696e6b000000,  // drink
    0x6472697000000000,  // drip
    0x6472697665000000,  // drive
    0x64726f7000000000,  // drop
    0x6472756d00000000,  // drum
    0x6472790000000000,  // dry
    0x6475636b00000000,  // duck
    0x64756d6200000000,  // dumb
    0x64756e6500000000,  // dune
    0x647572696e670000,  // during
    0x6475737400000000,  // dust
    0x6475746368000000,  // dutch
    0x6475747900000000,  // duty
    0x6477617266000000,  // dwarf
    0x64796e616d696300,  // dynamic
    0x6561676572000000,  // eager
    0x6561676c65000000,  // eagle
    0x6561726c79000000,  // early
    0x6561726e00000000,  // earn
    0x6561727468000000,  // earth
    0x656173696c790000,  // easily
    0x6561737400000000,  // east
    0x6561737900000000,  // easy
    0x6563686f00000000,  // echo
    0x65636f6c6f677900,  // ecology
    0x65636f6e6f6d7900,  // economy
    0x6564676500000000,  // edge
    0x6564697400000000,  // edit
    0x6564756361746500,  // educate
    0x6566666f72740000,  // effort
    0x6567670000000000,  // egg
    0x6569676874000000,  // eight
    0x6569746865720000,  // either
    0x656c626f77000000,  // elbow
    0x656c646572000000,  // elder
    0x656c656374726963,  // electric
    0x656c6567616e7400,  // elegant
    0x656c656d656e7400,  // element
    0x656c657068616e74,  // elephant
    0x656c657661746f72,  // elevator
    0x656c697465000000,  // elite
    0x656c736500000000,  // else
    0x656d6261726b0000,  // embark
    0x656d626f64790000,  // embody
    0x656d627261636500,  // embrace
    0x656d657267650000,  // emerge
    0x656d6f74696f6e00,  // emotion
    0x656d706c6f790000,  // employ
    0x656d706f77657200,  // empower
    0x656d707479000000,  // empty
    0x656e61626c650000,  // enable
    0x656e616374000000,  // enact
    0x656e640000000000,  // end
    0x656e646c65737300,  // endless
    0x656e646f72736500,  // endorse
    0x656e656d79000000,  // enemy
    0x656e657267790000,  // energy
    0x656e666f72636500,  // enforce
    0x656e676167650000,  // engage
    0x656e67696e650000,  // engine
    0x656e68616e636500,  // enhance
    0x656e6a6f79000000,  // enjoy
    0x656e6c6973740000,  // enlist
    0x656e6f7567680000,  // enough
    0x656e726963680000,  // enrich
    0x656e726f6c6c0000,  // enroll
    0x656e737572650000,  // ensure
    0x656e746572000000,  // enter
    0x656e746972650000,  // entire
    0x656e747279000000,  // entry
    0x656e76656c6f7065,  // envelope
    0x657069736f646500,  // episode
    0x657175616c000000,  // equal
    0x6571756970000000,  // equip
    0x6572610000000000,  // era
    0x6572617365000000,  // erase
    0x65726f6465000000,  // erode
    0x65726f73696f6e00,  // erosion
    0x6572726f72000000,  // error
    0x6572757074000000,  // erupt
    0x6573636170650000,  // escape
    0x6573736179000000,  // essay
    0x657373656e636500,  // essence
    0x6573746174650000,  // estate
    0x657465726e616c00,  // eternal
    0x6574686963730000,  // ethics
    0x65766964656e6365,  // evidence
    0x6576696c00000000,  // evil
    0x65766f6b65000000,  // evoke
    0x65766f6c76650000,  // evolve
    0x6578616374000000,  // exact
    0x6578616d706c6500,  // example
    0x6578636573730000,  // excess
    0x65786368616e6765,  // exchange
    0x6578636974650000,  // excite
    0x6578636c75646500,  // exclude
    0x6578637573650000,  // excuse
    0x6578656375746500,  // execute
    0x6578657263697365,  // exercise
    0x6578686175737400,  // exhaust
    0x6578686962697400,  // exhibit
    0x6578696c65000000,  // exile
    0x6578697374000000,  // exist
    0x6578697400000000,  // exit
];

/// The code of the word `k` of the block.
pub closed spec fn word_code(k: int) -> u64 {
    WORDS[k]
}

/// Looks up the code of the word `k` of the block.
pub fn word_code_at(k: usize) -> (c: u64)
    requires
        k < 128,
    ensures
        c == word_code(k as int),
{
    WORDS[k]
}

/// Every entry of the block is the code of a word; the first and the last
/// entry are as stated.
pub proof fn lemma_words()
    ensures
        forall|k: int| 0 <= k < 128 ==> is_word_code(#[trigger] word_code(k)),
        word_code(0) == 0x6469766f72636500,
        word_code(127) == 0x6578697400000000,
{
    lemma_bip39_spelled_04();
    assert forall|k: int| 0 <= k < 128 implies is_word_code(#[trigger] word_code(k)) by {
        assert(spelled(WORDS[k]));
        lemma_spelled_is_word(WORDS[k]);
    }
}

/// The codes of the block increase strictly from each entry to the next.
pub proof fn lemma_rise(k: int)
    requires
        0 <= k < 127,
    ensures
        word_code(k) < word_code(k + 1),
{
}

} // verus!
