//! The words 1792 to 1919 of the BIP-39 list.

use crate::wordcode::is_word_code;
use crate::wordlists::spelling::{lemma_bip39_spelled_14, lemma_spelled_is_word, spelled};
use vstd::prelude::*;

verus! {

/// The codes of the words.
pub const WORDS: [u64; 128] = [
    0x7468656d65000000,  // theme
    0x7468656e00000000,  // then
    0x7468656f72790000,  // theory
    0x7468657265000000,  // there
    0x7468657900000000,  // they
    0x7468696e67000000,  // thing
    0x7468697300000000,  // this
    0x74686f7567687400,  // thought
    0x7468726565000000,  // three
    0x7468726976650000,  // thrive
    0x7468726f77000000,  // throw
    0x7468756d62000000,  // thumb
    0x7468756e64657200,  // thunder
    0x7469636b65740000,  // ticket
    0x7469646500000000,  // tide
    0x7469676572000000,  // tiger
    0x74696c7400000000,  // tilt
    0x74696d6265720000,  // timber
    0x74696d6500000000,  // time
    0x74696e7900000000,  // tiny
    0x7469700000000000,  // tip
    0x7469726564000000,  // tired
    0x7469737375650000,  // tissue
    0x7469746c65000000,  // title
    0x746f617374000000,  // toast
    0x746f626163636f00,  // tobacco
    0x746f646179000000,  // today
    0x746f64646c657200,  // toddler
    0x746f650000000000,  // toe
    0x746f676574686572,  // together
    0x746f696c65740000,  // toilet
    0x746f6b656e000000,  // token
    0x746f6d61746f0000,  // tomato
    0x746f6d6f72726f77,  // tomorrow
    0x746f6e6500000000,  // tone
    0x746f6e6775650000,  // tongue
    0x746f6e6967687400,  // tonight
    0x746f6f6c00000000,  // tool
    0x746f6f7468000000,  // tooth
    0x746f700000000000,  // top
    0x746f706963000000,  // topic
    0x746f70706c650000,  // topple
    0x746f726368000000,  // torch
    0x746f726e61646f00,  // tornado
    0x746f72746f697365,  // tortoise
    0x746f737300000000,  // toss
    0x746f74616c000000,  // total
    0x746f757269737400,  // tourist
    0x746f776172640000,  // toward
    0x746f776572000000,  // tower
    0x746f776e00000000,  // town
    0x746f790000000000,  // toy
    0x747261636b000000,  // track
    0x7472616465000000,  // trade
    0x7472616666696300,  // traffic
    0x7472616769630000,  // tragic
    0x747261696e000000,  // train
    0x7472616e73666572,  // transfer
    0x7472617000000000,  // trap
    0x7472617368000000,  // trash
    0x74726176656c0000,  // travel
    0x7472617900000000,  // tray
    0x7472656174000000,  // treat
    0x7472656500000000,  // tree
    0x7472656e64000000,  // trend
    0x747269616c000000,  // trial
    0x7472696265000000,  // tribe
    0x747269636b000000,  // trick
    0x7472696767657200,  // trigger
    0x7472696d00000000,  // trim
    0x7472697000000000,  // trip
    0x74726f7068790000,  // trophy
    0x74726f75626c6500,  // trouble
    0x747275636b000000,  // truck
    0x7472756500000000,  // true
    0x7472756c79000000,  // truly
    0x7472756d70657400,  // trumpet
    0x7472757374000000,  // trust
    0x7472757468000000,  // truth
    0x7472790000000000,  // try
    0x7475626500000000,  // tube
    0x74756974696f6e00,  // tuition
    0x74756d626c650000,  // tumble
    0x74756e6100000000,  // tuna
    0x74756e6e656c0000,  // tunnel
    0x7475726b65790000,  // turkey
    0x7475726e00000000,  // turn
    0x747572746c650000,  // turtle
    0x7477656c76650000,  // twelve
    0x7477656e74790000,  // twenty
    0x7477696365000000,  // twice
    0x7477696e00000000,  // twin
    0x7477697374000000,  // twist
    0x74776f0000000000,  // two
    0x7479706500000000,  // type
    0x7479706963616c00,  // typical
    0x75676c7900000000,  // ugly
    0x756d6272656c6c61,  // umbrella
    0x756e61626c650000,  // unable
    0x756e617761726500,  // unaware
    0x756e636c65000000,  // uncle
    0x756e636f76657200,  // uncover
    0x756e646572000000,  // under
    0x756e646f00000000,  // undo
    0x756e666169720000,  // unfair
    0x756e666f6c640000,  // unfold
    0x756e686170707900,  // unhappy
    0x756e69666f726d00,  // uniform
    0x756e697175650000,  // unique
    0x756e697400000000,  // unit
    0x756e697665727365,  // universe
    0x756e6b6e6f776e00,  // unknown
    0x756e6c6f636b0000,  // unlock
    0x756e74696c000000,  // until
    0x756e757375616c00,  // unusual
    0x756e7665696c0000,  // unveil
    0x7570646174650000,  // update
    0x7570677261646500,  // upgrade
    0x7570686f6c640000,  // uphold
    0x75706f6e00000000,  // upon
    0x7570706572000000,  // upper
    0x7570736574000000,  // upset
    0x757262616e000000,  // urban
    0x7572676500000000,  // urge
    0x7573616765000000,  // usage
    0x7573650000000000,  // use
    0x7573656400000000,  // used
    0x75736566756c0000,  // useful
];

/// The code of the word `k` of the block.
pub closed spec fn word_code(k: int) -> u64 {
    WORDS[k]
}

/// Looks up the code of the word `k` of the block.
pub fn word_code_at(k: usize) -> (c: u64)
    requires
        k < 128,
    ensures
        c == word_code(k as int),
{
    WORDS[k]
}

/// Every entry of the block is the code of a word; the first and the last
/// entry are as stated.
pub proof fn lemma_words()
    ensures
        forall|k: int| 0 <= k < 128 ==> is_word_code(#[trigger] word_code(k)),
        word_code(0) == 0x7468656d65000000,
        word_code(127) == 0x75736566756c0000,
{
    lemma_bip39_spelled_14();
    assert forall|k: int| 0 <= k < 128 implies is_word_code(#[trigger] word_code(k)) by {
        assert(spelled(WORDS[k]));
        lemma_spelled_is_word(WORDS[k]);
    }
}

/// The codes of the block increase strictly from each entry to the next.
pub proof fn lemma_rise(k: int)
    requires
        0 <= k < 127,
    ensures
        word_code(k) < word_code(k + 1),
{
}

} // verus!
