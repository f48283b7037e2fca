//! The words 1408 to 1535 of the BIP-39 list.

use crate::wordcode::is_word_code;
use crate::wordlists::spelling::{lemma_bip39_spelled_11, lemma_spelled_is_word, spelled};
use vstd::prelude::*;

verus! {

/// The codes of the words.
pub const WORDS: [u64; 128] = [
    0x71756f7465000000,  // quote
    0x7261626269740000,  // rabbit
    0x726163636f6f6e00,  // raccoon
    0x7261636500000000,  // race
    0x7261636b00000000,  // rack
    0x7261646172000000,  // radar
    0x726164696f000000,  // radio
    0x7261696c00000000,  // rail
    0x7261696e00000000,  // rain
    0x7261697365000000,  // raise
    0x72616c6c79000000,  // rally
    0x72616d7000000000,  // ramp
    0x72616e6368000000,  // ranch
    0x72616e646f6d0000,  // random
    0x72616e6765000000,  // range
    0x7261706964000000,  // rapid
    0x7261726500000000,  // rare
    0x7261746500000000,  // rate
    0x7261746865720000,  // rather
    0x726176656e000000,  // raven
    0x7261770000000000,  // raw
    0x72617a6f72000000,  // razor
    0x7265616479000000,  // ready
    0x7265616c00000000,  // real
    0x726561736f6e0000,  // reason
    0x726562656c000000,  // rebel
    0x72656275696c6400,  // rebuild
    0x726563616c6c0000,  // recall
    0x7265636569766500,  // receive
    0x7265636970650000,  // recipe
    0x7265636f72640000,  // record
    0x72656379636c6500,  // recycle
    0x7265647563650000,  // reduce
    0x7265666c65637400,  // reflect
    0x7265666f726d0000,  // reform
    0x7265667573650000,  // refuse
    0x726567696f6e0000,  // region
    0x7265677265740000,  // regret
    0x726567756c617200,  // regular
    0x72656a6563740000,  // reject
    0x72656c6178000000,  // relax
    0x72656c6561736500,  // release
    0x72656c6965660000,  // relief
    0x72656c7900000000,  // rely
    0x72656d61696e0000,  // remain
    0x72656d656d626572,  // remember
    0x72656d696e640000,  // remind
    0x72656d6f76650000,  // remove
    0x72656e6465720000,  // render
    0x72656e6577000000,  // renew
    0x72656e7400000000,  // rent
    0x72656f70656e0000,  // reopen
    0x7265706169720000,  // repair
    0x7265706561740000,  // repeat
    0x7265706c61636500,  // replace
    0x7265706f72740000,  // report
    0x7265717569726500,  // require
    0x7265736375650000,  // rescue
    0x726573656d626c65,  // resemble
    0x7265736973740000,  // resist
    0x7265736f75726365,  // resource
    0x726573706f6e7365,  // response
    0x726573756c740000,  // result
    0x7265746972650000,  // retire
    0x7265747265617400,  // retreat
    0x72657475726e0000,  // return
    0x7265756e696f6e00,  // reunion
    0x72657665616c0000,  // reveal
    0x7265766965770000,  // review
    0x7265776172640000,  // reward
    0x72687974686d0000,  // rhythm
    0x7269620000000000,  // rib
    0x726962626f6e0000,  // ribbon
    0x7269636500000000,  // rice
    0x7269636800000000,  // rich
    0x7269646500000000,  // ride
    0x7269646765000000,  // ridge
    0x7269666c65000000,  // rifle
    0x7269676874000000,  // right
    0x7269676964000000,  // rigid
    0x72696e6700000000,  // ring
    0x72696f7400000000,  // riot
    0x726970706c650000,  // ripple
    0x7269736b00000000,  // risk
    0x72697475616c0000,  // ritual
    0x726976616c000000,  // rival
    0x7269766572000000,  // river
    0x726f616400000000,  // road
    0x726f617374000000,  // roast
    0x726f626f74000000,  // robot
    0x726f627573740000,  // robust
    0x726f636b65740000,  // rocket
    0x726f6d616e636500,  // romance
    0x726f6f6600000000,  // roof
    0x726f6f6b69650000,  // rookie
    0x726f6f6d00000000,  // room
    0x726f736500000000,  // rose
    0x726f746174650000,  // rotate
    0x726f756768000000,  // rough
    0x726f756e64000000,  // round
    0x726f757465000000,  // route
    0x726f79616c000000,  // royal
    0x7275626265720000,  // rubber
    0x7275646500000000,  // rude
    0x7275670000000000,  // rug
    0x72756c6500000000,  // rule
    0x72756e0000000000,  // run
    0x72756e7761790000,  // runway
    0x727572616c000000,  // rural
    0x7361640000000000,  // sad
    0x736164646c650000,  // saddle
    0x7361646e65737300,  // sadness
    0x7361666500000000,  // safe
    0x7361696c00000000,  // sail
    0x73616c6164000000,  // salad
    0x73616c6d6f6e0000,  // salmon
    0x73616c6f6e000000,  // salon
    0x73616c7400000000,  // salt
    0x73616c7574650000,  // salute
    0x73616d6500000000,  // same
    0x73616d706c650000,  // sample
    0x73616e6400000000,  // sand
    0x7361746973667900,  // satisfy
    0x7361746f73686900,  // satoshi
    0x7361756365000000,  // sauce
    0x7361757361676500,  // sausage
    0x7361766500000000,  // save
    0x7361790000000000,  // say
];

/// The code of the word `k` of the block.
pub closed spec fn word_code(k: int) -> u64 {
    WORDS[k]
}

/// Looks up the code of the word `k` of the block.
pub fn word_code_at(k: usize) -> (c: u64)
    requires
        k < 128,
    ensures
        c == word_code(k as int),
{
    WORDS[k]
}

/// Every entry of the block is the code of a word; the first and the last
/// entry are as stated.
pub proof fn lemma_words()
    ensures
        forall|k: int| 0 <= k < 128 ==> is_word_code(#[trigger] word_code(k)),
        word_code(0) == 0x71756f7465000000,
        word_code(127) == 0x7361790000000000,
{
    lemma_bip39_spelled_11();
    assert forall|k: int| 0 <= k < 128 implies is_word_code(#[trigger] word_code(k)) by {
        assert(spelled(WORDS[k]));
        lemma_spelled_is_word(WORDS[k]);
    }
}

/// The codes of the block increase strictly from each entry to the next.
pub proof fn lemma_rise(k: int)
    requires
        0 <= k < 127,
    ensures
        word_code(k) < word_code(k + 1),
{
}

} // verus!
