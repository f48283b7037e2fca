//! The words 896 to 1023 of the BIP-39 list.

use crate::wordcode::is_word_code;
use crate::wordlists::spelling::{lemma_bip39_spelled_07, lemma_spelled_is_word, spelled};
use vstd::prelude::*;

verus! {

/// The codes of the words.
pub const WORDS: [u64; 128] = [
    0x6879627269640000,  // hybrid
    0x6963650000000000,  // ice
    0x69636f6e00000000,  // icon
    0x6964656100000000,  // idea
    0x6964656e74696679,  // identify
    0x69646c6500000000,  // idle
    0x69676e6f72650000,  // ignore
    0x696c6c0000000000,  // ill
    0x696c6c6567616c00,  // illegal
    0x696c6c6e65737300,  // illness
    0x696d616765000000,  // image
    0x696d697461746500,  // imitate
    0x696d6d656e736500,  // immense
    0x696d6d756e650000,  // immune
    0x696d706163740000,  // impact
    0x696d706f73650000,  // impose
    0x696d70726f766500,  // improve
    0x696d70756c736500,  // impulse
    0x696e636800000000,  // inch
    0x696e636c75646500,  // include
    0x696e636f6d650000,  // income
    0x696e637265617365,  // increase
    0x696e646578000000,  // index
    0x696e646963617465,  // indicate
    0x696e646f6f720000,  // indoor
    0x696e647573747279,  // industry
    0x696e66616e740000,  // infant
    0x696e666c69637400,  // inflict
    0x696e666f726d0000,  // inform
    0x696e68616c650000,  // inhale
    0x696e686572697400,  // inherit
    0x696e697469616c00,  // initial
    0x696e6a6563740000,  // inject
    0x696e6a7572790000,  // injury
    0x696e6d6174650000,  // inmate
    0x696e6e6572000000,  // inner
    0x696e6e6f63656e74,  // innocent
    0x696e707574000000,  // input
    0x696e717569727900,  // inquiry
    0x696e73616e650000,  // insane
    0x696e736563740000,  // insect
    0x696e736964650000,  // inside
    0x696e737069726500,  // inspire
    0x696e7374616c6c00,  // install
    0x696e746163740000,  // intact
    0x696e746572657374,  // interest
    0x696e746f00000000,  // into
    0x696e766573740000,  // invest
    0x696e766974650000,  // invite
    0x696e766f6c766500,  // involve
    0x69726f6e00000000,  // iron
    0x69736c616e640000,  // island
    0x69736f6c61746500,  // isolate
    0x6973737565000000,  // issue
    0x6974656d00000000,  // item
    0x69766f7279000000,  // ivory
    0x6a61636b65740000,  // jacket
    0x6a61677561720000,  // jaguar
    0x6a61720000000000,  // jar
    0x6a617a7a00000000,  // jazz
    0x6a65616c6f757300,  // jealous
    0x6a65616e73000000,  // jeans
    0x6a656c6c79000000,  // jelly
    0x6a6577656c000000,  // jewel
    0x6a6f620000000000,  // job
    0x6a6f696e00000000,  // join
    0x6a6f6b6500000000,  // joke
    0x6a6f75726e657900,  // journey
    0x6a6f790000000000,  // joy
    0x6a75646765000000,  // judge
    0x6a75696365000000,  // juice
    0x6a756d7000000000,  // jump
    0x6a756e676c650000,  // jungle
    0x6a756e696f720000,  // junior
    0x6a756e6b00000000,  // junk
    0x6a75737400000000,  // just
    0x6b616e6761726f6f,  // kangaroo
    0x6b65656e00000000,  // keen
    0x6b65657000000000,  // keep
    0x6b65746368757000,  // ketchup
    0x6b65790000000000,  // key
    0x6b69636b00000000,  // kick
    0x6b69640000000000,  // kid
    0x6b69646e65790000,  // kidney
    0x6b696e6400000000,  // kind
    0x6b696e67646f6d00,  // kingdom
    0x6b69737300000000,  // kiss
    0x6b69740000000000,  // kit
    0x6b69746368656e00,  // kitchen
    0x6b69746500000000,  // kite
    0x6b697474656e0000,  // kitten
    0x6b69776900000000,  // kiwi
    0x6b6e656500000000,  // knee
    0x6b6e696665000000,  // knife
    0x6b6e6f636b000000,  // knock
    0x6b6e6f7700000000,  // know
    0x6c61620000000000,  // lab
    0x6c6162656c000000,  // label
    0x6c61626f72000000,  // labor
    0x6c61646465720000,  // ladder
    0x6c61647900000000,  // lady
    0x6c616b6500000000,  // lake
    0x6c616d7000000000,  // lamp
    0x6c616e6775616765,  // language
    0x6c6170746f700000,  // laptop
    0x6c61726765000000,  // large
    0x6c61746572000000,  // later
    0x6c6174696e000000,  // latin
    0x6c61756768000000,  // laugh
    0x6c61756e64727900,  // laundry
    0x6c61766100000000,  // lava
    0x6c61770000000000,  // law
    0x6c61776e00000000,  // lawn
    0x6c61777375697400,  // lawsuit
    0x6c61796572000000,  // layer
    0x6c617a7900000000,  // lazy
    0x6c65616465720000,  // leader
    0x6c65616600000000,  // leaf
    0x6c6561726e000000,  // learn
    0x6c65617665000000,  // leave
    0x6c65637475726500,  // lecture
    0x6c65667400000000,  // left
    0x6c65670000000000,  // leg
    0x6c6567616c000000,  // legal
    0x6c6567656e640000,  // legend
    0x6c65697375726500,  // leisure
    0x6c656d6f6e000000,  // lemon
    0x6c656e6400000000,  // lend
];

/// The code of the word `k` of the block.
pub closed spec fn word_code(k: int) -> u64 {
    WORDS[k]
}

/// Looks up the code of the word `k` of the block.
pub fn word_code_at(k: usize) -> (c: u64)
    requires
        k < 128,
    ensures
        c == word_code(k as int),
{
    WORDS[k]
}

/// Every entry of the block is the code of a word; the first and the last
/// entry are as stated.
pub proof fn lemma_words()
    ensures
        forall|k: int| 0 <= k < 128 ==> is_word_code(#[trigger] word_code(k)),
        word_code(0) == 0x6879627269640000,
        word_code(127) == 0x6c656e6400000000,
{
    lemma_bip39_spelled_07();
    assert forall|k: int| 0 <= k < 128 implies is_word_code(#[trigger] word_code(k)) by {
        assert(spelled(WORDS[k]));
        lemma_spelled_is_word(WORDS[k]);
    }
}

/// The codes of the block increase strictly from each entry to the next.
pub proof fn lemma_rise(k: int)
    requires
        0 <= k < 127,
    ensures
        word_code(k) < word_code(k + 1),
{
}

} // verus!
