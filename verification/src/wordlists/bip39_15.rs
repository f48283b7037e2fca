//! The words 1920 to 2047 of the BIP-39 list.

use crate::wordcode::is_word_code;
use crate::wordlists::spelling::{lemma_bip39_spelled_15, lemma_spelled_is_word, spelled};
use vstd::prelude::*;

verus! {

/// The codes of the words.
pub const WORDS: [u64; 128] = [
    0x7573656c65737300,  // useless
    0x757375616c000000,  // usual
    0x7574696c69747900,  // utility
    0x766163616e740000,  // vacant
    0x76616375756d0000,  // vacuum
    0x7661677565000000,  // vague
    0x76616c6964000000,  // valid
    0x76616c6c65790000,  // valley
    0x76616c7665000000,  // valve
    0x76616e0000000000,  // van
    0x76616e6973680000,  // vanish
    0x7661706f72000000,  // vapor
    0x766172696f757300,  // various
    0x7661737400000000,  // vast
    0x7661756c74000000,  // vault
    0x76656869636c6500,  // vehicle
    0x76656c7665740000,  // velvet
    0x76656e646f720000,  // vendor
    0x76656e7475726500,  // venture
    0x76656e7565000000,  // venue
    0x7665726200000000,  // verb
    0x7665726966790000,  // verify
    0x76657273696f6e00,  // version
    0x7665727900000000,  // very
    0x76657373656c0000,  // vessel
    0x7665746572616e00,  // veteran
    0x766961626c650000,  // viable
    0x76696272616e7400,  // vibrant
    0x766963696f757300,  // vicious
    0x766963746f727900,  // victory
    0x766964656f000000,  // video
    0x7669657700000000,  // view
    0x76696c6c61676500,  // village
    0x76696e7461676500,  // vintage
    0x76696f6c696e0000,  // violin
    0x7669727475616c00,  // virtual
    0x7669727573000000,  // virus
    0x7669736100000000,  // visa
    0x7669736974000000,  // visit
    0x76697375616c0000,  // visual
    0x766974616c000000,  // vital
    0x7669766964000000,  // vivid
    0x766f63616c000000,  // vocal
    0x766f696365000000,  // voice
    0x766f696400000000,  // void
    0x766f6c63616e6f00,  // volcano
    0x766f6c756d650000,  // volume
    0x766f746500000000,  // vote
    0x766f796167650000,  // voyage
    0x7761676500000000,  // wage
    0x7761676f6e000000,  // wagon
    0x7761697400000000,  // wait
    0x77616c6b00000000,  // walk
    0x77616c6c00000000,  // wall
    0x77616c6e75740000,  // walnut
    0x77616e7400000000,  // want
    0x7761726661726500,  // warfare
    0x7761726d00000000,  // warm
    0x77617272696f7200,  // warrior
    0x7761736800000000,  // wash
    0x7761737000000000,  // wasp
    0x7761737465000000,  // waste
    0x7761746572000000,  // water
    0x7761766500000000,  // wave
    0x7761790000000000,  // way
    0x7765616c74680000,  // wealth
    0x776561706f6e0000,  // weapon
    0x7765617200000000,  // wear
    0x77656173656c0000,  // weasel
    0x7765617468657200,  // weather
    0x7765620000000000,  // web
    0x77656464696e6700,  // wedding
    0x7765656b656e6400,  // weekend
    0x7765697264000000,  // weird
    0x77656c636f6d6500,  // welcome
    0x7765737400000000,  // west
    0x7765740000000000,  // wet
    0x7768616c65000000,  // whale
    0x7768617400000000,  // what
    0x7768656174000000,  // wheat
    0x776865656c000000,  // wheel
    0x7768656e00000000,  // when
    0x7768657265000000,  // where
    0x7768697000000000,  // whip
    0x7768697370657200,  // whisper
    0x7769646500000000,  // wide
    0x7769647468000000,  // width
    0x7769666500000000,  // wife
    0x77696c6400000000,  // wild
    0x77696c6c00000000,  // will
    0x77696e0000000000,  // win
    0x77696e646f770000,  // window
    0x77696e6500000000,  // wine
    0x77696e6700000000,  // wing
    0x77696e6b00000000,  // wink
    0x77696e6e65720000,  // winner
    0x77696e7465720000,  // winter
    0x7769726500000000,  // wire
    0x776973646f6d0000,  // wisdom
    0x7769736500000000,  // wise
    0x7769736800000000,  // wish
    0x7769746e65737300,  // witness
    0x776f6c6600000000,  // wolf
    0x776f6d616e000000,  // woman
    0x776f6e6465720000,  // wonder
    0x776f6f6400000000,  // wood
    0x776f6f6c00000000,  // wool
    0x776f726400000000,  // word
    0x776f726b00000000,  // work
    0x776f726c64000000,  // world
    0x776f727279000000,  // worry
    0x776f727468000000,  // worth
    0x7772617000000000,  // wrap
    0x777265636b000000,  // wreck
    0x77726573746c6500,  // wrestle
    0x7772697374000000,  // wrist
    0x7772697465000000,  // write
    0x77726f6e67000000,  // wrong
    0x7961726400000000,  // yard
    0x7965617200000000,  // year
    0x79656c6c6f770000,  // yellow
    0x796f750000000000,  // you
    0x796f756e67000000,  // young
    0x796f757468000000,  // youth
    0x7a65627261000000,  // zebra
    0x7a65726f00000000,  // zero
    0x7a6f6e6500000000,  // zone
    0x7a6f6f0000000000,  // zoo
];

/// The code of the word `k` of the block.
pub closed spec fn word_code(k: int) -> u64 {
    WORDS[k]
}

/// Looks up the code of the word `k` of the block.
pub fn word_code_at(k: usize) -> (c: u64)
    requires
        k < 128,
    ensures
        c == word_code(k as int),
{
    WORDS[k]
}

/// Every entry of the block is the code of a word; the first and the last
/// entry are as stated.
pub proof fn lemma_words()
    ensures
        forall|k: int| 0 <= k < 128 ==> is_word_code(#[trigger] word_code(k)),
        word_code(0) == 0x7573656c65737300,
        word_code(127) == 0x7a6f6f0000000000,
{
    lemma_bip39_spelled_15();
    assert forall|k: int| 0 <= k < 128 implies is_word_code(#[trigger] word_code(k)) by {
        assert(spelled(WORDS[k]));
        lemma_spelled_is_word(WORDS[k]);
    }
}

/// The codes of the block increase strictly from each entry to the next.
pub proof fn lemma_rise(k: int)
    requires
        0 <= k < 127,
    ensures
        word_code(k) < word_code(k + 1),
{
}

} // verus!
