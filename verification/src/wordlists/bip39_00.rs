//! The words 0 to 127 of the BIP-39 list.

use crate::wordcode::is_word_code;
use crate::wordlists::spelling::{lemma_bip39_spelled_00, lemma_spelled_is_word, spelled};
use vstd::prelude::*;

verus! {

/// The codes of the words.
pub const WORDS: [u64; 128] = [
    0x6162616e646f6e00,  // abandon
    0x6162696c69747900,  // ability
    0x61626c6500000000,  // able
    0x61626f7574000000,  // about
    0x61626f7665000000,  // above
    0x616273656e740000,  // absent
    0x6162736f72620000,  // absorb
    0x6162737472616374,  // abstract
    0x6162737572640000,  // absurd
    0x6162757365000000,  // abuse
    0x6163636573730000,  // access
    0x6163636964656e74,  // accident
    0x6163636f756e7400,  // account
    0x6163637573650000,  // accuse
    0x6163686965766500,  // achieve
    0x6163696400000000,  // acid
    0x61636f7573746963,  // acoustic
    0x6163717569726500,  // acquire
    0x6163726f73730000,  // across
    0x6163740000000000,  // act
    0x616374696f6e0000,  // action
    0x6163746f72000000,  // actor
    0x6163747265737300,  // actress
    0x61637475616c0000,  // actual
    0x6164617074000000,  // adapt
    0x6164640000000000,  // add
    0x6164646963740000,  // addict
    0x6164647265737300,  // address
    0x61646a7573740000,  // adjust
    0x61646d6974000000,  // admit
    0x6164756c74000000,  // adult
    0x616476616e636500,  // advance
    0x6164766963650000,  // advice
    0x6165726f62696300,  // aerobic
    0x6166666169720000,  // affair
    0x6166666f72640000,  // afford
    0x6166726169640000,  // afraid
    0x616761696e000000,  // again
    0x6167650000000000,  // age
    0x6167656e74000000,  // agent
    0x6167726565000000,  // agree
    0x6168656164000000,  // ahead
    0x61696d0000000000,  // aim
    0x6169720000000000,  // air
    0x616972706f727400,  // airport
    0x6169736c65000000,  // aisle
    0x616c61726d000000,  // alarm
    0x616c62756d000000,  // album
    0x616c636f686f6c00,  // alcohol
    0x616c657274000000,  // alert
    0x616c69656e000000,  // alien
    0x616c6c0000000000,  // all
    0x616c6c6579000000,  // alley
    0x616c6c6f77000000,  // allow
    0x616c6d6f73740000,  // almost
    0x616c6f6e65000000,  // alone
    0x616c706861000000,  // alpha
    0x616c726561647900,  // already
    0x616c736f00000000,  // also
    0x616c746572000000,  // alter
    0x616c776179730000,  // always
    0x616d617465757200,  // amateur
    0x616d617a696e6700,  // amazing
    0x616d6f6e67000000,  // among
    0x616d6f756e740000,  // amount
    0x616d757365640000,  // amused
    0x616e616c79737400,  // analyst
    0x616e63686f720000,  // anchor
    0x616e6369656e7400,  // ancient
    0x616e676572000000,  // anger
    0x616e676c65000000,  // angle
    0x616e677279000000,  // angry
    0x616e696d616c0000,  // animal
    0x616e6b6c65000000,  // ankle
    0x616e6e6f756e6365,  // announce
    0x616e6e75616c0000,  // annual
    0x616e6f7468657200,  // another
    0x616e737765720000,  // answer
    0x616e74656e6e6100,  // antenna
    0x616e746971756500,  // antique
    0x616e786965747900,  // anxiety
    0x616e790000000000,  // any
    0x6170617274000000,  // apart
    0x61706f6c6f677900,  // apology
    0x6170706561720000,  // appear
    0x6170706c65000000,  // apple
    0x617070726f766500,  // approve
    0x617072696c000000,  // april
    0x6172636800000000,  // arch
    0x6172637469630000,  // arctic
    0x6172656100000000,  // area
    0x6172656e61000000,  // arena
    0x6172677565000000,  // argue
    0x61726d0000000000,  // arm
    0x61726d6564000000,  // armed
    0x61726d6f72000000,  // armor
    0x61726d7900000000,  // army
    0x61726f756e640000,  // around
    0x617272616e676500,  // arrange
    0x6172726573740000,  // arrest
    0x6172726976650000,  // arrive
    0x6172726f77000000,  // arrow
    0x6172740000000000,  // art
    0x6172746566616374,  // artefact
    0x6172746973740000,  // artist
    0x617274776f726b00,  // artwork
    0x61736b0000000000,  // ask
    0x6173706563740000,  // aspect
    0x61737361756c7400,  // assault
    0x6173736574000000,  // asset
    0x6173736973740000,  // assist
    0x617373756d650000,  // assume
    0x617374686d610000,  // asthma
    0x6174686c65746500,  // athlete
    0x61746f6d00000000,  // atom
    0x61747461636b0000,  // attack
    0x617474656e640000,  // attend
    0x6174746974756465,  // attitude
    0x6174747261637400,  // attract
    0x61756374696f6e00,  // auction
    0x6175646974000000,  // audit
    0x6175677573740000,  // august
    0x61756e7400000000,  // aunt
    0x617574686f720000,  // author
    0x6175746f00000000,  // auto
    0x617574756d6e0000,  // autumn
    0x6176657261676500,  // average
    0x61766f6361646f00,  // avocado
];

/// The code of the word `k` of the block.
pub closed spec fn word_code(k: int) -> u64 {
    WORDS[k]
}

/// Looks up the code of the word `k` of the block.
pub fn word_code_at(k: usize) -> (c: u64)
    requires
        k < 128,
    ensures
        c == word_code(k as int),
{
    WORDS[k]
}

/// Every entry of the block is the code of a word; the first and the last
/// entry are as stated.
pub proof fn lemma_words()
    ensures
        forall|k: int| 0 <= k < 128 ==> is_word_code(#[trigger] word_code(k)),
        word_code(0) == 0x6162616e646f6e00,
        word_code(127) == 0x61766f6361646f00,
{
    lemma_bip39_spelled_00();
    assert forall|k: int| 0 <= k < 128 implies is_word_code(#[trigger] word_code(k)) by {
        assert(spelled(WORDS[k]));
        lemma_spelled_is_word(WORDS[k]);
    }
}

/// The codes of the block increase strictly from each entry to the next.
pub proof fn lemma_rise(k: int)
    requires
        0 <= k < 127,
    ensures
        word_code(k) < word_code(k + 1),
{
}

} // verus!
