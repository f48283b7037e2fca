//! The words 1664 to 1791 of the BIP-39 list.

use crate::wordcode::is_word_code;
use crate::wordlists::spelling::{lemma_bip39_spelled_13, lemma_spelled_is_word, spelled};
use vstd::prelude::*;

verus! {

/// The codes of the words.
pub const WORDS: [u64; 128] = [
    0x736f757263650000,  // source
    0x736f757468000000,  // south
    0x7370616365000000,  // space
    0x7370617265000000,  // spare
    0x7370617469616c00,  // spatial
    0x737061776e000000,  // spawn
    0x737065616b000000,  // speak
    0x7370656369616c00,  // special
    0x7370656564000000,  // speed
    0x7370656c6c000000,  // spell
    0x7370656e64000000,  // spend
    0x7370686572650000,  // sphere
    0x7370696365000000,  // spice
    0x7370696465720000,  // spider
    0x7370696b65000000,  // spike
    0x7370696e00000000,  // spin
    0x7370697269740000,  // spirit
    0x73706c6974000000,  // split
    0x73706f696c000000,  // spoil
    0x73706f6e736f7200,  // sponsor
    0x73706f6f6e000000,  // spoon
    0x73706f7274000000,  // sport
    0x73706f7400000000,  // spot
    0x7370726179000000,  // spray
    0x7370726561640000,  // spread
    0x737072696e670000,  // spring
    0x7370790000000000,  // spy
    0x7371756172650000,  // square
    0x73717565657a6500,  // squeeze
    0x737175697272656c,  // squirrel
    0x737461626c650000,  // stable
    0x7374616469756d00,  // stadium
    0x7374616666000000,  // staff
    0x7374616765000000,  // stage
    0x7374616972730000,  // stairs
    0x7374616d70000000,  // stamp
    0x7374616e64000000,  // stand
    0x7374617274000000,  // start
    0x7374617465000000,  // state
    0x7374617900000000,  // stay
    0x737465616b000000,  // steak
    0x737465656c000000,  // steel
    0x7374656d00000000,  // stem
    0x7374657000000000,  // step
    0x73746572656f0000,  // stereo
    0x737469636b000000,  // stick
    0x7374696c6c000000,  // still
    0x7374696e67000000,  // sting
    0x73746f636b000000,  // stock
    0x73746f6d61636800,  // stomach
    0x73746f6e65000000,  // stone
    0x73746f6f6c000000,  // stool
    0x73746f7279000000,  // story
    0x73746f7665000000,  // stove
    0x7374726174656779,  // strategy
    0x7374726565740000,  // street
    0x737472696b650000,  // strike
    0x7374726f6e670000,  // strong
    0x7374727567676c65,  // struggle
    0x73747564656e7400,  // student
    0x7374756666000000,  // stuff
    0x7374756d626c6500,  // stumble
    0x7374796c65000000,  // style
    0x7375626a65637400,  // subject
    0x7375626d69740000,  // submit
    0x7375627761790000,  // subway
    0x7375636365737300,  // success
    0x7375636800000000,  // such
    0x73756464656e0000,  // sudden
    0x7375666665720000,  // suffer
    0x7375676172000000,  // sugar
    0x7375676765737400,  // suggest
    0x7375697400000000,  // suit
    0x73756d6d65720000,  // summer
    0x73756e0000000000,  // sun
    0x73756e6e79000000,  // sunny
    0x73756e7365740000,  // sunset
    0x7375706572000000,  // super
    0x737570706c790000,  // supply
    0x73757072656d6500,  // supreme
    0x7375726500000000,  // sure
    0x7375726661636500,  // surface
    0x7375726765000000,  // surge
    0x7375727072697365,  // surprise
    0x737572726f756e64,  // surround
    0x7375727665790000,  // survey
    0x7375737065637400,  // suspect
    0x7375737461696e00,  // sustain
    0x7377616c6c6f7700,  // swallow
    0x7377616d70000000,  // swamp
    0x7377617000000000,  // swap
    0x737761726d000000,  // swarm
    0x7377656172000000,  // swear
    0x7377656574000000,  // sweet
    0x7377696674000000,  // swift
    0x7377696d00000000,  // swim
    0x7377696e67000000,  // swing
    0x7377697463680000,  // switch
    0x73776f7264000000,  // sword
    0x73796d626f6c0000,  // symbol
    0x73796d70746f6d00,  // symptom
    0x7379727570000000,  // syrup
    0x73797374656d0000,  // system
    0x7461626c65000000,  // table
    0x7461636b6c650000,  // tackle
    0x7461670000000000,  // tag
    0x7461696c00000000,  // tail
    0x74616c656e740000,  // talent
    0x74616c6b00000000,  // talk
    0x74616e6b00000000,  // tank
    0x7461706500000000,  // tape
    0x7461726765740000,  // target
    0x7461736b00000000,  // task
    0x7461737465000000,  // taste
    0x746174746f6f0000,  // tattoo
    0x7461786900000000,  // taxi
    0x7465616368000000,  // teach
    0x7465616d00000000,  // team
    0x74656c6c00000000,  // tell
    0x74656e0000000000,  // ten
    0x74656e616e740000,  // tenant
    0x74656e6e69730000,  // tennis
    0x74656e7400000000,  // tent
    0x7465726d00000000,  // term
    0x7465737400000000,  // test
    0x7465787400000000,  // text
    0x7468616e6b000000,  // thank
    0x7468617400000000,  // that
];

/// The code of the word `k` of the block.
pub closed spec fn word_code(k: int) -> u64 {
    WORDS[k]
}

/// Looks up the code of the word `k` of the block.
pub fn word_code_at(k: usize) -> (c: u64)
    requires
        k < 128,
    ensures
        c == word_code(k as int),
{
    WORDS[k]
}

/// Every entry of the block is the code of a word; the first and the last
/// entry are as stated.
pub proof fn lemma_words()
    ensures
        forall|k: int| 0 <= k < 128 ==> is_word_code(#[trigger] word_code(k)),
        word_code(0) == 0x736f757263650000,
        word_code(127) == 0x7468617400000000,
{
    lemma_bip39_spelled_13();
    assert forall|k: int| 0 <= k < 128 implies is_word_code(#[trigger] word_code(k)) by {
        assert(spelled(WORDS[k]));
        lemma_spelled_is_word(WORDS[k]);
    }
}

/// The codes of the block increase strictly from each entry to the next.
pub proof fn lemma_rise(k: int)
    requires
        0 <= k < 127,
    ensures
        word_code(k) < word_code(k + 1),
{
}

} // verus!
