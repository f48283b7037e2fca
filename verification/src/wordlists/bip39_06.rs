//! The words 768 to 895 of the BIP-39 list.

use crate::wordcode::is_word_code;
use crate::wordlists::spelling::{lemma_bip39_spelled_06, lemma_spelled_is_word, spelled};
use vstd::prelude::*;

verus! {

/// The codes of the words.
pub const WORDS: [u64; 128] = [
    0x6761730000000000,  // gas
    0x6761737000000000,  // gasp
    0x6761746500000000,  // gate
    0x6761746865720000,  // gather
    0x6761756765000000,  // gauge
    0x67617a6500000000,  // gaze
    0x67656e6572616c00,  // general
    0x67656e6975730000,  // genius
    0x67656e7265000000,  // genre
    0x67656e746c650000,  // gentle
    0x67656e75696e6500,  // genuine
    0x6765737475726500,  // gesture
    0x67686f7374000000,  // ghost
    0x6769616e74000000,  // giant
    0x6769667400000000,  // gift
    0x676967676c650000,  // giggle
    0x67696e6765720000,  // ginger
    0x6769726166666500,  // giraffe
    0x6769726c00000000,  // girl
    0x6769766500000000,  // give
    0x676c616400000000,  // glad
    0x676c616e63650000,  // glance
    0x676c617265000000,  // glare
    0x676c617373000000,  // glass
    0x676c696465000000,  // glide
    0x676c696d70736500,  // glimpse
    0x676c6f6265000000,  // globe
    0x676c6f6f6d000000,  // gloom
    0x676c6f7279000000,  // glory
    0x676c6f7665000000,  // glove
    0x676c6f7700000000,  // glow
    0x676c756500000000,  // glue
    0x676f617400000000,  // goat
    0x676f646465737300,  // goddess
    0x676f6c6400000000,  // gold
    0x676f6f6400000000,  // good
    0x676f6f7365000000,  // goose
    0x676f72696c6c6100,  // gorilla
    0x676f7370656c0000,  // gospel
    0x676f737369700000,  // gossip
    0x676f7665726e0000,  // govern
    0x676f776e00000000,  // gown
    0x6772616200000000,  // grab
    0x6772616365000000,  // grace
    0x677261696e000000,  // grain
    0x6772616e74000000,  // grant
    0x6772617065000000,  // grape
    0x6772617373000000,  // grass
    0x6772617669747900,  // gravity
    0x6772656174000000,  // great
    0x677265656e000000,  // green
    0x6772696400000000,  // grid
    0x6772696566000000,  // grief
    0x6772697400000000,  // grit
    0x67726f6365727900,  // grocery
    0x67726f7570000000,  // group
    0x67726f7700000000,  // grow
    0x6772756e74000000,  // grunt
    0x6775617264000000,  // guard
    0x6775657373000000,  // guess
    0x6775696465000000,  // guide
    0x6775696c74000000,  // guilt
    0x6775697461720000,  // guitar
    0x67756e0000000000,  // gun
    0x67796d0000000000,  // gym
    0x6861626974000000,  // habit
    0x6861697200000000,  // hair
    0x68616c6600000000,  // half
    0x68616d6d65720000,  // hammer
    0x68616d7374657200,  // hamster
    0x68616e6400000000,  // hand
    0x6861707079000000,  // happy
    0x686172626f720000,  // harbor
    0x6861726400000000,  // hard
    0x6861727368000000,  // harsh
    0x6861727665737400,  // harvest
    0x6861740000000000,  // hat
    0x6861766500000000,  // have
    0x6861776b00000000,  // hawk
    0x68617a6172640000,  // hazard
    0x6865616400000000,  // head
    0x6865616c74680000,  // health
    0x6865617274000000,  // heart
    0x6865617679000000,  // heavy
    0x6865646765686f67,  // hedgehog
    0x6865696768740000,  // height
    0x68656c6c6f000000,  // hello
    0x68656c6d65740000,  // helmet
    0x68656c7000000000,  // help
    0x68656e0000000000,  // hen
    0x6865726f00000000,  // hero
    0x68696464656e0000,  // hidden
    0x6869676800000000,  // high
    0x68696c6c00000000,  // hill
    0x68696e7400000000,  // hint
    0x6869700000000000,  // hip
    0x6869726500000000,  // hire
    0x686973746f727900,  // history
    0x686f626279000000,  // hobby
    0x686f636b65790000,  // hockey
    0x686f6c6400000000,  // hold
    0x686f6c6500000000,  // hole
    0x686f6c6964617900,  // holiday
    0x686f6c6c6f770000,  // hollow
    0x686f6d6500000000,  // home
    0x686f6e6579000000,  // honey
    0x686f6f6400000000,  // hood
    0x686f706500000000,  // hope
    0x686f726e00000000,  // horn
    0x686f72726f720000,  // horror
    0x686f727365000000,  // horse
    0x686f73706974616c,  // hospital
    0x686f737400000000,  // host
    0x686f74656c000000,  // hotel
    0x686f757200000000,  // hour
    0x686f766572000000,  // hover
    0x6875620000000000,  // hub
    0x6875676500000000,  // huge
    0x68756d616e000000,  // human
    0x68756d626c650000,  // humble
    0x68756d6f72000000,  // humor
    0x68756e6472656400,  // hundred
    0x68756e6772790000,  // hungry
    0x68756e7400000000,  // hunt
    0x687572646c650000,  // hurdle
    0x6875727279000000,  // hurry
    0x6875727400000000,  // hurt
    0x68757362616e6400,  // husband
];

/// The code of the word `k` of the block.
pub closed spec fn word_code(k: int) -> u64 {
    WORDS[k]
}

/// Looks up the code of the word `k` of the block.
pub fn word_code_at(k: usize) -> (c: u64)
    requires
        k < 128,
    ensures
        c == word_code(k as int),
{
    WORDS[k]
}

/// Every entry of the block is the code of a word; the first and the last
/// entry are as stated.
pub proof fn lemma_words()
    ensures
        forall|k: int| 0 <= k < 128 ==> is_word_code(#[trigger] word_code(k)),
        word_code(0) == 0x6761730000000000,
        word_code(127) == 0x68757362616e6400,
{
    lemma_bip39_spelled_06();
    assert forall|k: int| 0 <= k < 128 implies is_word_code(#[trigger] word_code(k)) by {
        assert(spelled(WORDS[k]));
        lemma_spelled_is_word(WORDS[k]);
    }
}

/// The codes of the block increase strictly from each entry to the next.
pub proof fn lemma_rise(k: int)
    requires
        0 <= k < 127,
    ensures
        word_code(k) < word_code(k + 1),
{
}

} // verus!
