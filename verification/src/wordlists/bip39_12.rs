//! The words 1536 to 1663 of the BIP-39 list.

use crate::wordcode::is_word_code;
use crate::wordlists::spelling::{lemma_bip39_spelled_12, lemma_spelled_is_word, spelled};
use vstd::prelude::*;

verus! {

/// The codes of the words.
pub const WORDS: [u64; 128] = [
    0x7363616c65000000,  // scale
    0x7363616e00000000,  // scan
    0x7363617265000000,  // scare
    0x7363617474657200,  // scatter
    0x7363656e65000000,  // scene
    0x736368656d650000,  // scheme
    0x7363686f6f6c0000,  // school
    0x736369656e636500,  // science
    0x73636973736f7273,  // scissors
    0x73636f7270696f6e,  // scorpion
    0x73636f7574000000,  // scout
    0x7363726170000000,  // scrap
    0x73637265656e0000,  // screen
    0x7363726970740000,  // script
    0x7363727562000000,  // scrub
    0x7365610000000000,  // sea
    0x7365617263680000,  // search
    0x736561736f6e0000,  // season
    0x7365617400000000,  // seat
    0x7365636f6e640000,  // second
    0x7365637265740000,  // secret
    0x73656374696f6e00,  // section
    0x7365637572697479,  // security
    0x7365656400000000,  // seed
    0x7365656b00000000,  // seek
    0x7365676d656e7400,  // segment
    0x73656c6563740000,  // select
    0x73656c6c00000000,  // sell
    0x73656d696e617200,  // seminar
    0x73656e696f720000,  // senior
    0x73656e7365000000,  // sense
    0x73656e74656e6365,  // sentence
    0x7365726965730000,  // series
    0x7365727669636500,  // service
    0x73657373696f6e00,  // session
    0x736574746c650000,  // settle
    0x7365747570000000,  // setup
    0x736576656e000000,  // seven
    0x736861646f770000,  // shadow
    0x7368616674000000,  // shaft
    0x7368616c6c6f7700,  // shallow
    0x7368617265000000,  // share
    0x7368656400000000,  // shed
    0x7368656c6c000000,  // shell
    0x7368657269666600,  // sheriff
    0x736869656c640000,  // shield
    0x7368696674000000,  // shift
    0x7368696e65000000,  // shine
    0x7368697000000000,  // ship
    0x7368697665720000,  // shiver
    0x73686f636b000000,  // shock
    0x73686f6500000000,  // shoe
    0x73686f6f74000000,  // shoot
    0x73686f7000000000,  // shop
    0x73686f7274000000,  // short
    0x73686f756c646572,  // shoulder
    0x73686f7665000000,  // shove
    0x736872696d700000,  // shrimp
    0x7368727567000000,  // shrug
    0x73687566666c6500,  // shuffle
    0x7368790000000000,  // shy
    0x7369626c696e6700,  // sibling
    0x7369636b00000000,  // sick
    0x7369646500000000,  // side
    0x7369656765000000,  // siege
    0x7369676874000000,  // sight
    0x7369676e00000000,  // sign
    0x73696c656e740000,  // silent
    0x73696c6b00000000,  // silk
    0x73696c6c79000000,  // silly
    0x73696c7665720000,  // silver
    0x73696d696c617200,  // similar
    0x73696d706c650000,  // simple
    0x73696e6365000000,  // since
    0x73696e6700000000,  // sing
    0x736972656e000000,  // siren
    0x7369737465720000,  // sister
    0x7369747561746500,  // situate
    0x7369780000000000,  // six
    0x73697a6500000000,  // size
    0x736b617465000000,  // skate
    0x736b657463680000,  // sketch
    0x736b690000000000,  // ski
    0x736b696c6c000000,  // skill
    0x736b696e00000000,  // skin
    0x736b697274000000,  // skirt
    0x736b756c6c000000,  // skull
    0x736c616200000000,  // slab
    0x736c616d00000000,  // slam
    0x736c656570000000,  // sleep
    0x736c656e64657200,  // slender
    0x736c696365000000,  // slice
    0x736c696465000000,  // slide
    0x736c696768740000,  // slight
    0x736c696d00000000,  // slim
    0x736c6f67616e0000,  // slogan
    0x736c6f7400000000,  // slot
    0x736c6f7700000000,  // slow
    0x736c757368000000,  // slush
    0x736d616c6c000000,  // small
    0x736d617274000000,  // smart
    0x736d696c65000000,  // smile
    0x736d6f6b65000000,  // smoke
    0x736d6f6f74680000,  // smooth
    0x736e61636b000000,  // snack
    0x736e616b65000000,  // snake
    0x736e617000000000,  // snap
    0x736e696666000000,  // sniff
    0x736e6f7700000000,  // snow
    0x736f617000000000,  // soap
    0x736f636365720000,  // soccer
    0x736f6369616c0000,  // social
    0x736f636b00000000,  // sock
    0x736f646100000000,  // soda
    0x736f667400000000,  // soft
    0x736f6c6172000000,  // solar
    0x736f6c6469657200,  // soldier
    0x736f6c6964000000,  // solid
    0x736f6c7574696f6e,  // solution
    0x736f6c7665000000,  // solve
    0x736f6d656f6e6500,  // someone
    0x736f6e6700000000,  // song
    0x736f6f6e00000000,  // soon
    0x736f727279000000,  // sorry
    0x736f727400000000,  // sort
    0x736f756c00000000,  // soul
    0x736f756e64000000,  // sound
    0x736f757000000000,  // soup
];

/// The code of the word `k` of the block.
pub closed spec fn word_code(k: int) -> u64 {
    WORDS[k]
}

/// Looks up the code of the word `k` of the block.
pub fn word_code_at(k: usize) -> (c: u64)
    requires
        k < 128,
    ensures
        c == word_code(k as int),
{
    WORDS[k]
}

/// Every entry of the block is the code of a word; the first and the last
/// entry are as stated.
pub proof fn lemma_words()
    ensures
        forall|k: int| 0 <= k < 128 ==> is_word_code(#[trigger] word_code(k)),
        word_code(0) == 0x7363616c65000000,
        word_code(127) == 0x736f757000000000,
{
    lemma_bip39_spelled_12();
    assert forall|k: int| 0 <= k < 128 implies is_word_code(#[trigger] word_code(k)) by {
        assert(spelled(WORDS[k]));
        lemma_spelled_is_word(WORDS[k]);
    }
}

/// The codes of the block increase strictly from each entry to the next.
pub proof fn lemma_rise(k: int)
    requires
        0 <= k < 127,
    ensures
        word_code(k) < word_code(k + 1),
{
}

} // verus!
