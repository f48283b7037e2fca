//! The words 1024 to 1151 of the BIP-39 list.

use crate::wordcode::is_word_code;
use crate::wordlists::spelling::{lemma_bip39_spelled_08, lemma_spelled_is_word, spelled};
use vstd::prelude::*;

verus! {

/// The codes of the words.
pub const WORDS: [u64; 128] = [
    0x6c656e6774680000,  // length
    0x6c656e7300000000,  // lens
    0x6c656f7061726400,  // leopard
    0x6c6573736f6e0000,  // lesson
    0x6c65747465720000,  // letter
    0x6c6576656c000000,  // level
    0x6c69617200000000,  // liar
    0x6c69626572747900,  // liberty
    0x6c69627261727900,  // library
    0x6c6963656e736500,  // license
    0x6c69666500000000,  // life
    0x6c69667400000000,  // lift
    0x6c69676874000000,  // light
    0x6c696b6500000000,  // like
    0x6c696d6200000000,  // limb
    0x6c696d6974000000,  // limit
    0x6c696e6b00000000,  // link
    0x6c696f6e00000000,  // lion
    0x6c69717569640000,  // liquid
    0x6c69737400000000,  // list
    0x6c6974746c650000,  // little
    0x6c69766500000000,  // live
    0x6c697a6172640000,  // lizard
    0x6c6f616400000000,  // load
    0x6c6f616e00000000,  // loan
    0x6c6f627374657200,  // lobster
    0x6c6f63616c000000,  // local
    0x6c6f636b00000000,  // lock
    0x6c6f676963000000,  // logic
    0x6c6f6e656c790000,  // lonely
    0x6c6f6e6700000000,  // long
    0x6c6f6f7000000000,  // loop
    0x6c6f747465727900,  // lottery
    0x6c6f756400000000,  // loud
    0x6c6f756e67650000,  // lounge
    0x6c6f766500000000,  // love
    0x6c6f79616c000000,  // loyal
    0x6c75636b79000000,  // lucky
    0x6c75676761676500,  // luggage
    0x6c756d6265720000,  // lumber
    0x6c756e6172000000,  // lunar
    0x6c756e6368000000,  // lunch
    0x6c75787572790000,  // luxury
    0x6c79726963730000,  // lyrics
    0x6d616368696e6500,  // machine
    0x6d61640000000000,  // mad
    0x6d61676963000000,  // magic
    0x6d61676e65740000,  // magnet
    0x6d61696400000000,  // maid
    0x6d61696c00000000,  // mail
    0x6d61696e00000000,  // main
    0x6d616a6f72000000,  // major
    0x6d616b6500000000,  // make
    0x6d616d6d616c0000,  // mammal
    0x6d616e0000000000,  // man
    0x6d616e6167650000,  // manage
    0x6d616e6461746500,  // mandate
    0x6d616e676f000000,  // mango
    0x6d616e73696f6e00,  // mansion
    0x6d616e75616c0000,  // manual
    0x6d61706c65000000,  // maple
    0x6d6172626c650000,  // marble
    0x6d61726368000000,  // march
    0x6d617267696e0000,  // margin
    0x6d6172696e650000,  // marine
    0x6d61726b65740000,  // market
    0x6d61727269616765,  // marriage
    0x6d61736b00000000,  // mask
    0x6d61737300000000,  // mass
    0x6d61737465720000,  // master
    0x6d61746368000000,  // match
    0x6d6174657269616c,  // material
    0x6d61746800000000,  // math
    0x6d61747269780000,  // matrix
    0x6d61747465720000,  // matter
    0x6d6178696d756d00,  // maximum
    0x6d617a6500000000,  // maze
    0x6d6561646f770000,  // meadow
    0x6d65616e00000000,  // mean
    0x6d65617375726500,  // measure
    0x6d65617400000000,  // meat
    0x6d656368616e6963,  // mechanic
    0x6d6564616c000000,  // medal
    0x6d65646961000000,  // media
    0x6d656c6f64790000,  // melody
    0x6d656c7400000000,  // melt
    0x6d656d6265720000,  // member
    0x6d656d6f72790000,  // memory
    0x6d656e74696f6e00,  // mention
    0x6d656e7500000000,  // menu
    0x6d65726379000000,  // mercy
    0x6d65726765000000,  // merge
    0x6d65726974000000,  // merit
    0x6d65727279000000,  // merry
    0x6d65736800000000,  // mesh
    0x6d65737361676500,  // message
    0x6d6574616c000000,  // metal
    0x6d6574686f640000,  // method
    0x6d6964646c650000,  // middle
    0x6d69646e69676874,  // midnight
    0x6d696c6b00000000,  // milk
    0x6d696c6c696f6e00,  // million
    0x6d696d6963000000,  // mimic
    0x6d696e6400000000,  // mind
    0x6d696e696d756d00,  // minimum
    0x6d696e6f72000000,  // minor
    0x6d696e7574650000,  // minute
    0x6d697261636c6500,  // miracle
    0x6d6972726f720000,  // mirror
    0x6d69736572790000,  // misery
    0x6d69737300000000,  // miss
    0x6d697374616b6500,  // mistake
    0x6d69780000000000,  // mix
    0x6d69786564000000,  // mixed
    0x6d69787475726500,  // mixture
    0x6d6f62696c650000,  // mobile
    0x6d6f64656c000000,  // model
    0x6d6f646966790000,  // modify
    0x6d6f6d0000000000,  // mom
    0x6d6f6d656e740000,  // moment
    0x6d6f6e69746f7200,  // monitor
    0x6d6f6e6b65790000,  // monkey
    0x6d6f6e7374657200,  // monster
    0x6d6f6e7468000000,  // month
    0x6d6f6f6e00000000,  // moon
    0x6d6f72616c000000,  // moral
    0x6d6f726500000000,  // more
    0x6d6f726e696e6700,  // morning
];

/// The code of the word `k` of the block.
pub closed spec fn word_code(k: int) -> u64 {
    WORDS[k]
}

/// Looks up the code of the word `k` of the block.
pub fn word_code_at(k: usize) -> (c: u64)
    requires
        k < 128,
    ensures
        c == word_code(k as int),
{
    WORDS[k]
}

/// Every entry of the block is the code of a word; the first and the last
/// entry are as stated.
pub proof fn lemma_words()
    ensures
        forall|k: int| 0 <= k < 128 ==> is_word_code(#[trigger] word_code(k)),
        word_code(0) == 0x6c656e6774680000,
        word_code(127) == 0x6d6f726e696e6700,
{
    lemma_bip39_spelled_08();
    assert forall|k: int| 0 <= k < 128 implies is_word_code(#[trigger] word_code(k)) by {
        assert(spelled(WORDS[k]));
        lemma_spelled_is_word(WORDS[k]);
    }
}

/// The codes of the block increase strictly from each entry to the next.
pub proof fn lemma_rise(k: int)
    requires
        0 <= k < 127,
    ensures
        word_code(k) < word_code(k + 1),
{
}

} // verus!
