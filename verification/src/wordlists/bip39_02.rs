//! The words 256 to 383 of the BIP-39 list.

use crate::wordcode::is_word_code;
use crate::wordlists::spelling::{lemma_bip39_spelled_02, lemma_spelled_is_word, spelled};
use vstd::prelude::*;

verus! {

/// The codes of the words.
pub const WORDS: [u64; 128] = [
    0x6361637475730000,  // cactus
    0x6361676500000000,  // cage
    0x63616b6500000000,  // cake
    0x63616c6c00000000,  // call
    0x63616c6d00000000,  // calm
    0x63616d6572610000,  // camera
    0x63616d7000000000,  // camp
    0x63616e0000000000,  // can
    0x63616e616c000000,  // canal
    0x63616e63656c0000,  // cancel
    0x63616e6479000000,  // candy
    0x63616e6e6f6e0000,  // cannon
    0x63616e6f65000000,  // canoe
    0x63616e7661730000,  // canvas
    0x63616e796f6e0000,  // canyon
    0x63617061626c6500,  // capable
    0x6361706974616c00,  // capital
    0x6361707461696e00,  // captain
    0x6361720000000000,  // car
    0x636172626f6e0000,  // carbon
    0x6361726400000000,  // card
    0x636172676f000000,  // cargo
    0x6361727065740000,  // carpet
    0x6361727279000000,  // carry
    0x6361727400000000,  // cart
    0x6361736500000000,  // case
    0x6361736800000000,  // cash
    0x636173696e6f0000,  // casino
    0x636173746c650000,  // castle
    0x63617375616c0000,  // casual
    0x6361740000000000,  // cat
    0x636174616c6f6700,  // catalog
    0x6361746368000000,  // catch
    0x63617465676f7279,  // category
    0x636174746c650000,  // cattle
    0x6361756768740000,  // caught
    0x6361757365000000,  // cause
    0x63617574696f6e00,  // caution
    0x6361766500000000,  // cave
    0x6365696c696e6700,  // ceiling
    0x63656c6572790000,  // celery
    0x63656d656e740000,  // cement
    0x63656e7375730000,  // census
    0x63656e7475727900,  // century
    0x63657265616c0000,  // cereal
    0x6365727461696e00,  // certain
    0x6368616972000000,  // chair
    0x6368616c6b000000,  // chalk
    0x6368616d70696f6e,  // champion
    0x6368616e67650000,  // change
    0x6368616f73000000,  // chaos
    0x6368617074657200,  // chapter
    0x6368617267650000,  // charge
    0x6368617365000000,  // chase
    0x6368617400000000,  // chat
    0x6368656170000000,  // cheap
    0x636865636b000000,  // check
    0x6368656573650000,  // cheese
    0x6368656600000000,  // chef
    0x6368657272790000,  // cherry
    0x6368657374000000,  // chest
    0x636869636b656e00,  // chicken
    0x6368696566000000,  // chief
    0x6368696c64000000,  // child
    0x6368696d6e657900,  // chimney
    0x63686f6963650000,  // choice
    0x63686f6f73650000,  // choose
    0x6368726f6e696300,  // chronic
    0x636875636b6c6500,  // chuckle
    0x6368756e6b000000,  // chunk
    0x636875726e000000,  // churn
    0x6369676172000000,  // cigar
    0x63696e6e616d6f6e,  // cinnamon
    0x636972636c650000,  // circle
    0x636974697a656e00,  // citizen
    0x6369747900000000,  // city
    0x636976696c000000,  // civil
    0x636c61696d000000,  // claim
    0x636c617000000000,  // clap
    0x636c617269667900,  // clarify
    0x636c617700000000,  // claw
    0x636c617900000000,  // clay
    0x636c65616e000000,  // clean
    0x636c65726b000000,  // clerk
    0x636c657665720000,  // clever
    0x636c69636b000000,  // click
    0x636c69656e740000,  // client
    0x636c696666000000,  // cliff
    0x636c696d62000000,  // climb
    0x636c696e69630000,  // clinic
    0x636c697000000000,  // clip
    0x636c6f636b000000,  // clock
    0x636c6f6700000000,  // clog
    0x636c6f7365000000,  // close
    0x636c6f7468000000,  // cloth
    0x636c6f7564000000,  // cloud
    0x636c6f776e000000,  // clown
    0x636c756200000000,  // club
    0x636c756d70000000,  // clump
    0x636c757374657200,  // cluster
    0x636c757463680000,  // clutch
    0x636f616368000000,  // coach
    0x636f617374000000,  // coast
    0x636f636f6e757400,  // coconut
    0x636f646500000000,  // code
    0x636f666665650000,  // coffee
    0x636f696c00000000,  // coil
    0x636f696e00000000,  // coin
    0x636f6c6c65637400,  // collect
    0x636f6c6f72000000,  // color
    0x636f6c756d6e0000,  // column
    0x636f6d62696e6500,  // combine
    0x636f6d6500000000,  // come
    0x636f6d666f727400,  // comfort
    0x636f6d6963000000,  // comic
    0x636f6d6d6f6e0000,  // common
    0x636f6d70616e7900,  // company
    0x636f6e6365727400,  // concert
    0x636f6e6475637400,  // conduct
    0x636f6e6669726d00,  // confirm
    0x636f6e6772657373,  // congress
    0x636f6e6e65637400,  // connect
    0x636f6e7369646572,  // consider
    0x636f6e74726f6c00,  // control
    0x636f6e76696e6365,  // convince
    0x636f6f6b00000000,  // cook
    0x636f6f6c00000000,  // cool
    0x636f707065720000,  // copper
];

/// The code of the word `k` of the block.
pub closed spec fn word_code(k: int) -> u64 {
    WORDS[k]
}

/// Looks up the code of the word `k` of the block.
pub fn word_code_at(k: usize) -> (c: u64)
    requires
        k < 128,
    ensures
        c == word_code(k as int),
{
    WORDS[k]
}

/// Every entry of the block is the code of a word; the first and the last
/// entry are as stated.
pub proof fn lemma_words()
    ensures
        forall|k: int| 0 <= k < 128 ==> is_word_code(#[trigger] word_code(k)),
        word_code(0) == 0x6361637475730000,
        word_code(127) == 0x636f707065720000,
{
    lemma_bip39_spelled_02();
    assert forall|k: int| 0 <= k < 128 implies is_word_code(#[trigger] word_code(k)) by {
        assert(spelled(WORDS[k]));
        lemma_spelled_is_word(WORDS[k]);
    }
}

/// The codes of the block increase strictly from each entry to the next.
pub proof fn lemma_rise(k: int)
    requires
        0 <= k < 127,
    ensures
        word_code(k) < word_code(k + 1),
{
}

} // verus!
