//! The words 640 to 767 of the BIP-39 list.

use crate::wordcode::is_word_code;
use crate::wordlists::spelling::{lemma_bip39_spelled_05, lemma_spelled_is_word, spelled};
use vstd::prelude::*;

verus! {

/// The codes of the words.
pub const WORDS: [u64; 128] = [
    0x65786f7469630000,  // exotic
    0x657870616e640000,  // expand
    0x6578706563740000,  // expect
    0x6578706972650000,  // expire
    0x6578706c61696e00,  // explain
    0x6578706f73650000,  // expose
    0x6578707265737300,  // express
    0x657874656e640000,  // extend
    0x6578747261000000,  // extra
    0x6579650000000000,  // eye
    0x65796562726f7700,  // eyebrow
    0x6661627269630000,  // fabric
    0x6661636500000000,  // face
    0x666163756c747900,  // faculty
    0x6661646500000000,  // fade
    0x6661696e74000000,  // faint
    0x6661697468000000,  // faith
    0x66616c6c00000000,  // fall
    0x66616c7365000000,  // false
    0x66616d6500000000,  // fame
    0x66616d696c790000,  // family
    0x66616d6f75730000,  // famous
    0x66616e0000000000,  // fan
    0x66616e6379000000,  // fancy
    0x66616e7461737900,  // fantasy
    0x6661726d00000000,  // farm
    0x66617368696f6e00,  // fashion
    0x6661740000000000,  // fat
    0x666174616c000000,  // fatal
    0x6661746865720000,  // father
    0x6661746967756500,  // fatigue
    0x6661756c74000000,  // fault
    0x6661766f72697465,  // favorite
    0x6665617475726500,  // feature
    0x6665627275617279,  // february
    0x6665646572616c00,  // federal
    0x6665650000000000,  // fee
    0x6665656400000000,  // feed
    0x6665656c00000000,  // feel
    0x66656d616c650000,  // female
    0x66656e6365000000,  // fence
    0x666573746976616c,  // festival
    0x6665746368000000,  // fetch
    0x6665766572000000,  // fever
    0x6665770000000000,  // few
    0x6669626572000000,  // fiber
    0x66696374696f6e00,  // fiction
    0x6669656c64000000,  // field
    0x6669677572650000,  // figure
    0x66696c6500000000,  // file
    0x66696c6d00000000,  // film
    0x66696c7465720000,  // filter
    0x66696e616c000000,  // final
    0x66696e6400000000,  // find
    0x66696e6500000000,  // fine
    0x66696e6765720000,  // finger
    0x66696e6973680000,  // finish
    0x6669726500000000,  // fire
    0x6669726d00000000,  // firm
    0x6669727374000000,  // first
    0x66697363616c0000,  // fiscal
    0x6669736800000000,  // fish
    0x6669740000000000,  // fit
    0x6669746e65737300,  // fitness
    0x6669780000000000,  // fix
    0x666c616700000000,  // flag
    0x666c616d65000000,  // flame
    0x666c617368000000,  // flash
    0x666c617400000000,  // flat
    0x666c61766f720000,  // flavor
    0x666c656500000000,  // flee
    0x666c696768740000,  // flight
    0x666c697000000000,  // flip
    0x666c6f6174000000,  // float
    0x666c6f636b000000,  // flock
    0x666c6f6f72000000,  // floor
    0x666c6f7765720000,  // flower
    0x666c756964000000,  // fluid
    0x666c757368000000,  // flush
    0x666c790000000000,  // fly
    0x666f616d00000000,  // foam
    0x666f637573000000,  // focus
    0x666f670000000000,  // fog
    0x666f696c00000000,  // foil
    0x666f6c6400000000,  // fold
    0x666f6c6c6f770000,  // follow
    0x666f6f6400000000,  // food
    0x666f6f7400000000,  // foot
    0x666f726365000000,  // force
    0x666f726573740000,  // forest
    0x666f726765740000,  // forget
    0x666f726b00000000,  // fork
    0x666f7274756e6500,  // fortune
    0x666f72756d000000,  // forum
    0x666f727761726400,  // forward
    0x666f7373696c0000,  // fossil
    0x666f737465720000,  // foster
    0x666f756e64000000,  // found
    0x666f780000000000,  // fox
    0x66726167696c6500,  // fragile
    0x6672616d65000000,  // frame
    0x6672657175656e74,  // frequent
    0x6672657368000000,  // fresh
    0x667269656e640000,  // friend
    0x6672696e67650000,  // fringe
    0x66726f6700000000,  // frog
    0x66726f6e74000000,  // front
    0x66726f7374000000,  // frost
    0x66726f776e000000,  // frown
    0x66726f7a656e0000,  // frozen
    0x6672756974000000,  // fruit
    0x6675656c00000000,  // fuel
    0x66756e0000000000,  // fun
    0x66756e6e79000000,  // funny
    0x6675726e61636500,  // furnace
    0x6675727900000000,  // fury
    0x6675747572650000,  // future
    0x6761646765740000,  // gadget
    0x6761696e00000000,  // gain
    0x67616c6178790000,  // galaxy
    0x67616c6c65727900,  // gallery
    0x67616d6500000000,  // game
    0x6761700000000000,  // gap
    0x6761726167650000,  // garage
    0x6761726261676500,  // garbage
    0x67617264656e0000,  // garden
    0x6761726c69630000,  // garlic
    0x6761726d656e7400,  // garment
];

/// The code of the word `k` of the block.
pub closed spec fn word_code(k: int) -> u64 {
    WORDS[k]
}

/// Looks up the code of the word `k` of the block.
pub fn word_code_at(k: usize) -> (c: u64)
    requires
        k < 128,
    ensures
        c == word_code(k as int),
{
    WORDS[k]
}

/// Every entry of the block is the code of a word; the first and the last
/// entry are as stated.
pub proof fn lemma_words()
    ensures
        forall|k: int| 0 <= k < 128 ==> is_word_code(#[trigger] word_code(k)),
        word_code(0) == 0x65786f7469630000,
        word_code(127) == 0x6761726d656e7400,
{
    lemma_bip39_spelled_05();
    assert forall|k: int| 0 <= k < 128 implies is_word_code(#[trigger] word_code(k)) by {
        assert(spelled(WORDS[k]));
        lemma_spelled_is_word(WORDS[k]);
    }
}

/// The codes of the block increase strictly from each entry to the next.
pub proof fn lemma_rise(k: int)
    requires
        0 <= k < 127,
    ensures
        word_code(k) < word_code(k + 1),
{
}

} // verus!
