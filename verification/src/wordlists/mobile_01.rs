//! The words 128 to 255 of the mobile list.

use crate::wordcode::is_word_code;
use crate::wordlists::spelling::{lemma_mobile_spelled_01, lemma_spelled_is_word, spelled};
use vstd::prelude::*;

verus! {

/// The codes of the words.
pub const WORDS: [u64; 128] = [
    0x6d61677069650000,  // magpie
    0x6d616c6c6f770000,  // mallow
    0x6d616e676f000000,  // mango
    0x6d61706c65000000,  // maple
    0x6d6172626c650000,  // marble
    0x6d61727368000000,  // marsh
    0x6d6561646f770000,  // meadow
    0x6d656c6f6e000000,  // melon
    0x6d65736100000000,  // mesa
    0x6d696e7400000000,  // mint
    0x6d69737479000000,  // misty
    0x6d6f6c6500000000,  // mole
    0x6d6f6e736f6f6e00,  // monsoon
    0x6d6f6f7365000000,  // moose
    0x6d6f737300000000,  // moss
    0x6d6f746800000000,  // moth
    0x6d756c6265727279,  // mulberry
    0x6d7972746c650000,  // myrtle
    0x6e65637461720000,  // nectar
    0x6e6574746c650000,  // nettle
    0x6e65777400000000,  // newt
    0x6e75746d65670000,  // nutmeg
    0x6f616b0000000000,  // oak
    0x6f61736973000000,  // oasis
    0x6f6365616e000000,  // ocean
    0x6f63656c6f740000,  // ocelot
    0x6f6c697665000000,  // olive
    0x6f6e797800000000,  // onyx
    0x6f70616c00000000,  // opal
    0x6f72636869640000,  // orchid
    0x6f72696f6c650000,  // oriole
    0x6f73707265790000,  // osprey
    0x6f74746572000000,  // otter
    0x6f776c0000000000,  // owl
    0x6f79737465720000,  // oyster
    0x70616c6d00000000,  // palm
    0x70616e6461000000,  // panda
    0x70616e7379000000,  // pansy
    0x7061706179610000,  // papaya
    0x706172726f740000,  // parrot
    0x706562626c650000,  // pebble
    0x706563616e000000,  // pecan
    0x70656c6963616e00,  // pelican
    0x70656f6e79000000,  // peony
    0x7065707065720000,  // pepper
    0x706574616c000000,  // petal
    0x7065777465720000,  // pewter
    0x706967656f6e0000,  // pigeon
    0x70696e6500000000,  // pine
    0x706c6f7665720000,  // plover
    0x706c756d00000000,  // plum
    0x706f6c6c656e0000,  // pollen
    0x706f6e6400000000,  // pond
    0x706f706c61720000,  // poplar
    0x706f707079000000,  // poppy
    0x7072616972696500,  // prairie
    0x70756666696e0000,  // puffin
    0x70756d6100000000,  // puma
    0x717561696c000000,  // quail
    0x71756172747a0000,  // quartz
    0x7175696c6c000000,  // quill
    0x7175696e63650000,  // quince
    0x7261626269740000,  // rabbit
    0x726163636f6f6e00,  // raccoon
    0x7261646973680000,  // radish
    0x7261696e00000000,  // rain
    0x726176656e000000,  // raven
    0x7265656400000000,  // reed
    0x7265656600000000,  // reef
    0x7269646765000000,  // ridge
    0x7269766572000000,  // river
    0x726f62696e000000,  // robin
    0x726f736500000000,  // rose
    0x726f77616e000000,  // rowan
    0x7275627900000000,  // ruby
    0x73616666726f6e00,  // saffron
    0x7361676500000000,  // sage
    0x73616c6d6f6e0000,  // salmon
    0x7361706c696e6700,  // sapling
    0x7361707068697265,  // sapphire
    0x7365616c00000000,  // seal
    0x736571756f696100,  // sequoia
    0x7368616c65000000,  // shale
    0x7368656c6c000000,  // shell
    0x73686f7265000000,  // shore
    0x7368726577000000,  // shrew
    0x73696c7665720000,  // silver
    0x736c617465000000,  // slate
    0x736e61696c000000,  // snail
    0x736f7272656c0000,  // sorrel
    0x73706172726f7700,  // sparrow
    0x7370727563650000,  // spruce
    0x7371756964000000,  // squid
    0x737461726c696e67,  // starling
    0x73746f6174000000,  // stoat
    0x73746f6e65000000,  // stone
    0x73746f726b000000,  // stork
    0x73756d6d69740000,  // summit
    0x73756e7365740000,  // sunset
    0x7377616c6c6f7700,  // swallow
    0x7377616e00000000,  // swan
    0x74616c6c6f770000,  // tallow
    0x74616d6172696e64,  // tamarind
    0x74616e7379000000,  // tansy
    0x7461706972000000,  // tapir
    0x7465616b00000000,  // teak
    0x7465726e00000000,  // tern
    0x74686973746c6500,  // thistle
    0x74686f726e000000,  // thorn
    0x7468727573680000,  // thrush
    0x7468796d65000000,  // thyme
    0x7469676572000000,  // tiger
    0x74696d6265720000,  // timber
    0x746f616400000000,  // toad
    0x746f70617a000000,  // topaz
    0x746f7563616e0000,  // toucan
    0x74726f7574000000,  // trout
    0x74756c6970000000,  // tulip
    0x74756e6472610000,  // tundra
    0x747572746c650000,  // turtle
    0x76616c6c65790000,  // valley
    0x76656c7665740000,  // velvet
    0x76696f6c61000000,  // viola
    0x76696f6c65740000,  // violet
    0x77616c6e75740000,  // walnut
    0x77616c7275730000,  // walrus
    0x776172626c657200,  // warbler
    0x7761737000000000,  // wasp
];

/// The code of the word `k` of the block.
pub closed spec fn word_code(k: int) -> u64 {
    WORDS[k]
}

/// Looks up the code of the word `k` of the block.
pub fn word_code_at(k: usize) -> (c: u64)
    requires
        k < 128,
    ensures
        c == word_code(k as int),
{
    WORDS[k]
}

/// Every entry of the block is the code of a word; the first and the last
/// entry are as stated.
pub proof fn lemma_words()
    ensures
        forall|k: int| 0 <= k < 128 ==> is_word_code(#[trigger] word_code(k)),
        word_code(0) == 0x6d61677069650000,
        word_code(127) == 0x7761737000000000,
{
    lemma_mobile_spelled_01();
    assert forall|k: int| 0 <= k < 128 implies is_word_code(#[trigger] word_code(k)) by {
        assert(spelled(WORDS[k]));
        lemma_spelled_is_word(WORDS[k]);
    }
}

/// The codes of the block increase strictly from each entry to the next.
pub proof fn lemma_rise(k: int)
    requires
        0 <= k < 127,
    ensures
        word_code(k) < word_code(k + 1),
{
}

} // verus!
