//! The words 0 to 127 of the mobile list.

use crate::wordcode::is_word_code;
use crate::wordlists::spelling::{lemma_mobile_spelled_00, lemma_spelled_is_word, spelled};
use vstd::prelude::*;

verus! {

/// The codes of the words.
pub const WORDS: [u64; 128] = [
    0x61636f726e000000,  // acorn
    0x6167617465000000,  // agate
    0x616c646572000000,  // alder
    0x616c6d6f6e640000,  // almond
    0x616d626572000000,  // amber
    0x616e63686f720000,  // anchor
    0x616e76696c000000,  // anvil
    0x61707269636f7400,  // apricot
    0x6172626f72000000,  // arbor
    0x617370656e000000,  // aspen
    0x6173746572000000,  // aster
    0x61746c6173000000,  // atlas
    0x6261646765720000,  // badger
    0x62616d626f6f0000,  // bamboo
    0x62616e6a6f000000,  // banjo
    0x6261726c65790000,  // barley
    0x626173616c740000,  // basalt
    0x626173696c000000,  // basil
    0x626561636f6e0000,  // beacon
    0x6265656368000000,  // beech
    0x6269726368000000,  // birch
    0x6269736f6e000000,  // bison
    0x626c6f73736f6d00,  // blossom
    0x626f626361740000,  // bobcat
    0x6272616d626c6500,  // bramble
    0x62726f6f6b000000,  // brook
    0x62756666616c6f00,  // buffalo
    0x627572726f770000,  // burrow
    0x6361637475730000,  // cactus
    0x63616d656c000000,  // camel
    0x63616e6172790000,  // canary
    0x63616e646c650000,  // candle
    0x63616e796f6e0000,  // canyon
    0x63617269626f7500,  // caribou
    0x6365646172000000,  // cedar
    0x63656c6c6f000000,  // cello
    0x6368616c6b000000,  // chalk
    0x6368657272790000,  // cherry
    0x63686973656c0000,  // chisel
    0x6369636164610000,  // cicada
    0x63696e6465720000,  // cinder
    0x6369747275730000,  // citrus
    0x636c6f7665720000,  // clover
    0x636f62616c740000,  // cobalt
    0x636f6d6574000000,  // comet
    0x636f6e646f720000,  // condor
    0x636f707065720000,  // copper
    0x636f72616c000000,  // coral
    0x636f74746f6e0000,  // cotton
    0x636f796f74650000,  // coyote
    0x6372616e65000000,  // crane
    0x6372617465720000,  // crater
    0x637269636b657400,  // cricket
    0x63726f6375730000,  // crocus
    0x6372797374616c00,  // crystal
    0x6379707265737300,  // cypress
    0x6461697379000000,  // daisy
    0x64656c7461000000,  // delta
    0x6465736572740000,  // desert
    0x646f6c7068696e00,  // dolphin
    0x64756e6500000000,  // dune
    0x6561676c65000000,  // eagle
    0x65626f6e79000000,  // ebony
    0x6563686f00000000,  // echo
    0x656c646572000000,  // elder
    0x656d626572000000,  // ember
    0x66616c636f6e0000,  // falcon
    0x66656e6e656c0000,  // fennel
    0x6665726e00000000,  // fern
    0x6665727265740000,  // ferret
    0x666964646c650000,  // fiddle
    0x66696e6368000000,  // finch
    0x666a6f7264000000,  // fjord
    0x666c696e74000000,  // flint
    0x666f726573740000,  // forest
    0x666f7373696c0000,  // fossil
    0x666f780000000000,  // fox
    0x67616c6178790000,  // galaxy
    0x6761726e65740000,  // garnet
    0x6765636b6f000000,  // gecko
    0x6765797365720000,  // geyser
    0x67696e6765720000,  // ginger
    0x676c616369657200,  // glacier
    0x6772616e69746500,  // granite
    0x67726f7665000000,  // grove
    0x67756c6c00000000,  // gull
    0x686172626f720000,  // harbor
    0x6861776b00000000,  // hawk
    0x68617a656c000000,  // hazel
    0x6865726f6e000000,  // heron
    0x6869636b6f727900,  // hickory
    0x686f6c6c6f770000,  // hollow
    0x686f6e6579000000,  // honey
    0x686f726e65740000,  // hornet
    0x6962697300000000,  // ibis
    0x696775616e610000,  // iguana
    0x696e6469676f0000,  // indigo
    0x6972697300000000,  // iris
    0x69736c616e640000,  // island
    0x69766f7279000000,  // ivory
    0x6976790000000000,  // ivy
    0x6a61636b616c0000,  // jackal
    0x6a61646500000000,  // jade
    0x6a61677561720000,  // jaguar
    0x6a61736d696e6500,  // jasmine
    0x6a61737065720000,  // jasper
    0x6a756e6970657200,  // juniper
    0x6b656c7000000000,  // kelp
    0x6b65737472656c00,  // kestrel
    0x6b6574746c650000,  // kettle
    0x6b69776900000000,  // kiwi
    0x6b6f616c61000000,  // koala
    0x6c61676f6f6e0000,  // lagoon
    0x6c616e7465726e00,  // lantern
    0x6c61726368000000,  // larch
    0x6c61726b00000000,  // lark
    0x6c617572656c0000,  // laurel
    0x6c61766100000000,  // lava
    0x6c656d6f6e000000,  // lemon
    0x6c696368656e0000,  // lichen
    0x6c696c6163000000,  // lilac
    0x6c696c7900000000,  // lily
    0x6c696e64656e0000,  // linden
    0x6c697a6172640000,  // lizard
    0x6c6c616d61000000,  // llama
    0x6c6f747573000000,  // lotus
    0x6c796e7800000000,  // lynx
    0x6d61676e65740000,  // magnet
];

/// The code of the word `k` of the block.
pub closed spec fn word_code(k: int) -> u64 {
    WORDS[k]
}

/// Looks up the code of the word `k` of the block.
pub fn word_code_at(k: usize) -> (c: u64)
    requires
        k < 128,
    ensures
        c == word_code(k as int),
{
    WORDS[k]
}

/// Every entry of the block is the code of a word; the first and the last
/// entry are as stated.
pub proof fn lemma_words()
    ensures
        forall|k: int| 0 <= k < 128 ==> is_word_code(#[trigger] word_code(k)),
        word_code(0) == 0x61636f726e000000,
        word_code(127) == 0x6d61676e65740000,
{
    lemma_mobile_spelled_00();
    assert forall|k: int| 0 <= k < 128 implies is_word_code(#[trigger] word_code(k)) by {
        assert(spelled(WORDS[k]));
        lemma_spelled_is_word(WORDS[k]);
    }
}

/// The codes of the block increase strictly from each entry to the next.
pub proof fn lemma_rise(k: int)
    requires
        0 <= k < 127,
    ensures
        word_code(k) < word_code(k + 1),
{
}

} // verus!
