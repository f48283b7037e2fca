//! The words 128 to 255 of the BIP-39 list.

use crate::wordcode::is_word_code;
use crate::wordlists::spelling::{lemma_bip39_spelled_01, lemma_spelled_is_word, spelled};
use vstd::prelude::*;

verus! {

/// The codes of the words.
pub const WORDS: [u64; 128] = [
    0x61766f6964000000,  // avoid
    0x6177616b65000000,  // awake
    0x6177617265000000,  // aware
    0x6177617900000000,  // away
    0x617765736f6d6500,  // awesome
    0x617766756c000000,  // awful
    0x61776b7761726400,  // awkward
    0x6178697300000000,  // axis
    0x6261627900000000,  // baby
    0x62616368656c6f72,  // bachelor
    0x6261636f6e000000,  // bacon
    0x6261646765000000,  // badge
    0x6261670000000000,  // bag
    0x62616c616e636500,  // balance
    0x62616c636f6e7900,  // balcony
    0x62616c6c00000000,  // ball
    0x62616d626f6f0000,  // bamboo
    0x62616e616e610000,  // banana
    0x62616e6e65720000,  // banner
    0x6261720000000000,  // bar
    0x626172656c790000,  // barely
    0x6261726761696e00,  // bargain
    0x62617272656c0000,  // barrel
    0x6261736500000000,  // base
    0x6261736963000000,  // basic
    0x6261736b65740000,  // basket
    0x626174746c650000,  // battle
    0x6265616368000000,  // beach
    0x6265616e00000000,  // bean
    0x6265617574790000,  // beauty
    0x6265636175736500,  // because
    0x6265636f6d650000,  // become
    0x6265656600000000,  // beef
    0x6265666f72650000,  // before
    0x626567696e000000,  // begin
    0x6265686176650000,  // behave
    0x626568696e640000,  // behind
    0x62656c6965766500,  // believe
    0x62656c6f77000000,  // below
    0x62656c7400000000,  // belt
    0x62656e6368000000,  // bench
    0x62656e6566697400,  // benefit
    0x6265737400000000,  // best
    0x6265747261790000,  // betray
    0x6265747465720000,  // better
    0x6265747765656e00,  // between
    0x6265796f6e640000,  // beyond
    0x62696379636c6500,  // bicycle
    0x6269640000000000,  // bid
    0x62696b6500000000,  // bike
    0x62696e6400000000,  // bind
    0x62696f6c6f677900,  // biology
    0x6269726400000000,  // bird
    0x6269727468000000,  // birth
    0x6269747465720000,  // bitter
    0x626c61636b000000,  // black
    0x626c616465000000,  // blade
    0x626c616d65000000,  // blame
    0x626c616e6b657400,  // blanket
    0x626c617374000000,  // blast
    0x626c65616b000000,  // bleak
    0x626c657373000000,  // bless
    0x626c696e64000000,  // blind
    0x626c6f6f64000000,  // blood
    0x626c6f73736f6d00,  // blossom
    0x626c6f7573650000,  // blouse
    0x626c756500000000,  // blue
    0x626c757200000000,  // blur
    0x626c757368000000,  // blush
    0x626f617264000000,  // board
    0x626f617400000000,  // boat
    0x626f647900000000,  // body
    0x626f696c00000000,  // boil
    0x626f6d6200000000,  // bomb
    0x626f6e6500000000,  // bone
    0x626f6e7573000000,  // bonus
    0x626f6f6b00000000,  // book
    0x626f6f7374000000,  // boost
    0x626f726465720000,  // border
    0x626f72696e670000,  // boring
    0x626f72726f770000,  // borrow
    0x626f737300000000,  // boss
    0x626f74746f6d0000,  // bottom
    0x626f756e63650000,  // bounce
    0x626f780000000000,  // box
    0x626f790000000000,  // boy
    0x627261636b657400,  // bracket
    0x627261696e000000,  // brain
    0x6272616e64000000,  // brand
    0x6272617373000000,  // brass
    0x6272617665000000,  // brave
    0x6272656164000000,  // bread
    0x627265657a650000,  // breeze
    0x627269636b000000,  // brick
    0x6272696467650000,  // bridge
    0x6272696566000000,  // brief
    0x6272696768740000,  // bright
    0x6272696e67000000,  // bring
    0x627269736b000000,  // brisk
    0x62726f63636f6c69,  // broccoli
    0x62726f6b656e0000,  // broken
    0x62726f6e7a650000,  // bronze
    0x62726f6f6d000000,  // broom
    0x62726f7468657200,  // brother
    0x62726f776e000000,  // brown
    0x6272757368000000,  // brush
    0x627562626c650000,  // bubble
    0x6275646479000000,  // buddy
    0x6275646765740000,  // budget
    0x62756666616c6f00,  // buffalo
    0x6275696c64000000,  // build
    0x62756c6200000000,  // bulb
    0x62756c6b00000000,  // bulk
    0x62756c6c65740000,  // bullet
    0x62756e646c650000,  // bundle
    0x62756e6b65720000,  // bunker
    0x62757264656e0000,  // burden
    0x6275726765720000,  // burger
    0x6275727374000000,  // burst
    0x6275730000000000,  // bus
    0x627573696e657373,  // business
    0x6275737900000000,  // busy
    0x6275747465720000,  // butter
    0x6275796572000000,  // buyer
    0x62757a7a00000000,  // buzz
    0x6361626261676500,  // cabbage
    0x636162696e000000,  // cabin
    0x6361626c65000000,  // cable
];

/// The code of the word `k` of the block.
pub closed spec fn word_code(k: int) -> u64 {
    WORDS[k]
}

/// Looks up the code of the word `k` of the block.
pub fn word_code_at(k: usize) -> (c: u64)
    requires
        k < 128,
    ensures
        c == word_code(k as int),
{
    WORDS[k]
}

/// Every entry of the block is the code of a word; the first and the last
/// entry are as stated.
pub proof fn lemma_words()
    ensures
        forall|k: int| 0 <= k < 128 ==> is_word_code(#[trigger] word_code(k)),
        word_code(0) == 0x61766f6964000000,
        word_code(127) == 0x6361626c65000000,
{
    lemma_bip39_spelled_01();
    assert forall|k: int| 0 <= k < 128 implies is_word_code(#[trigger] word_code(k)) by {
        assert(spelled(WORDS[k]));
        lemma_spelled_is_word(WORDS[k]);
    }
}

/// The codes of the block increase strictly from each entry to the next.
pub proof fn lemma_rise(k: int)
    requires
        0 <= k < 127,
    ensures
        word_code(k) < word_code(k + 1),
{
}

} // verus!
