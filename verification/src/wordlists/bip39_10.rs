//! The words 1280 to 1407 of the BIP-39 list.

use crate::wordcode::is_word_code;
use crate::wordlists::spelling::{lemma_bip39_spelled_10, lemma_spelled_is_word, spelled};
use vstd::prelude::*;

verus! {

/// The codes of the words.
pub const WORDS: [u64; 128] = [
    0x7061726164650000,  // parade
    0x706172656e740000,  // parent
    0x7061726b00000000,  // park
    0x706172726f740000,  // parrot
    0x7061727479000000,  // party
    0x7061737300000000,  // pass
    0x7061746368000000,  // patch
    0x7061746800000000,  // path
    0x70617469656e7400,  // patient
    0x706174726f6c0000,  // patrol
    0x7061747465726e00,  // pattern
    0x7061757365000000,  // pause
    0x7061766500000000,  // pave
    0x7061796d656e7400,  // payment
    0x7065616365000000,  // peace
    0x7065616e75740000,  // peanut
    0x7065617200000000,  // pear
    0x70656173616e7400,  // peasant
    0x70656c6963616e00,  // pelican
    0x70656e0000000000,  // pen
    0x70656e616c747900,  // penalty
    0x70656e63696c0000,  // pencil
    0x70656f706c650000,  // people
    0x7065707065720000,  // pepper
    0x7065726665637400,  // perfect
    0x7065726d69740000,  // permit
    0x706572736f6e0000,  // person
    0x7065740000000000,  // pet
    0x70686f6e65000000,  // phone
    0x70686f746f000000,  // photo
    0x7068726173650000,  // phrase
    0x706879736963616c,  // physical
    0x7069616e6f000000,  // piano
    0x7069636e69630000,  // picnic
    0x7069637475726500,  // picture
    0x7069656365000000,  // piece
    0x7069670000000000,  // pig
    0x706967656f6e0000,  // pigeon
    0x70696c6c00000000,  // pill
    0x70696c6f74000000,  // pilot
    0x70696e6b00000000,  // pink
    0x70696f6e65657200,  // pioneer
    0x7069706500000000,  // pipe
    0x706973746f6c0000,  // pistol
    0x7069746368000000,  // pitch
    0x70697a7a61000000,  // pizza
    0x706c616365000000,  // place
    0x706c616e65740000,  // planet
    0x706c617374696300,  // plastic
    0x706c617465000000,  // plate
    0x706c617900000000,  // play
    0x706c656173650000,  // please
    0x706c656467650000,  // pledge
    0x706c75636b000000,  // pluck
    0x706c756700000000,  // plug
    0x706c756e67650000,  // plunge
    0x706f656d00000000,  // poem
    0x706f657400000000,  // poet
    0x706f696e74000000,  // point
    0x706f6c6172000000,  // polar
    0x706f6c6500000000,  // pole
    0x706f6c6963650000,  // police
    0x706f6e6400000000,  // pond
    0x706f6e7900000000,  // pony
    0x706f6f6c00000000,  // pool
    0x706f70756c617200,  // popular
    0x706f7274696f6e00,  // portion
    0x706f736974696f6e,  // position
    0x706f737369626c65,  // possible
    0x706f737400000000,  // post
    0x706f7461746f0000,  // potato
    0x706f747465727900,  // pottery
    0x706f766572747900,  // poverty
    0x706f776465720000,  // powder
    0x706f776572000000,  // power
    0x7072616374696365,  // practice
    0x7072616973650000,  // praise
    0x7072656469637400,  // predict
    0x7072656665720000,  // prefer
    0x7072657061726500,  // prepare
    0x70726573656e7400,  // present
    0x7072657474790000,  // pretty
    0x70726576656e7400,  // prevent
    0x7072696365000000,  // price
    0x7072696465000000,  // pride
    0x7072696d61727900,  // primary
    0x7072696e74000000,  // print
    0x7072696f72697479,  // priority
    0x707269736f6e0000,  // prison
    0x7072697661746500,  // private
    0x7072697a65000000,  // prize
    0x70726f626c656d00,  // problem
    0x70726f6365737300,  // process
    0x70726f6475636500,  // produce
    0x70726f6669740000,  // profit
    0x70726f6772616d00,  // program
    0x70726f6a65637400,  // project
    0x70726f6d6f746500,  // promote
    0x70726f6f66000000,  // proof
    0x70726f7065727479,  // property
    0x70726f7370657200,  // prosper
    0x70726f7465637400,  // protect
    0x70726f7564000000,  // proud
    0x70726f7669646500,  // provide
    0x7075626c69630000,  // public
    0x70756464696e6700,  // pudding
    0x70756c6c00000000,  // pull
    0x70756c7000000000,  // pulp
    0x70756c7365000000,  // pulse
    0x70756d706b696e00,  // pumpkin
    0x70756e6368000000,  // punch
    0x707570696c000000,  // pupil
    0x7075707079000000,  // puppy
    0x7075726368617365,  // purchase
    0x7075726974790000,  // purity
    0x707572706f736500,  // purpose
    0x7075727365000000,  // purse
    0x7075736800000000,  // push
    0x7075740000000000,  // put
    0x70757a7a6c650000,  // puzzle
    0x707972616d696400,  // pyramid
    0x7175616c69747900,  // quality
    0x7175616e74756d00,  // quantum
    0x7175617274657200,  // quarter
    0x7175657374696f6e,  // question
    0x717569636b000000,  // quick
    0x7175697400000000,  // quit
    0x7175697a00000000,  // quiz
];

/// The code of the word `k` of the block.
pub closed spec fn word_code(k: int) -> u64 {
    WORDS[k]
}

/// Looks up the code of the word `k` of the block.
pub fn word_code_at(k: usize) -> (c: u64)
    requires
        k < 128,
    ensures
        c == word_code(k as int),
{
    WORDS[k]
}

/// Every entry of the block is the code of a word; the first and the last
/// entry are as stated.
pub proof fn lemma_words()
    ensures
        forall|k: int| 0 <= k < 128 ==> is_word_code(#[trigger] word_code(k)),
        word_code(0) == 0x7061726164650000,
        word_code(127) == 0x7175697a00000000,
{
    lemma_bip39_spelled_10();
    assert forall|k: int| 0 <= k < 128 implies is_word_code(#[trigger] word_code(k)) by {
        assert(spelled(WORDS[k]));
        lemma_spelled_is_word(WORDS[k]);
    }
}

/// The codes of the block increase strictly from each entry to the next.
pub proof fn lemma_rise(k: int)
    requires
        0 <= k < 127,
    ensures
        word_code(k) < word_code(k + 1),
{
}

} // verus!
