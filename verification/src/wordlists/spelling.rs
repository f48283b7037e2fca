//! Proof that every entry of the word lists spells a word, told from the
//! bits of its code.

use crate::wordcode::{is_word_code, lemma_shifted_bytes};
use vstd::prelude::*;

verus! {

/// Whether a byte is zero or a lower-case letter, and zero if the byte before
/// it is.
pub open spec fn follows(prev: u64, b: u64) -> bool {
    (b == 0 || (97 <= b <= 122)) && (prev == 0 ==> b == 0)
}

/// Whether `c` spells a word: a letter first, then letters, then zero bytes.
#[verifier::opaque]
pub open spec fn spelled(c: u64) -> bool {
    &&& 97 <= ((c >> 56) & 0xff) <= 122
    &&& follows((c >> 56) & 0xff, (c >> 48) & 0xff)
    &&& follows((c >> 48) & 0xff, (c >> 40) & 0xff)
    &&& follows((c >> 40) & 0xff, (c >> 32) & 0xff)
    &&& follows((c >> 32) & 0xff, (c >> 24) & 0xff)
    &&& follows((c >> 24) & 0xff, (c >> 16) & 0xff)
    &&& follows((c >> 16) & 0xff, (c >> 8) & 0xff)
    &&& follows((c >> 8) & 0xff, c & 0xff)
}

/// A code that spells a word is a word code.
pub proof fn lemma_spelled_is_word(c: u64)
    requires
        spelled(c),
    ensures
        is_word_code(c),
{
    reveal(spelled);
    reveal(is_word_code);
    lemma_shifted_bytes(c);
}

/// The words 0 to 127 of the BIP-39 list are spelled.
pub proof fn lemma_bip39_spelled_00()
    by (bit_vector)
    ensures
        spelled(0x6162616e646f6e00),
        spelled(0x6162696c69747900),
        spelled(0x61626c6500000000),
        spelled(0x61626f7574000000),
        spelled(0x61626f7665000000),
        spelled(0x616273656e740000),
        spelled(0x6162736f72620000),
        spelled(0x6162737472616374),
        spelled(0x6162737572640000),
        spelled(0x6162757365000000),
        spelled(0x6163636573730000),
        spelled(0x6163636964656e74),
        spelled(0x6163636f756e7400),
        spelled(0x6163637573650000),
        spelled(0x6163686965766500),
        spelled(0x6163696400000000),
        spelled(0x61636f7573746963),
        spelled(0x6163717569726500),
        spelled(0x6163726f73730000),
        spelled(0x6163740000000000),
        spelled(0x616374696f6e0000),
        spelled(0x6163746f72000000),
        spelled(0x6163747265737300),
        spelled(0x61637475616c0000),
        spelled(0x6164617074000000),
        spelled(0x6164640000000000),
        spelled(0x6164646963740000),
        spelled(0x6164647265737300),
        spelled(0x61646a7573740000),
        spelled(0x61646d6974000000),
        spelled(0x6164756c74000000),
        spelled(0x616476616e636500),
        spelled(0x6164766963650000),
        spelled(0x6165726f62696300),
        spelled(0x6166666169720000),
        spelled(0x6166666f72640000),
        spelled(0x6166726169640000),
        spelled(0x616761696e000000),
        spelled(0x6167650000000000),
        spelled(0x6167656e74000000),
        spelled(0x6167726565000000),
        spelled(0x6168656164000000),
        spelled(0x61696d0000000000),
        spelled(0x6169720000000000),
        spelled(0x616972706f727400),
        spelled(0x6169736c65000000),
        spelled(0x616c61726d000000),
        spelled(0x616c62756d000000),
        spelled(0x616c636f686f6c00),
        spelled(0x616c657274000000),
        spelled(0x616c69656e000000),
        spelled(0x616c6c0000000000),
        spelled(0x616c6c6579000000),
        spelled(0x616c6c6f77000000),
        spelled(0x616c6d6f73740000),
        spelled(0x616c6f6e65000000),
        spelled(0x616c706861000000),
        spelled(0x616c726561647900),
        spelled(0x616c736f00000000),
        spelled(0x616c746572000000),
        spelled(0x616c776179730000),
        spelled(0x616d617465757200),
        spelled(0x616d617a696e6700),
        spelled(0x616d6f6e67000000),
        spelled(0x616d6f756e740000),
        spelled(0x616d757365640000),
        spelled(0x616e616c79737400),
        spelled(0x616e63686f720000),
        spelled(0x616e6369656e7400),
        spelled(0x616e676572000000),
        spelled(0x616e676c65000000),
        spelled(0x616e677279000000),
        spelled(0x616e696d616c0000),
        spelled(0x616e6b6c65000000),
        spelled(0x616e6e6f756e6365),
        spelled(0x616e6e75616c0000),
        spelled(0x616e6f7468657200),
        spelled(0x616e737765720000),
        spelled(0x616e74656e6e6100),
        spelled(0x616e746971756500),
        spelled(0x616e786965747900),
        spelled(0x616e790000000000),
        spelled(0x6170617274000000),
        spelled(0x61706f6c6f677900),
        spelled(0x6170706561720000),
        spelled(0x6170706c65000000),
        spelled(0x617070726f766500),
        spelled(0x617072696c000000),
        spelled(0x6172636800000000),
        spelled(0x6172637469630000),
        spelled(0x6172656100000000),
        spelled(0x6172656e61000000),
        spelled(0x6172677565000000),
        spelled(0x61726d0000000000),
        spelled(0x61726d6564000000),
        spelled(0x61726d6f72000000),
        spelled(0x61726d7900000000),
        spelled(0x61726f756e640000),
        spelled(0x617272616e676500),
        spelled(0x6172726573740000),
        spelled(0x6172726976650000),
        spelled(0x6172726f77000000),
        spelled(0x6172740000000000),
        spelled(0x6172746566616374),
        spelled(0x6172746973740000),
        spelled(0x617274776f726b00),
        spelled(0x61736b0000000000),
        spelled(0x6173706563740000),
        spelled(0x61737361756c7400),
        spelled(0x6173736574000000),
        spelled(0x6173736973740000),
        spelled(0x617373756d650000),
        spelled(0x617374686d610000),
        spelled(0x6174686c65746500),
        spelled(0x61746f6d00000000),
        spelled(0x61747461636b0000),
        spelled(0x617474656e640000),
        spelled(0x6174746974756465),
        spelled(0x6174747261637400),
        spelled(0x61756374696f6e00),
        spelled(0x6175646974000000),
        spelled(0x6175677573740000),
        spelled(0x61756e7400000000),
        spelled(0x617574686f720000),
        spelled(0x6175746f00000000),
        spelled(0x617574756d6e0000),
        spelled(0x6176657261676500),
        spelled(0x61766f6361646f00),
{
}

/// The words 128 to 255 of the BIP-39 list are spelled.
pub proof fn lemma_bip39_spelled_01()
    by (bit_vector)
    ensures
        spelled(0x61766f6964000000),
        spelled(0x6177616b65000000),
        spelled(0x6177617265000000),
        spelled(0x6177617900000000),
        spelled(0x617765736f6d6500),
        spelled(0x617766756c000000),
        spelled(0x61776b7761726400),
        spelled(0x6178697300000000),
        spelled(0x6261627900000000),
        spelled(0x62616368656c6f72),
        spelled(0x6261636f6e000000),
        spelled(0x6261646765000000),
        spelled(0x6261670000000000),
        spelled(0x62616c616e636500),
        spelled(0x62616c636f6e7900),
        spelled(0x62616c6c00000000),
        spelled(0x62616d626f6f0000),
        spelled(0x62616e616e610000),
        spelled(0x62616e6e65720000),
        spelled(0x6261720000000000),
        spelled(0x626172656c790000),
        spelled(0x6261726761696e00),
        spelled(0x62617272656c0000),
        spelled(0x6261736500000000),
        spelled(0x6261736963000000),
        spelled(0x6261736b65740000),
        spelled(0x626174746c650000),
        spelled(0x6265616368000000),
        spelled(0x6265616e00000000),
        spelled(0x6265617574790000),
        spelled(0x6265636175736500),
        spelled(0x6265636f6d650000),
        spelled(0x6265656600000000),
        spelled(0x6265666f72650000),
        spelled(0x626567696e000000),
        spelled(0x6265686176650000),
        spelled(0x626568696e640000),
        spelled(0x62656c6965766500),
        spelled(0x62656c6f77000000),
        spelled(0x62656c7400000000),
        spelled(0x62656e6368000000),
        spelled(0x62656e6566697400),
        spelled(0x6265737400000000),
        spelled(0x6265747261790000),
        spelled(0x6265747465720000),
        spelled(0x6265747765656e00),
        spelled(0x6265796f6e640000),
        spelled(0x62696379636c6500),
        spelled(0x6269640000000000),
        spelled(0x62696b6500000000),
        spelled(0x62696e6400000000),
        spelled(0x62696f6c6f677900),
        spelled(0x6269726400000000),
        spelled(0x6269727468000000),
        spelled(0x6269747465720000),
        spelled(0x626c61636b000000),
        spelled(0x626c616465000000),
        spelled(0x626c616d65000000),
        spelled(0x626c616e6b657400),
        spelled(0x626c617374000000),
        spelled(0x626c65616b000000),
        spelled(0x626c657373000000),
        spelled(0x626c696e64000000),
        spelled(0x626c6f6f64000000),
        spelled(0x626c6f73736f6d00),
        spelled(0x626c6f7573650000),
        spelled(0x626c756500000000),
        spelled(0x626c757200000000),
        spelled(0x626c757368000000),
        spelled(0x626f617264000000),
        spelled(0x626f617400000000),
        spelled(0x626f647900000000),
        spelled(0x626f696c00000000),
        spelled(0x626f6d6200000000),
        spelled(0x626f6e6500000000),
        spelled(0x626f6e7573000000),
        spelled(0x626f6f6b00000000),
        spelled(0x626f6f7374000000),
        spelled(0x626f726465720000),
        spelled(0x626f72696e670000),
        spelled(0x626f72726f770000),
        spelled(0x626f737300000000),
        spelled(0x626f74746f6d0000),
        spelled(0x626f756e63650000),
        spelled(0x626f780000000000),
        spelled(0x626f790000000000),
        spelled(0x627261636b657400),
        spelled(0x627261696e000000),
        spelled(0x6272616e64000000),
        spelled(0x6272617373000000),
        spelled(0x6272617665000000),
        spelled(0x6272656164000000),
        spelled(0x627265657a650000),
        spelled(0x627269636b000000),
        spelled(0x6272696467650000),
        spelled(0x6272696566000000),
        spelled(0x6272696768740000),
        spelled(0x6272696e67000000),
        spelled(0x627269736b000000),
        spelled(0x62726f63636f6c69),
        spelled(0x62726f6b656e0000),
        spelled(0x62726f6e7a650000),
        spelled(0x62726f6f6d000000),
        spelled(0x62726f7468657200),
        spelled(0x62726f776e000000),
        spelled(0x6272757368000000),
        spelled(0x627562626c650000),
        spelled(0x6275646479000000),
        spelled(0x6275646765740000),
        spelled(0x62756666616c6f00),
        spelled(0x6275696c64000000),
        spelled(0x62756c6200000000),
        spelled(0x62756c6b00000000),
        spelled(0x62756c6c65740000),
        spelled(0x62756e646c650000),
        spelled(0x62756e6b65720000),
        spelled(0x62757264656e0000),
        spelled(0x6275726765720000),
        spelled(0x6275727374000000),
        spelled(0x6275730000000000),
        spelled(0x627573696e657373),
        spelled(0x6275737900000000),
        spelled(0x6275747465720000),
        spelled(0x6275796572000000),
        spelled(0x62757a7a00000000),
        spelled(0x6361626261676500),
        spelled(0x636162696e000000),
        spelled(0x6361626c65000000),
{
}

/// The words 256 to 383 of the BIP-39 list are spelled.
pub proof fn lemma_bip39_spelled_02()
    by (bit_vector)
    ensures
        spelled(0x6361637475730000),
        spelled(0x6361676500000000),
        spelled(0x63616b6500000000),
        spelled(0x63616c6c00000000),
        spelled(0x63616c6d00000000),
        spelled(0x63616d6572610000),
        spelled(0x63616d7000000000),
        spelled(0x63616e0000000000),
        spelled(0x63616e616c000000),
        spelled(0x63616e63656c0000),
        spelled(0x63616e6479000000),
        spelled(0x63616e6e6f6e0000),
        spelled(0x63616e6f65000000),
        spelled(0x63616e7661730000),
        spelled(0x63616e796f6e0000),
        spelled(0x63617061626c6500),
        spelled(0x6361706974616c00),
        spelled(0x6361707461696e00),
        spelled(0x6361720000000000),
        spelled(0x636172626f6e0000),
        spelled(0x6361726400000000),
        spelled(0x636172676f000000),
        spelled(0x6361727065740000),
        spelled(0x6361727279000000),
        spelled(0x6361727400000000),
        spelled(0x6361736500000000),
        spelled(0x6361736800000000),
        spelled(0x636173696e6f0000),
        spelled(0x636173746c650000),
        spelled(0x63617375616c0000),
        spelled(0x6361740000000000),
        spelled(0x636174616c6f6700),
        spelled(0x6361746368000000),
        spelled(0x63617465676f7279),
        spelled(0x636174746c650000),
        spelled(0x6361756768740000),
        spelled(0x6361757365000000),
        spelled(0x63617574696f6e00),
        spelled(0x6361766500000000),
        spelled(0x6365696c696e6700),
        spelled(0x63656c6572790000),
        spelled(0x63656d656e740000),
        spelled(0x63656e7375730000),
        spelled(0x63656e7475727900),
        spelled(0x63657265616c0000),
        spelled(0x6365727461696e00),
        spelled(0x6368616972000000),
        spelled(0x6368616c6b000000),
        spelled(0x6368616d70696f6e),
        spelled(0x6368616e67650000),
        spelled(0x6368616f73000000),
        spelled(0x6368617074657200),
        spelled(0x6368617267650000),
        spelled(0x6368617365000000),
        spelled(0x6368617400000000),
        spelled(0x6368656170000000),
        spelled(0x636865636b000000),
        spelled(0x6368656573650000),
        spelled(0x6368656600000000),
        spelled(0x6368657272790000),
        spelled(0x6368657374000000),
        spelled(0x636869636b656e00),
        spelled(0x6368696566000000),
        spelled(0x6368696c64000000),
        spelled(0x6368696d6e657900),
        spelled(0x63686f6963650000),
        spelled(0x63686f6f73650000),
        spelled(0x6368726f6e696300),
        spelled(0x636875636b6c6500),
        spelled(0x6368756e6b000000),
        spelled(0x636875726e000000),
        spelled(0x6369676172000000),
        spelled(0x63696e6e616d6f6e),
        spelled(0x636972636c650000),
        spelled(0x636974697a656e00),
        spelled(0x6369747900000000),
        spelled(0x636976696c000000),
        spelled(0x636c61696d000000),
        spelled(0x636c617000000000),
        spelled(0x636c617269667900),
        spelled(0x636c617700000000),
        spelled(0x636c617900000000),
        spelled(0x636c65616e000000),
        spelled(0x636c65726b000000),
        spelled(0x636c657665720000),
        spelled(0x636c69636b000000),
        spelled(0x636c69656e740000),
        spelled(0x636c696666000000),
        spelled(0x636c696d62000000),
        spelled(0x636c696e69630000),
        spelled(0x636c697000000000),
        spelled(0x636c6f636b000000),
        spelled(0x636c6f6700000000),
        spelled(0x636c6f7365000000),
        spelled(0x636c6f7468000000),
        spelled(0x636c6f7564000000),
        spelled(0x636c6f776e000000),
        spelled(0x636c756200000000),
        spelled(0x636c756d70000000),
        spelled(0x636c757374657200),
        spelled(0x636c757463680000),
        spelled(0x636f616368000000),
        spelled(0x636f617374000000),
        spelled(0x636f636f6e757400),
        spelled(0x636f646500000000),
        spelled(0x636f666665650000),
        spelled(0x636f696c00000000),
        spelled(0x636f696e00000000),
        spelled(0x636f6c6c65637400),
        spelled(0x636f6c6f72000000),
        spelled(0x636f6c756d6e0000),
        spelled(0x636f6d62696e6500),
        spelled(0x636f6d6500000000),
        spelled(0x636f6d666f727400),
        spelled(0x636f6d6963000000),
        spelled(0x636f6d6d6f6e0000),
        spelled(0x636f6d70616e7900),
        spelled(0x636f6e6365727400),
        spelled(0x636f6e6475637400),
        spelled(0x636f6e6669726d00),
        spelled(0x636f6e6772657373),
        spelled(0x636f6e6e65637400),
        spelled(0x636f6e7369646572),
        spelled(0x636f6e74726f6c00),
        spelled(0x636f6e76696e6365),
        spelled(0x636f6f6b00000000),
        spelled(0x636f6f6c00000000),
        spelled(0x636f707065720000),
{
}

/// The words 384 to 511 of the BIP-39 list are spelled.
pub proof fn lemma_bip39_spelled_03()
    by (bit_vector)
    ensures
        spelled(0x636f707900000000),
        spelled(0x636f72616c000000),
        spelled(0x636f726500000000),
        spelled(0x636f726e00000000),
        spelled(0x636f727265637400),
        spelled(0x636f737400000000),
        spelled(0x636f74746f6e0000),
        spelled(0x636f756368000000),
        spelled(0x636f756e74727900),
        spelled(0x636f75706c650000),
        spelled(0x636f757273650000),
        spelled(0x636f7573696e0000),
        spelled(0x636f766572000000),
        spelled(0x636f796f74650000),
        spelled(0x637261636b000000),
        spelled(0x637261646c650000),
        spelled(0x6372616674000000),
        spelled(0x6372616d00000000),
        spelled(0x6372616e65000000),
        spelled(0x6372617368000000),
        spelled(0x6372617465720000),
        spelled(0x637261776c000000),
        spelled(0x6372617a79000000),
        spelled(0x637265616d000000),
        spelled(0x6372656469740000),
        spelled(0x637265656b000000),
        spelled(0x6372657700000000),
        spelled(0x637269636b657400),
        spelled(0x6372696d65000000),
        spelled(0x6372697370000000),
        spelled(0x6372697469630000),
        spelled(0x63726f7000000000),
        spelled(0x63726f7373000000),
        spelled(0x63726f7563680000),
        spelled(0x63726f7764000000),
        spelled(0x6372756369616c00),
        spelled(0x637275656c000000),
        spelled(0x6372756973650000),
        spelled(0x6372756d626c6500),
        spelled(0x6372756e63680000),
        spelled(0x6372757368000000),
        spelled(0x6372790000000000),
        spelled(0x6372797374616c00),
        spelled(0x6375626500000000),
        spelled(0x63756c7475726500),
        spelled(0x6375700000000000),
        spelled(0x637570626f617264),
        spelled(0x637572696f757300),
        spelled(0x63757272656e7400),
        spelled(0x6375727461696e00),
        spelled(0x6375727665000000),
        spelled(0x63757368696f6e00),
        spelled(0x637573746f6d0000),
        spelled(0x6375746500000000),
        spelled(0x6379636c65000000),
        spelled(0x6461640000000000),
        spelled(0x64616d6167650000),
        spelled(0x64616d7000000000),
        spelled(0x64616e6365000000),
        spelled(0x64616e6765720000),
        spelled(0x646172696e670000),
        spelled(0x6461736800000000),
        spelled(0x6461756768746572),
        spelled(0x6461776e00000000),
        spelled(0x6461790000000000),
        spelled(0x6465616c00000000),
        spelled(0x6465626174650000),
        spelled(0x6465627269730000),
        spelled(0x6465636164650000),
        spelled(0x646563656d626572),
        spelled(0x6465636964650000),
        spelled(0x6465636c696e6500),
        spelled(0x6465636f72617465),
        spelled(0x6465637265617365),
        spelled(0x6465657200000000),
        spelled(0x646566656e736500),
        spelled(0x646566696e650000),
        spelled(0x6465667900000000),
        spelled(0x6465677265650000),
        spelled(0x64656c6179000000),
        spelled(0x64656c6976657200),
        spelled(0x64656d616e640000),
        spelled(0x64656d6973650000),
        spelled(0x64656e69616c0000),
        spelled(0x64656e7469737400),
        spelled(0x64656e7900000000),
        spelled(0x6465706172740000),
        spelled(0x646570656e640000),
        spelled(0x6465706f73697400),
        spelled(0x6465707468000000),
        spelled(0x6465707574790000),
        spelled(0x6465726976650000),
        spelled(0x6465736372696265),
        spelled(0x6465736572740000),
        spelled(0x64657369676e0000),
        spelled(0x6465736b00000000),
        spelled(0x6465737061697200),
        spelled(0x64657374726f7900),
        spelled(0x64657461696c0000),
        spelled(0x6465746563740000),
        spelled(0x646576656c6f7000),
        spelled(0x6465766963650000),
        spelled(0x6465766f74650000),
        spelled(0x6469616772616d00),
        spelled(0x6469616c00000000),
        spelled(0x6469616d6f6e6400),
        spelled(0x6469617279000000),
        spelled(0x6469636500000000),
        spelled(0x64696573656c0000),
        spelled(0x6469657400000000),
        spelled(0x6469666665720000),
        spelled(0x6469676974616c00),
        spelled(0x6469676e69747900),
        spelled(0x64696c656d6d6100),
        spelled(0x64696e6e65720000),
        spelled(0x64696e6f73617572),
        spelled(0x6469726563740000),
        spelled(0x6469727400000000),
        spelled(0x6469736167726565),
        spelled(0x646973636f766572),
        spelled(0x6469736561736500),
        spelled(0x6469736800000000),
        spelled(0x6469736d69737300),
        spelled(0x6469736f72646572),
        spelled(0x646973706c617900),
        spelled(0x64697374616e6365),
        spelled(0x6469766572740000),
        spelled(0x6469766964650000),
{
}

/// The words 512 to 639 of the BIP-39 list are spelled.
pub proof fn lemma_bip39_spelled_04()
    by (bit_vector)
    ensures
        spelled(0x6469766f72636500),
        spelled(0x64697a7a79000000),
        spelled(0x646f63746f720000),
        spelled(0x646f63756d656e74),
        spelled(0x646f670000000000),
        spelled(0x646f6c6c00000000),
        spelled(0x646f6c7068696e00),
        spelled(0x646f6d61696e0000),
        spelled(0x646f6e6174650000),
        spelled(0x646f6e6b65790000),
        spelled(0x646f6e6f72000000),
        spelled(0x646f6f7200000000),
        spelled(0x646f736500000000),
        spelled(0x646f75626c650000),
        spelled(0x646f766500000000),
        spelled(0x6472616674000000),
        spelled(0x647261676f6e0000),
        spelled(0x6472616d61000000),
        spelled(0x6472617374696300),
        spelled(0x6472617700000000),
        spelled(0x647265616d000000),
        spelled(0x6472657373000000),
        spelled(0x6472696674000000),
        spelled(0x6472696c6c000000),
        spelled(0x6472696e6b000000),
        spelled(0x6472697000000000),
        spelled(0x6472697665000000),
        spelled(0x64726f7000000000),
        spelled(0x6472756d00000000),
        spelled(0x6472790000000000),
        spelled(0x6475636b00000000),
        spelled(0x64756d6200000000),
        spelled(0x64756e6500000000),
        spelled(0x647572696e670000),
        spelled(0x6475737400000000),
        spelled(0x6475746368000000),
        spelled(0x6475747900000000),
        spelled(0x6477617266000000),
        spelled(0x64796e616d696300),
        spelled(0x6561676572000000),
        spelled(0x6561676c65000000),
        spelled(0x6561726c79000000),
        spelled(0x6561726e00000000),
        spelled(0x6561727468000000),
        spelled(0x656173696c790000),
        spelled(0x6561737400000000),
        spelled(0x6561737900000000),
        spelled(0x6563686f00000000),
        spelled(0x65636f6c6f677900),
        spelled(0x65636f6e6f6d7900),
        spelled(0x6564676500000000),
        spelled(0x6564697400000000),
        spelled(0x6564756361746500),
        spelled(0x6566666f72740000),
        spelled(0x6567670000000000),
        spelled(0x6569676874000000),
        spelled(0x6569746865720000),
        spelled(0x656c626f77000000),
        spelled(0x656c646572000000),
        spelled(0x656c656374726963),
        spelled(0x656c6567616e7400),
        spelled(0x656c656d656e7400),
        spelled(0x656c657068616e74),
        spelled(0x656c657661746f72),
        spelled(0x656c697465000000),
        spelled(0x656c736500000000),
        spelled(0x656d6261726b0000),
        spelled(0x656d626f64790000),
        spelled(0x656d627261636500),
        spelled(0x656d657267650000),
        spelled(0x656d6f74696f6e00),
        spelled(0x656d706c6f790000),
        spelled(0x656d706f77657200),
        spelled(0x656d707479000000),
        spelled(0x656e61626c650000),
        spelled(0x656e616374000000),
        spelled(0x656e640000000000),
        spelled(0x656e646c65737300),
        spelled(0x656e646f72736500),
        spelled(0x656e656d79000000),
        spelled(0x656e657267790000),
        spelled(0x656e666f72636500),
        spelled(0x656e676167650000),
        spelled(0x656e67696e650000),
        spelled(0x656e68616e636500),
        spelled(0x656e6a6f79000000),
        spelled(0x656e6c6973740000),
        spelled(0x656e6f7567680000),
        spelled(0x656e726963680000),
        spelled(0x656e726f6c6c0000),
        spelled(0x656e737572650000),
        spelled(0x656e746572000000),
        spelled(0x656e746972650000),
        spelled(0x656e747279000000),
        spelled(0x656e76656c6f7065),
        spelled(0x657069736f646500),
        spelled(0x657175616c000000),
        spelled(0x6571756970000000),
        spelled(0x6572610000000000),
        spelled(0x6572617365000000),
        spelled(0x65726f6465000000),
        spelled(0x65726f73696f6e00),
        spelled(0x6572726f72000000),
        spelled(0x6572757074000000),
        spelled(0x6573636170650000),
        spelled(0x6573736179000000),
        spelled(0x657373656e636500),
        spelled(0x6573746174650000),
        spelled(0x657465726e616c00),
        spelled(0x6574686963730000),
        spelled(0x65766964656e6365),
        spelled(0x6576696c00000000),
        spelled(0x65766f6b65000000),
        spelled(0x65766f6c76650000),
        spelled(0x6578616374000000),
        spelled(0x6578616d706c6500),
        spelled(0x6578636573730000),
        spelled(0x65786368616e6765),
        spelled(0x6578636974650000),
        spelled(0x6578636c75646500),
        spelled(0x6578637573650000),
        spelled(0x6578656375746500),
        spelled(0x6578657263697365),
        spelled(0x6578686175737400),
        spelled(0x6578686962697400),
        spelled(0x6578696c65000000),
        spelled(0x6578697374000000),
        spelled(0x6578697400000000),
{
}

/// The words 640 to 767 of the BIP-39 list are spelled.
pub proof fn lemma_bip39_spelled_05()
    by (bit_vector)
    ensures
        spelled(0x65786f7469630000),
        spelled(0x657870616e640000),
        spelled(0x6578706563740000),
        spelled(0x6578706972650000),
        spelled(0x6578706c61696e00),
        spelled(0x6578706f73650000),
        spelled(0x6578707265737300),
        spelled(0x657874656e640000),
        spelled(0x6578747261000000),
        spelled(0x6579650000000000),
        spelled(0x65796562726f7700),
        spelled(0x6661627269630000),
        spelled(0x6661636500000000),
        spelled(0x666163756c747900),
        spelled(0x6661646500000000),
        spelled(0x6661696e74000000),
        spelled(0x6661697468000000),
        spelled(0x66616c6c00000000),
        spelled(0x66616c7365000000),
        spelled(0x66616d6500000000),
        spelled(0x66616d696c790000),
        spelled(0x66616d6f75730000),
        spelled(0x66616e0000000000),
        spelled(0x66616e6379000000),
        spelled(0x66616e7461737900),
        spelled(0x6661726d00000000),
        spelled(0x66617368696f6e00),
        spelled(0x6661740000000000),
        spelled(0x666174616c000000),
        spelled(0x6661746865720000),
        spelled(0x6661746967756500),
        spelled(0x6661756c74000000),
        spelled(0x6661766f72697465),
        spelled(0x6665617475726500),
        spelled(0x6665627275617279),
        spelled(0x6665646572616c00),
        spelled(0x6665650000000000),
        spelled(0x6665656400000000),
        spelled(0x6665656c00000000),
        spelled(0x66656d616c650000),
        spelled(0x66656e6365000000),
        spelled(0x666573746976616c),
        spelled(0x6665746368000000),
        spelled(0x6665766572000000),
        spelled(0x6665770000000000),
        spelled(0x6669626572000000),
        spelled(0x66696374696f6e00),
        spelled(0x6669656c64000000),
        spelled(0x6669677572650000),
        spelled(0x66696c6500000000),
        spelled(0x66696c6d00000000),
        spelled(0x66696c7465720000),
        spelled(0x66696e616c000000),
        spelled(0x66696e6400000000),
        spelled(0x66696e6500000000),
        spelled(0x66696e6765720000),
        spelled(0x66696e6973680000),
        spelled(0x6669726500000000),
        spelled(0x6669726d00000000),
        spelled(0x6669727374000000),
        spelled(0x66697363616c0000),
        spelled(0x6669736800000000),
        spelled(0x6669740000000000),
        spelled(0x6669746e65737300),
        spelled(0x6669780000000000),
        spelled(0x666c616700000000),
        spelled(0x666c616d65000000),
        spelled(0x666c617368000000),
        spelled(0x666c617400000000),
        spelled(0x666c61766f720000),
        spelled(0x666c656500000000),
        spelled(0x666c696768740000),
        spelled(0x666c697000000000),
        spelled(0x666c6f6174000000),
        spelled(0x666c6f636b000000),
        spelled(0x666c6f6f72000000),
        spelled(0x666c6f7765720000),
        spelled(0x666c756964000000),
        spelled(0x666c757368000000),
        spelled(0x666c790000000000),
        spelled(0x666f616d00000000),
        spelled(0x666f637573000000),
        spelled(0x666f670000000000),
        spelled(0x666f696c00000000),
        spelled(0x666f6c6400000000),
        spelled(0x666f6c6c6f770000),
        spelled(0x666f6f6400000000),
        spelled(0x666f6f7400000000),
        spelled(0x666f726365000000),
        spelled(0x666f726573740000),
        spelled(0x666f726765740000),
        spelled(0x666f726b00000000),
        spelled(0x666f7274756e6500),
        spelled(0x666f72756d000000),
        spelled(0x666f727761726400),
        spelled(0x666f7373696c0000),
        spelled(0x666f737465720000),
        spelled(0x666f756e64000000),
        spelled(0x666f780000000000),
        spelled(0x66726167696c6500),
        spelled(0x6672616d65000000),
        spelled(0x6672657175656e74),
        spelled(0x6672657368000000),
        spelled(0x667269656e640000),
        spelled(0x6672696e67650000),
        spelled(0x66726f6700000000),
        spelled(0x66726f6e74000000),
        spelled(0x66726f7374000000),
        spelled(0x66726f776e000000),
        spelled(0x66726f7a656e0000),
        spelled(0x6672756974000000),
        spelled(0x6675656c00000000),
        spelled(0x66756e0000000000),
        spelled(0x66756e6e79000000),
        spelled(0x6675726e61636500),
        spelled(0x6675727900000000),
        spelled(0x6675747572650000),
        spelled(0x6761646765740000),
        spelled(0x6761696e00000000),
        spelled(0x67616c6178790000),
        spelled(0x67616c6c65727900),
        spelled(0x67616d6500000000),
        spelled(0x6761700000000000),
        spelled(0x6761726167650000),
        spelled(0x6761726261676500),
        spelled(0x67617264656e0000),
        spelled(0x6761726c69630000),
        spelled(0x6761726d656e7400),
{
}

/// The words 768 to 895 of the BIP-39 list are spelled.
pub proof fn lemma_bip39_spelled_06()
    by (bit_vector)
    ensures
        spelled(0x6761730000000000),
        spelled(0x6761737000000000),
        spelled(0x6761746500000000),
        spelled(0x6761746865720000),
        spelled(0x6761756765000000),
        spelled(0x67617a6500000000),
        spelled(0x67656e6572616c00),
        spelled(0x67656e6975730000),
        spelled(0x67656e7265000000),
        spelled(0x67656e746c650000),
        spelled(0x67656e75696e6500),
        spelled(0x6765737475726500),
        spelled(0x67686f7374000000),
        spelled(0x6769616e74000000),
        spelled(0x6769667400000000),
        spelled(0x676967676c650000),
        spelled(0x67696e6765720000),
        spelled(0x6769726166666500),
        spelled(0x6769726c00000000),
        spelled(0x6769766500000000),
        spelled(0x676c616400000000),
        spelled(0x676c616e63650000),
        spelled(0x676c617265000000),
        spelled(0x676c617373000000),
        spelled(0x676c696465000000),
        spelled(0x676c696d70736500),
        spelled(0x676c6f6265000000),
        spelled(0x676c6f6f6d000000),
        spelled(0x676c6f7279000000),
        spelled(0x676c6f7665000000),
        spelled(0x676c6f7700000000),
        spelled(0x676c756500000000),
        spelled(0x676f617400000000),
        spelled(0x676f646465737300),
        spelled(0x676f6c6400000000),
        spelled(0x676f6f6400000000),
        spelled(0x676f6f7365000000),
        spelled(0x676f72696c6c6100),
        spelled(0x676f7370656c0000),
        spelled(0x676f737369700000),
        spelled(0x676f7665726e0000),
        spelled(0x676f776e00000000),
        spelled(0x6772616200000000),
        spelled(0x6772616365000000),
        spelled(0x677261696e000000),
        spelled(0x6772616e74000000),
        spelled(0x6772617065000000),
        spelled(0x6772617373000000),
        spelled(0x6772617669747900),
        spelled(0x6772656174000000),
        spelled(0x677265656e000000),
        spelled(0x6772696400000000),
        spelled(0x6772696566000000),
        spelled(0x6772697400000000),
        spelled(0x67726f6365727900),
        spelled(0x67726f7570000000),
        spelled(0x67726f7700000000),
        spelled(0x6772756e74000000),
        spelled(0x6775617264000000),
        spelled(0x6775657373000000),
        spelled(0x6775696465000000),
        spelled(0x6775696c74000000),
        spelled(0x6775697461720000),
        spelled(0x67756e0000000000),
        spelled(0x67796d0000000000),
        spelled(0x6861626974000000),
        spelled(0x6861697200000000),
        spelled(0x68616c6600000000),
        spelled(0x68616d6d65720000),
        spelled(0x68616d7374657200),
        spelled(0x68616e6400000000),
        spelled(0x6861707079000000),
        spelled(0x686172626f720000),
        spelled(0x6861726400000000),
        spelled(0x6861727368000000),
        spelled(0x6861727665737400),
        spelled(0x6861740000000000),
        spelled(0x6861766500000000),
        spelled(0x6861776b00000000),
        spelled(0x68617a6172640000),
        spelled(0x6865616400000000),
        spelled(0x6865616c74680000),
        spelled(0x6865617274000000),
        spelled(0x6865617679000000),
        spelled(0x6865646765686f67),
        spelled(0x6865696768740000),
        spelled(0x68656c6c6f000000),
        spelled(0x68656c6d65740000),
        spelled(0x68656c7000000000),
        spelled(0x68656e0000000000),
        spelled(0x6865726f00000000),
        spelled(0x68696464656e0000),
        spelled(0x6869676800000000),
        spelled(0x68696c6c00000000),
        spelled(0x68696e7400000000),
        spelled(0x6869700000000000),
        spelled(0x6869726500000000),
        spelled(0x686973746f727900),
        spelled(0x686f626279000000),
        spelled(0x686f636b65790000),
        spelled(0x686f6c6400000000),
        spelled(0x686f6c6500000000),
        spelled(0x686f6c6964617900),
        spelled(0x686f6c6c6f770000),
        spelled(0x686f6d6500000000),
        spelled(0x686f6e6579000000),
        spelled(0x686f6f6400000000),
        spelled(0x686f706500000000),
        spelled(0x686f726e00000000),
        spelled(0x686f72726f720000),
        spelled(0x686f727365000000),
        spelled(0x686f73706974616c),
        spelled(0x686f737400000000),
        spelled(0x686f74656c000000),
        spelled(0x686f757200000000),
        spelled(0x686f766572000000),
        spelled(0x6875620000000000),
        spelled(0x6875676500000000),
        spelled(0x68756d616e000000),
        spelled(0x68756d626c650000),
        spelled(0x68756d6f72000000),
        spelled(0x68756e6472656400),
        spelled(0x68756e6772790000),
        spelled(0x68756e7400000000),
        spelled(0x687572646c650000),
        spelled(0x6875727279000000),
        spelled(0x6875727400000000),
        spelled(0x68757362616e6400),
{
}

/// The words 896 to 1023 of the BIP-39 list are spelled.
pub proof fn lemma_bip39_spelled_07()
    by (bit_vector)
    ensures
        spelled(0x6879627269640000),
        spelled(0x6963650000000000),
        spelled(0x69636f6e00000000),
        spelled(0x6964656100000000),
        spelled(0x6964656e74696679),
        spelled(0x69646c6500000000),
        spelled(0x69676e6f72650000),
        spelled(0x696c6c0000000000),
        spelled(0x696c6c6567616c00),
        spelled(0x696c6c6e65737300),
        spelled(0x696d616765000000),
        spelled(0x696d697461746500),
        spelled(0x696d6d656e736500),
        spelled(0x696d6d756e650000),
        spelled(0x696d706163740000),
        spelled(0x696d706f73650000),
        spelled(0x696d70726f766500),
        spelled(0x696d70756c736500),
        spelled(0x696e636800000000),
        spelled(0x696e636c75646500),
        spelled(0x696e636f6d650000),
        spelled(0x696e637265617365),
        spelled(0x696e646578000000),
        spelled(0x696e646963617465),
        spelled(0x696e646f6f720000),
        spelled(0x696e647573747279),
        spelled(0x696e66616e740000),
        spelled(0x696e666c69637400),
        spelled(0x696e666f726d0000),
        spelled(0x696e68616c650000),
        spelled(0x696e686572697400),
        spelled(0x696e697469616c00),
        spelled(0x696e6a6563740000),
        spelled(0x696e6a7572790000),
        spelled(0x696e6d6174650000),
        spelled(0x696e6e6572000000),
        spelled(0x696e6e6f63656e74),
        spelled(0x696e707574000000),
        spelled(0x696e717569727900),
        spelled(0x696e73616e650000),
        spelled(0x696e736563740000),
        spelled(0x696e736964650000),
        spelled(0x696e737069726500),
        spelled(0x696e7374616c6c00),
        spelled(0x696e746163740000),
        spelled(0x696e746572657374),
        spelled(0x696e746f00000000),
        spelled(0x696e766573740000),
        spelled(0x696e766974650000),
        spelled(0x696e766f6c766500),
        spelled(0x69726f6e00000000),
        spelled(0x69736c616e640000),
        spelled(0x69736f6c61746500),
        spelled(0x6973737565000000),
        spelled(0x6974656d00000000),
        spelled(0x69766f7279000000),
        spelled(0x6a61636b65740000),
        spelled(0x6a61677561720000),
        spelled(0x6a61720000000000),
        spelled(0x6a617a7a00000000),
        spelled(0x6a65616c6f757300),
        spelled(0x6a65616e73000000),
        spelled(0x6a656c6c79000000),
        spelled(0x6a6577656c000000),
        spelled(0x6a6f620000000000),
        spelled(0x6a6f696e00000000),
        spelled(0x6a6f6b6500000000),
        spelled(0x6a6f75726e657900),
        spelled(0x6a6f790000000000),
        spelled(0x6a75646765000000),
        spelled(0x6a75696365000000),
        spelled(0x6a756d7000000000),
        spelled(0x6a756e676c650000),
        spelled(0x6a756e696f720000),
        spelled(0x6a756e6b00000000),
        spelled(0x6a75737400000000),
        spelled(0x6b616e6761726f6f),
        spelled(0x6b65656e00000000),
        spelled(0x6b65657000000000),
        spelled(0x6b65746368757000),
        spelled(0x6b65790000000000),
        spelled(0x6b69636b00000000),
        spelled(0x6b69640000000000),
        spelled(0x6b69646e65790000),
        spelled(0x6b696e6400000000),
        spelled(0x6b696e67646f6d00),
        spelled(0x6b69737300000000),
        spelled(0x6b69740000000000),
        spelled(0x6b69746368656e00),
        spelled(0x6b69746500000000),
        spelled(0x6b697474656e0000),
        spelled(0x6b69776900000000),
        spelled(0x6b6e656500000000),
        spelled(0x6b6e696665000000),
        spelled(0x6b6e6f636b000000),
        spelled(0x6b6e6f7700000000),
        spelled(0x6c61620000000000),
        spelled(0x6c6162656c000000),
        spelled(0x6c61626f72000000),
        spelled(0x6c61646465720000),
        spelled(0x6c61647900000000),
        spelled(0x6c616b6500000000),
        spelled(0x6c616d7000000000),
        spelled(0x6c616e6775616765),
        spelled(0x6c6170746f700000),
        spelled(0x6c61726765000000),
        spelled(0x6c61746572000000),
        spelled(0x6c6174696e000000),
        spelled(0x6c61756768000000),
        spelled(0x6c61756e64727900),
        spelled(0x6c61766100000000),
        spelled(0x6c61770000000000),
        spelled(0x6c61776e00000000),
        spelled(0x6c61777375697400),
        spelled(0x6c61796572000000),
        spelled(0x6c617a7900000000),
        spelled(0x6c65616465720000),
        spelled(0x6c65616600000000),
        spelled(0x6c6561726e000000),
        spelled(0x6c65617665000000),
        spelled(0x6c65637475726500),
        spelled(0x6c65667400000000),
        spelled(0x6c65670000000000),
        spelled(0x6c6567616c000000),
        spelled(0x6c6567656e640000),
        spelled(0x6c65697375726500),
        spelled(0x6c656d6f6e000000),
        spelled(0x6c656e6400000000),
{
}

/// The words 1024 to 1151 of the BIP-39 list are spelled.
pub proof fn lemma_bip39_spelled_08()
    by (bit_vector)
    ensures
        spelled(0x6c656e6774680000),
        spelled(0x6c656e7300000000),
        spelled(0x6c656f7061726400),
        spelled(0x6c6573736f6e0000),
        spelled(0x6c65747465720000),
        spelled(0x6c6576656c000000),
        spelled(0x6c69617200000000),
        spelled(0x6c69626572747900),
        spelled(0x6c69627261727900),
        spelled(0x6c6963656e736500),
        spelled(0x6c69666500000000),
        spelled(0x6c69667400000000),
        spelled(0x6c69676874000000),
        spelled(0x6c696b6500000000),
        spelled(0x6c696d6200000000),
        spelled(0x6c696d6974000000),
        spelled(0x6c696e6b00000000),
        spelled(0x6c696f6e00000000),
        spelled(0x6c69717569640000),
        spelled(0x6c69737400000000),
        spelled(0x6c6974746c650000),
        spelled(0x6c69766500000000),
        spelled(0x6c697a6172640000),
        spelled(0x6c6f616400000000),
        spelled(0x6c6f616e00000000),
        spelled(0x6c6f627374657200),
        spelled(0x6c6f63616c000000),
        spelled(0x6c6f636b00000000),
        spelled(0x6c6f676963000000),
        spelled(0x6c6f6e656c790000),
        spelled(0x6c6f6e6700000000),
        spelled(0x6c6f6f7000000000),
        spelled(0x6c6f747465727900),
        spelled(0x6c6f756400000000),
        spelled(0x6c6f756e67650000),
        spelled(0x6c6f766500000000),
        spelled(0x6c6f79616c000000),
        spelled(0x6c75636b79000000),
        spelled(0x6c75676761676500),
        spelled(0x6c756d6265720000),
        spelled(0x6c756e6172000000),
        spelled(0x6c756e6368000000),
        spelled(0x6c75787572790000),
        spelled(0x6c79726963730000),
        spelled(0x6d616368696e6500),
        spelled(0x6d61640000000000),
        spelled(0x6d61676963000000),
        spelled(0x6d61676e65740000),
        spelled(0x6d61696400000000),
        spelled(0x6d61696c00000000),
        spelled(0x6d61696e00000000),
        spelled(0x6d616a6f72000000),
        spelled(0x6d616b6500000000),
        spelled(0x6d616d6d616c0000),
        spelled(0x6d616e0000000000),
        spelled(0x6d616e6167650000),
        spelled(0x6d616e6461746500),
        spelled(0x6d616e676f000000),
        spelled(0x6d616e73696f6e00),
        spelled(0x6d616e75616c0000),
        spelled(0x6d61706c65000000),
        spelled(0x6d6172626c650000),
        spelled(0x6d61726368000000),
        spelled(0x6d617267696e0000),
        spelled(0x6d6172696e650000),
        spelled(0x6d61726b65740000),
        spelled(0x6d61727269616765),
        spelled(0x6d61736b00000000),
        spelled(0x6d61737300000000),
        spelled(0x6d61737465720000),
        spelled(0x6d61746368000000),
        spelled(0x6d6174657269616c),
        spelled(0x6d61746800000000),
        spelled(0x6d61747269780000),
        spelled(0x6d61747465720000),
        spelled(0x6d6178696d756d00),
        spelled(0x6d617a6500000000),
        spelled(0x6d6561646f770000),
        spelled(0x6d65616e00000000),
        spelled(0x6d65617375726500),
        spelled(0x6d65617400000000),
        spelled(0x6d656368616e6963),
        spelled(0x6d6564616c000000),
        spelled(0x6d65646961000000),
        spelled(0x6d656c6f64790000),
        spelled(0x6d656c7400000000),
        spelled(0x6d656d6265720000),
        spelled(0x6d656d6f72790000),
        spelled(0x6d656e74696f6e00),
        spelled(0x6d656e7500000000),
        spelled(0x6d65726379000000),
        spelled(0x6d65726765000000),
        spelled(0x6d65726974000000),
        spelled(0x6d65727279000000),
        spelled(0x6d65736800000000),
        spelled(0x6d65737361676500),
        spelled(0x6d6574616c000000),
        spelled(0x6d6574686f640000),
        spelled(0x6d6964646c650000),
        spelled(0x6d69646e69676874),
        spelled(0x6d696c6b00000000),
        spelled(0x6d696c6c696f6e00),
        spelled(0x6d696d6963000000),
        spelled(0x6d696e6400000000),
        spelled(0x6d696e696d756d00),
        spelled(0x6d696e6f72000000),
        spelled(0x6d696e7574650000),
        spelled(0x6d697261636c6500),
        spelled(0x6d6972726f720000),
        spelled(0x6d69736572790000),
        spelled(0x6d69737300000000),
        spelled(0x6d697374616b6500),
        spelled(0x6d69780000000000),
        spelled(0x6d69786564000000),
        spelled(0x6d69787475726500),
        spelled(0x6d6f62696c650000),
        spelled(0x6d6f64656c000000),
        spelled(0x6d6f646966790000),
        spelled(0x6d6f6d0000000000),
        spelled(0x6d6f6d656e740000),
        spelled(0x6d6f6e69746f7200),
        spelled(0x6d6f6e6b65790000),
        spelled(0x6d6f6e7374657200),
        spelled(0x6d6f6e7468000000),
        spelled(0x6d6f6f6e00000000),
        spelled(0x6d6f72616c000000),
        spelled(0x6d6f726500000000),
        spelled(0x6d6f726e696e6700),
{
}

/// The words 1152 to 1279 of the BIP-39 list are spelled.
pub proof fn lemma_bip39_spelled_09()
    by (bit_vector)
    ensures
        spelled(0x6d6f73717569746f),
        spelled(0x6d6f746865720000),
        spelled(0x6d6f74696f6e0000),
        spelled(0x6d6f746f72000000),
        spelled(0x6d6f756e7461696e),
        spelled(0x6d6f757365000000),
        spelled(0x6d6f766500000000),
        spelled(0x6d6f766965000000),
        spelled(0x6d75636800000000),
        spelled(0x6d756666696e0000),
        spelled(0x6d756c6500000000),
        spelled(0x6d756c7469706c79),
        spelled(0x6d7573636c650000),
        spelled(0x6d757365756d0000),
        spelled(0x6d757368726f6f6d),
        spelled(0x6d75736963000000),
        spelled(0x6d75737400000000),
        spelled(0x6d757475616c0000),
        spelled(0x6d7973656c660000),
        spelled(0x6d79737465727900),
        spelled(0x6d79746800000000),
        spelled(0x6e61697665000000),
        spelled(0x6e616d6500000000),
        spelled(0x6e61706b696e0000),
        spelled(0x6e6172726f770000),
        spelled(0x6e61737479000000),
        spelled(0x6e6174696f6e0000),
        spelled(0x6e61747572650000),
        spelled(0x6e65617200000000),
        spelled(0x6e65636b00000000),
        spelled(0x6e65656400000000),
        spelled(0x6e65676174697665),
        spelled(0x6e65676c65637400),
        spelled(0x6e65697468657200),
        spelled(0x6e65706865770000),
        spelled(0x6e65727665000000),
        spelled(0x6e65737400000000),
        spelled(0x6e65740000000000),
        spelled(0x6e6574776f726b00),
        spelled(0x6e65757472616c00),
        spelled(0x6e65766572000000),
        spelled(0x6e65777300000000),
        spelled(0x6e65787400000000),
        spelled(0x6e69636500000000),
        spelled(0x6e69676874000000),
        spelled(0x6e6f626c65000000),
        spelled(0x6e6f697365000000),
        spelled(0x6e6f6d696e656500),
        spelled(0x6e6f6f646c650000),
        spelled(0x6e6f726d616c0000),
        spelled(0x6e6f727468000000),
        spelled(0x6e6f736500000000),
        spelled(0x6e6f7461626c6500),
        spelled(0x6e6f746500000000),
        spelled(0x6e6f7468696e6700),
        spelled(0x6e6f746963650000),
        spelled(0x6e6f76656c000000),
        spelled(0x6e6f770000000000),
        spelled(0x6e75636c65617200),
        spelled(0x6e756d6265720000),
        spelled(0x6e75727365000000),
        spelled(0x6e75740000000000),
        spelled(0x6f616b0000000000),
        spelled(0x6f62657900000000),
        spelled(0x6f626a6563740000),
        spelled(0x6f626c6967650000),
        spelled(0x6f62736375726500),
        spelled(0x6f62736572766500),
        spelled(0x6f627461696e0000),
        spelled(0x6f6276696f757300),
        spelled(0x6f63637572000000),
        spelled(0x6f6365616e000000),
        spelled(0x6f63746f62657200),
        spelled(0x6f646f7200000000),
        spelled(0x6f66660000000000),
        spelled(0x6f66666572000000),
        spelled(0x6f66666963650000),
        spelled(0x6f6674656e000000),
        spelled(0x6f696c0000000000),
        spelled(0x6f6b617900000000),
        spelled(0x6f6c640000000000),
        spelled(0x6f6c697665000000),
        spelled(0x6f6c796d70696300),
        spelled(0x6f6d697400000000),
        spelled(0x6f6e636500000000),
        spelled(0x6f6e650000000000),
        spelled(0x6f6e696f6e000000),
        spelled(0x6f6e6c696e650000),
        spelled(0x6f6e6c7900000000),
        spelled(0x6f70656e00000000),
        spelled(0x6f70657261000000),
        spelled(0x6f70696e696f6e00),
        spelled(0x6f70706f73650000),
        spelled(0x6f7074696f6e0000),
        spelled(0x6f72616e67650000),
        spelled(0x6f72626974000000),
        spelled(0x6f72636861726400),
        spelled(0x6f72646572000000),
        spelled(0x6f7264696e617279),
        spelled(0x6f7267616e000000),
        spelled(0x6f7269656e740000),
        spelled(0x6f726967696e616c),
        spelled(0x6f727068616e0000),
        spelled(0x6f73747269636800),
        spelled(0x6f74686572000000),
        spelled(0x6f7574646f6f7200),
        spelled(0x6f75746572000000),
        spelled(0x6f75747075740000),
        spelled(0x6f75747369646500),
        spelled(0x6f76616c00000000),
        spelled(0x6f76656e00000000),
        spelled(0x6f76657200000000),
        spelled(0x6f776e0000000000),
        spelled(0x6f776e6572000000),
        spelled(0x6f787967656e0000),
        spelled(0x6f79737465720000),
        spelled(0x6f7a6f6e65000000),
        spelled(0x7061637400000000),
        spelled(0x706164646c650000),
        spelled(0x7061676500000000),
        spelled(0x7061697200000000),
        spelled(0x70616c6163650000),
        spelled(0x70616c6d00000000),
        spelled(0x70616e6461000000),
        spelled(0x70616e656c000000),
        spelled(0x70616e6963000000),
        spelled(0x70616e7468657200),
        spelled(0x7061706572000000),
{
}

/// The words 1280 to 1407 of the BIP-39 list are spelled.
pub proof fn lemma_bip39_spelled_10()
    by (bit_vector)
    ensures
        spelled(0x7061726164650000),
        spelled(0x706172656e740000),
        spelled(0x7061726b00000000),
        spelled(0x706172726f740000),
        spelled(0x7061727479000000),
        spelled(0x7061737300000000),
        spelled(0x7061746368000000),
        spelled(0x7061746800000000),
        spelled(0x70617469656e7400),
        spelled(0x706174726f6c0000),
        spelled(0x7061747465726e00),
        spelled(0x7061757365000000),
        spelled(0x7061766500000000),
        spelled(0x7061796d656e7400),
        spelled(0x7065616365000000),
        spelled(0x7065616e75740000),
        spelled(0x7065617200000000),
        spelled(0x70656173616e7400),
        spelled(0x70656c6963616e00),
        spelled(0x70656e0000000000),
        spelled(0x70656e616c747900),
        spelled(0x70656e63696c0000),
        spelled(0x70656f706c650000),
        spelled(0x7065707065720000),
        spelled(0x7065726665637400),
        spelled(0x7065726d69740000),
        spelled(0x706572736f6e0000),
        spelled(0x7065740000000000),
        spelled(0x70686f6e65000000),
        spelled(0x70686f746f000000),
        spelled(0x7068726173650000),
        spelled(0x706879736963616c),
        spelled(0x7069616e6f000000),
        spelled(0x7069636e69630000),
        spelled(0x7069637475726500),
        spelled(0x7069656365000000),
        spelled(0x7069670000000000),
        spelled(0x706967656f6e0000),
        spelled(0x70696c6c00000000),
        spelled(0x70696c6f74000000),
        spelled(0x70696e6b00000000),
        spelled(0x70696f6e65657200),
        spelled(0x7069706500000000),
        spelled(0x706973746f6c0000),
        spelled(0x7069746368000000),
        spelled(0x70697a7a61000000),
        spelled(0x706c616365000000),
        spelled(0x706c616e65740000),
        spelled(0x706c617374696300),
        spelled(0x706c617465000000),
        spelled(0x706c617900000000),
        spelled(0x706c656173650000),
        spelled(0x706c656467650000),
        spelled(0x706c75636b000000),
        spelled(0x706c756700000000),
        spelled(0x706c756e67650000),
        spelled(0x706f656d00000000),
        spelled(0x706f657400000000),
        spelled(0x706f696e74000000),
        spelled(0x706f6c6172000000),
        spelled(0x706f6c6500000000),
        spelled(0x706f6c6963650000),
        spelled(0x706f6e6400000000),
        spelled(0x706f6e7900000000),
        spelled(0x706f6f6c00000000),
        spelled(0x706f70756c617200),
        spelled(0x706f7274696f6e00),
        spelled(0x706f736974696f6e),
        spelled(0x706f737369626c65),
        spelled(0x706f737400000000),
        spelled(0x706f7461746f0000),
        spelled(0x706f747465727900),
        spelled(0x706f766572747900),
        spelled(0x706f776465720000),
        spelled(0x706f776572000000),
        spelled(0x7072616374696365),
        spelled(0x7072616973650000),
        spelled(0x7072656469637400),
        spelled(0x7072656665720000),
        spelled(0x7072657061726500),
        spelled(0x70726573656e7400),
        spelled(0x7072657474790000),
        spelled(0x70726576656e7400),
        spelled(0x7072696365000000),
        spelled(0x7072696465000000),
        spelled(0x7072696d61727900),
        spelled(0x7072696e74000000),
        spelled(0x7072696f72697479),
        spelled(0x707269736f6e0000),
        spelled(0x7072697661746500),
        spelled(0x7072697a65000000),
        spelled(0x70726f626c656d00),
        spelled(0x70726f6365737300),
        spelled(0x70726f6475636500),
        spelled(0x70726f6669740000),
        spelled(0x70726f6772616d00),
        spelled(0x70726f6a65637400),
        spelled(0x70726f6d6f746500),
        spelled(0x70726f6f66000000),
        spelled(0x70726f7065727479),
        spelled(0x70726f7370657200),
        spelled(0x70726f7465637400),
        spelled(0x70726f7564000000),
        spelled(0x70726f7669646500),
        spelled(0x7075626c69630000),
        spelled(0x70756464696e6700),
        spelled(0x70756c6c00000000),
        spelled(0x70756c7000000000),
        spelled(0x70756c7365000000),
        spelled(0x70756d706b696e00),
        spelled(0x70756e6368000000),
        spelled(0x707570696c000000),
        spelled(0x7075707079000000),
        spelled(0x7075726368617365),
        spelled(0x7075726974790000),
        spelled(0x707572706f736500),
        spelled(0x7075727365000000),
        spelled(0x7075736800000000),
        spelled(0x7075740000000000),
        spelled(0x70757a7a6c650000),
        spelled(0x707972616d696400),
        spelled(0x7175616c69747900),
        spelled(0x7175616e74756d00),
        spelled(0x7175617274657200),
        spelled(0x7175657374696f6e),
        spelled(0x717569636b000000),
        spelled(0x7175697400000000),
        spelled(0x7175697a00000000),
{
}

/// The words 1408 to 1535 of the BIP-39 list are spelled.
pub proof fn lemma_bip39_spelled_11()
    by (bit_vector)
    ensures
        spelled(0x71756f7465000000),
        spelled(0x7261626269740000),
        spelled(0x726163636f6f6e00),
        spelled(0x7261636500000000),
        spelled(0x7261636b00000000),
        spelled(0x7261646172000000),
        spelled(0x726164696f000000),
        spelled(0x7261696c00000000),
        spelled(0x7261696e00000000),
        spelled(0x7261697365000000),
        spelled(0x72616c6c79000000),
        spelled(0x72616d7000000000),
        spelled(0x72616e6368000000),
        spelled(0x72616e646f6d0000),
        spelled(0x72616e6765000000),
        spelled(0x7261706964000000),
        spelled(0x7261726500000000),
        spelled(0x7261746500000000),
        spelled(0x7261746865720000),
        spelled(0x726176656e000000),
        spelled(0x7261770000000000),
        spelled(0x72617a6f72000000),
        spelled(0x7265616479000000),
        spelled(0x7265616c00000000),
        spelled(0x726561736f6e0000),
        spelled(0x726562656c000000),
        spelled(0x72656275696c6400),
        spelled(0x726563616c6c0000),
        spelled(0x7265636569766500),
        spelled(0x7265636970650000),
        spelled(0x7265636f72640000),
        spelled(0x72656379636c6500),
        spelled(0x7265647563650000),
        spelled(0x7265666c65637400),
        spelled(0x7265666f726d0000),
        spelled(0x7265667573650000),
        spelled(0x726567696f6e0000),
        spelled(0x7265677265740000),
        spelled(0x726567756c617200),
        spelled(0x72656a6563740000),
        spelled(0x72656c6178000000),
        spelled(0x72656c6561736500),
        spelled(0x72656c6965660000),
        spelled(0x72656c7900000000),
        spelled(0x72656d61696e0000),
        spelled(0x72656d656d626572),
        spelled(0x72656d696e640000),
        spelled(0x72656d6f76650000),
        spelled(0x72656e6465720000),
        spelled(0x72656e6577000000),
        spelled(0x72656e7400000000),
        spelled(0x72656f70656e0000),
        spelled(0x7265706169720000),
        spelled(0x7265706561740000),
        spelled(0x7265706c61636500),
        spelled(0x7265706f72740000),
        spelled(0x7265717569726500),
        spelled(0x7265736375650000),
        spelled(0x726573656d626c65),
        spelled(0x7265736973740000),
        spelled(0x7265736f75726365),
        spelled(0x726573706f6e7365),
        spelled(0x726573756c740000),
        spelled(0x7265746972650000),
        spelled(0x7265747265617400),
        spelled(0x72657475726e0000),
        spelled(0x7265756e696f6e00),
        spelled(0x72657665616c0000),
        spelled(0x7265766965770000),
        spelled(0x7265776172640000),
        spelled(0x72687974686d0000),
        spelled(0x7269620000000000),
        spelled(0x726962626f6e0000),
        spelled(0x7269636500000000),
        spelled(0x7269636800000000),
        spelled(0x7269646500000000),
        spelled(0x7269646765000000),
        spelled(0x7269666c65000000),
        spelled(0x7269676874000000),
        spelled(0x7269676964000000),
        spelled(0x72696e6700000000),
        spelled(0x72696f7400000000),
        spelled(0x726970706c650000),
        spelled(0x7269736b00000000),
        spelled(0x72697475616c0000),
        spelled(0x726976616c000000),
        spelled(0x7269766572000000),
        spelled(0x726f616400000000),
        spelled(0x726f617374000000),
        spelled(0x726f626f74000000),
        spelled(0x726f627573740000),
        spelled(0x726f636b65740000),
        spelled(0x726f6d616e636500),
        spelled(0x726f6f6600000000),
        spelled(0x726f6f6b69650000),
        spelled(0x726f6f6d00000000),
        spelled(0x726f736500000000),
        spelled(0x726f746174650000),
        spelled(0x726f756768000000),
        spelled(0x726f756e64000000),
        spelled(0x726f757465000000),
        spelled(0x726f79616c000000),
        spelled(0x7275626265720000),
        spelled(0x7275646500000000),
        spelled(0x7275670000000000),
        spelled(0x72756c6500000000),
        spelled(0x72756e0000000000),
        spelled(0x72756e7761790000),
        spelled(0x727572616c000000),
        spelled(0x7361640000000000),
        spelled(0x736164646c650000),
        spelled(0x7361646e65737300),
        spelled(0x7361666500000000),
        spelled(0x7361696c00000000),
        spelled(0x73616c6164000000),
        spelled(0x73616c6d6f6e0000),
        spelled(0x73616c6f6e000000),
        spelled(0x73616c7400000000),
        spelled(0x73616c7574650000),
        spelled(0x73616d6500000000),
        spelled(0x73616d706c650000),
        spelled(0x73616e6400000000),
        spelled(0x7361746973667900),
        spelled(0x7361746f73686900),
        spelled(0x7361756365000000),
        spelled(0x7361757361676500),
        spelled(0x7361766500000000),
        spelled(0x7361790000000000),
{
}

/// The words 1536 to 1663 of the BIP-39 list are spelled.
pub proof fn lemma_bip39_spelled_12()
    by (bit_vector)
    ensures
        spelled(0x7363616c65000000),
        spelled(0x7363616e00000000),
        spelled(0x7363617265000000),
        spelled(0x7363617474657200),
        spelled(0x7363656e65000000),
        spelled(0x736368656d650000),
        spelled(0x7363686f6f6c0000),
        spelled(0x736369656e636500),
        spelled(0x73636973736f7273),
        spelled(0x73636f7270696f6e),
        spelled(0x73636f7574000000),
        spelled(0x7363726170000000),
        spelled(0x73637265656e0000),
        spelled(0x7363726970740000),
        spelled(0x7363727562000000),
        spelled(0x7365610000000000),
        spelled(0x7365617263680000),
        spelled(0x736561736f6e0000),
        spelled(0x7365617400000000),
        spelled(0x7365636f6e640000),
        spelled(0x7365637265740000),
        spelled(0x73656374696f6e00),
        spelled(0x7365637572697479),
        spelled(0x7365656400000000),
        spelled(0x7365656b00000000),
        spelled(0x7365676d656e7400),
        spelled(0x73656c6563740000),
        spelled(0x73656c6c00000000),
        spelled(0x73656d696e617200),
        spelled(0x73656e696f720000),
        spelled(0x73656e7365000000),
        spelled(0x73656e74656e6365),
        spelled(0x7365726965730000),
        spelled(0x7365727669636500),
        spelled(0x73657373696f6e00),
        spelled(0x736574746c650000),
        spelled(0x7365747570000000),
        spelled(0x736576656e000000),
        spelled(0x736861646f770000),
        spelled(0x7368616674000000),
        spelled(0x7368616c6c6f7700),
        spelled(0x7368617265000000),
        spelled(0x7368656400000000),
        spelled(0x7368656c6c000000),
        spelled(0x7368657269666600),
        spelled(0x736869656c640000),
        spelled(0x7368696674000000),
        spelled(0x7368696e65000000),
        spelled(0x7368697000000000),
        spelled(0x7368697665720000),
        spelled(0x73686f636b000000),
        spelled(0x73686f6500000000),
        spelled(0x73686f6f74000000),
        spelled(0x73686f7000000000),
        spelled(0x73686f7274000000),
        spelled(0x73686f756c646572),
        spelled(0x73686f7665000000),
        spelled(0x736872696d700000),
        spelled(0x7368727567000000),
        spelled(0x73687566666c6500),
        spelled(0x7368790000000000),
        spelled(0x7369626c696e6700),
        spelled(0x7369636b00000000),
        spelled(0x7369646500000000),
        spelled(0x7369656765000000),
        spelled(0x7369676874000000),
        spelled(0x7369676e00000000),
        spelled(0x73696c656e740000),
        spelled(0x73696c6b00000000),
        spelled(0x73696c6c79000000),
        spelled(0x73696c7665720000),
        spelled(0x73696d696c617200),
        spelled(0x73696d706c650000),
        spelled(0x73696e6365000000),
        spelled(0x73696e6700000000),
        spelled(0x736972656e000000),
        spelled(0x7369737465720000),
        spelled(0x7369747561746500),
        spelled(0x7369780000000000),
        spelled(0x73697a6500000000),
        spelled(0x736b617465000000),
        spelled(0x736b657463680000),
        spelled(0x736b690000000000),
        spelled(0x736b696c6c000000),
        spelled(0x736b696e00000000),
        spelled(0x736b697274000000),
        spelled(0x736b756c6c000000),
        spelled(0x736c616200000000),
        spelled(0x736c616d00000000),
        spelled(0x736c656570000000),
        spelled(0x736c656e64657200),
        spelled(0x736c696365000000),
        spelled(0x736c696465000000),
        spelled(0x736c696768740000),
        spelled(0x736c696d00000000),
        spelled(0x736c6f67616e0000),
        spelled(0x736c6f7400000000),
        spelled(0x736c6f7700000000),
        spelled(0x736c757368000000),
        spelled(0x736d616c6c000000),
        spelled(0x736d617274000000),
        spelled(0x736d696c65000000),
        spelled(0x736d6f6b65000000),
        spelled(0x736d6f6f74680000),
        spelled(0x736e61636b000000),
        spelled(0x736e616b65000000),
        spelled(0x736e617000000000),
        spelled(0x736e696666000000),
        spelled(0x736e6f7700000000),
        spelled(0x736f617000000000),
        spelled(0x736f636365720000),
        spelled(0x736f6369616c0000),
        spelled(0x736f636b00000000),
        spelled(0x736f646100000000),
        spelled(0x736f667400000000),
        spelled(0x736f6c6172000000),
        spelled(0x736f6c6469657200),
        spelled(0x736f6c6964000000),
        spelled(0x736f6c7574696f6e),
        spelled(0x736f6c7665000000),
        spelled(0x736f6d656f6e6500),
        spelled(0x736f6e6700000000),
        spelled(0x736f6f6e00000000),
        spelled(0x736f727279000000),
        spelled(0x736f727400000000),
        spelled(0x736f756c00000000),
        spelled(0x736f756e64000000),
        spelled(0x736f757000000000),
{
}

/// The words 1664 to 1791 of the BIP-39 list are spelled.
pub proof fn lemma_bip39_spelled_13()
    by (bit_vector)
    ensures
        spelled(0x736f757263650000),
        spelled(0x736f757468000000),
        spelled(0x7370616365000000),
        spelled(0x7370617265000000),
        spelled(0x7370617469616c00),
        spelled(0x737061776e000000),
        spelled(0x737065616b000000),
        spelled(0x7370656369616c00),
        spelled(0x7370656564000000),
        spelled(0x7370656c6c000000),
        spelled(0x7370656e64000000),
        spelled(0x7370686572650000),
        spelled(0x7370696365000000),
        spelled(0x7370696465720000),
        spelled(0x7370696b65000000),
        spelled(0x7370696e00000000),
        spelled(0x7370697269740000),
        spelled(0x73706c6974000000),
        spelled(0x73706f696c000000),
        spelled(0x73706f6e736f7200),
        spelled(0x73706f6f6e000000),
        spelled(0x73706f7274000000),
        spelled(0x73706f7400000000),
        spelled(0x7370726179000000),
        spelled(0x7370726561640000),
        spelled(0x737072696e670000),
        spelled(0x7370790000000000),
        spelled(0x7371756172650000),
        spelled(0x73717565657a6500),
        spelled(0x737175697272656c),
        spelled(0x737461626c650000),
        spelled(0x7374616469756d00),
        spelled(0x7374616666000000),
        spelled(0x7374616765000000),
        spelled(0x7374616972730000),
        spelled(0x7374616d70000000),
        spelled(0x7374616e64000000),
        spelled(0x7374617274000000),
        spelled(0x7374617465000000),
        spelled(0x7374617900000000),
        spelled(0x737465616b000000),
        spelled(0x737465656c000000),
        spelled(0x7374656d00000000),
        spelled(0x7374657000000000),
        spelled(0x73746572656f0000),
        spelled(0x737469636b000000),
        spelled(0x7374696c6c000000),
        spelled(0x7374696e67000000),
        spelled(0x73746f636b000000),
        spelled(0x73746f6d61636800),
        spelled(0x73746f6e65000000),
        spelled(0x73746f6f6c000000),
        spelled(0x73746f7279000000),
        spelled(0x73746f7665000000),
        spelled(0x7374726174656779),
        spelled(0x7374726565740000),
        spelled(0x737472696b650000),
        spelled(0x7374726f6e670000),
        spelled(0x7374727567676c65),
        spelled(0x73747564656e7400),
        spelled(0x7374756666000000),
        spelled(0x7374756d626c6500),
        spelled(0x7374796c65000000),
        spelled(0x7375626a65637400),
        spelled(0x7375626d69740000),
        spelled(0x7375627761790000),
        spelled(0x7375636365737300),
        spelled(0x7375636800000000),
        spelled(0x73756464656e0000),
        spelled(0x7375666665720000),
        spelled(0x7375676172000000),
        spelled(0x7375676765737400),
        spelled(0x7375697400000000),
        spelled(0x73756d6d65720000),
        spelled(0x73756e0000000000),
        spelled(0x73756e6e79000000),
        spelled(0x73756e7365740000),
        spelled(0x7375706572000000),
        spelled(0x737570706c790000),
        spelled(0x73757072656d6500),
        spelled(0x7375726500000000),
        spelled(0x7375726661636500),
        spelled(0x7375726765000000),
        spelled(0x7375727072697365),
        spelled(0x737572726f756e64),
        spelled(0x7375727665790000),
        spelled(0x7375737065637400),
        spelled(0x7375737461696e00),
        spelled(0x7377616c6c6f7700),
        spelled(0x7377616d70000000),
        spelled(0x7377617000000000),
        spelled(0x737761726d000000),
        spelled(0x7377656172000000),
        spelled(0x7377656574000000),
        spelled(0x7377696674000000),
        spelled(0x7377696d00000000),
        spelled(0x7377696e67000000),
        spelled(0x7377697463680000),
        spelled(0x73776f7264000000),
        spelled(0x73796d626f6c0000),
        spelled(0x73796d70746f6d00),
        spelled(0x7379727570000000),
        spelled(0x73797374656d0000),
        spelled(0x7461626c65000000),
        spelled(0x7461636b6c650000),
        spelled(0x7461670000000000),
        spelled(0x7461696c00000000),
        spelled(0x74616c656e740000),
        spelled(0x74616c6b00000000),
        spelled(0x74616e6b00000000),
        spelled(0x7461706500000000),
        spelled(0x7461726765740000),
        spelled(0x7461736b00000000),
        spelled(0x7461737465000000),
        spelled(0x746174746f6f0000),
        spelled(0x7461786900000000),
        spelled(0x7465616368000000),
        spelled(0x7465616d00000000),
        spelled(0x74656c6c00000000),
        spelled(0x74656e0000000000),
        spelled(0x74656e616e740000),
        spelled(0x74656e6e69730000),
        spelled(0x74656e7400000000),
        spelled(0x7465726d00000000),
        spelled(0x7465737400000000),
        spelled(0x7465787400000000),
        spelled(0x7468616e6b000000),
        spelled(0x7468617400000000),
{
}

/// The words 1792 to 1919 of the BIP-39 list are spelled.
pub proof fn lemma_bip39_spelled_14()
    by (bit_vector)
    ensures
        spelled(0x7468656d65000000),
        spelled(0x7468656e00000000),
        spelled(0x7468656f72790000),
        spelled(0x7468657265000000),
        spelled(0x7468657900000000),
        spelled(0x7468696e67000000),
        spelled(0x7468697300000000),
        spelled(0x74686f7567687400),
        spelled(0x7468726565000000),
        spelled(0x7468726976650000),
        spelled(0x7468726f77000000),
        spelled(0x7468756d62000000),
        spelled(0x7468756e64657200),
        spelled(0x7469636b65740000),
        spelled(0x7469646500000000),
        spelled(0x7469676572000000),
        spelled(0x74696c7400000000),
        spelled(0x74696d6265720000),
        spelled(0x74696d6500000000),
        spelled(0x74696e7900000000),
        spelled(0x7469700000000000),
        spelled(0x7469726564000000),
        spelled(0x7469737375650000),
        spelled(0x7469746c65000000),
        spelled(0x746f617374000000),
        spelled(0x746f626163636f00),
        spelled(0x746f646179000000),
        spelled(0x746f64646c657200),
        spelled(0x746f650000000000),
        spelled(0x746f676574686572),
        spelled(0x746f696c65740000),
        spelled(0x746f6b656e000000),
        spelled(0x746f6d61746f0000),
        spelled(0x746f6d6f72726f77),
        spelled(0x746f6e6500000000),
        spelled(0x746f6e6775650000),
        spelled(0x746f6e6967687400),
        spelled(0x746f6f6c00000000),
        spelled(0x746f6f7468000000),
        spelled(0x746f700000000000),
        spelled(0x746f706963000000),
        spelled(0x746f70706c650000),
        spelled(0x746f726368000000),
        spelled(0x746f726e61646f00),
        spelled(0x746f72746f697365),
        spelled(0x746f737300000000),
        spelled(0x746f74616c000000),
        spelled(0x746f757269737400),
        spelled(0x746f776172640000),
        spelled(0x746f776572000000),
        spelled(0x746f776e00000000),
        spelled(0x746f790000000000),
        spelled(0x747261636b000000),
        spelled(0x7472616465000000),
        spelled(0x7472616666696300),
        spelled(0x7472616769630000),
        spelled(0x747261696e000000),
        spelled(0x7472616e73666572),
        spelled(0x7472617000000000),
        spelled(0x7472617368000000),
        spelled(0x74726176656c0000),
        spelled(0x7472617900000000),
        spelled(0x7472656174000000),
        spelled(0x7472656500000000),
        spelled(0x7472656e64000000),
        spelled(0x747269616c000000),
        spelled(0x7472696265000000),
        spelled(0x747269636b000000),
        spelled(0x7472696767657200),
        spelled(0x7472696d00000000),
        spelled(0x7472697000000000),
        spelled(0x74726f7068790000),
        spelled(0x74726f75626c6500),
        spelled(0x747275636b000000),
        spelled(0x7472756500000000),
        spelled(0x7472756c79000000),
        spelled(0x7472756d70657400),
        spelled(0x7472757374000000),
        spelled(0x7472757468000000),
        spelled(0x7472790000000000),
        spelled(0x7475626500000000),
        spelled(0x74756974696f6e00),
        spelled(0x74756d626c650000),
        spelled(0x74756e6100000000),
        spelled(0x74756e6e656c0000),
        spelled(0x7475726b65790000),
        spelled(0x7475726e00000000),
        spelled(0x747572746c650000),
        spelled(0x7477656c76650000),
        spelled(0x7477656e74790000),
        spelled(0x7477696365000000),
        spelled(0x7477696e00000000),
        spelled(0x7477697374000000),
        spelled(0x74776f0000000000),
        spelled(0x7479706500000000),
        spelled(0x7479706963616c00),
        spelled(0x75676c7900000000),
        spelled(0x756d6272656c6c61),
        spelled(0x756e61626c650000),
        spelled(0x756e617761726500),
        spelled(0x756e636c65000000),
        spelled(0x756e636f76657200),
        spelled(0x756e646572000000),
        spelled(0x756e646f00000000),
        spelled(0x756e666169720000),
        spelled(0x756e666f6c640000),
        spelled(0x756e686170707900),
        spelled(0x756e69666f726d00),
        spelled(0x756e697175650000),
        spelled(0x756e697400000000),
        spelled(0x756e697665727365),
        spelled(0x756e6b6e6f776e00),
        spelled(0x756e6c6f636b0000),
        spelled(0x756e74696c000000),
        spelled(0x756e757375616c00),
        spelled(0x756e7665696c0000),
        spelled(0x7570646174650000),
        spelled(0x7570677261646500),
        spelled(0x7570686f6c640000),
        spelled(0x75706f6e00000000),
        spelled(0x7570706572000000),
        spelled(0x7570736574000000),
        spelled(0x757262616e000000),
        spelled(0x7572676500000000),
        spelled(0x7573616765000000),
        spelled(0x7573650000000000),
        spelled(0x7573656400000000),
        spelled(0x75736566756c0000),
{
}

/// The words 1920 to 2047 of the BIP-39 list are spelled.
pub proof fn lemma_bip39_spelled_15()
    by (bit_vector)
    ensures
        spelled(0x7573656c65737300),
        spelled(0x757375616c000000),
        spelled(0x7574696c69747900),
        spelled(0x766163616e740000),
        spelled(0x76616375756d0000),
        spelled(0x7661677565000000),
        spelled(0x76616c6964000000),
        spelled(0x76616c6c65790000),
        spelled(0x76616c7665000000),
        spelled(0x76616e0000000000),
        spelled(0x76616e6973680000),
        spelled(0x7661706f72000000),
        spelled(0x766172696f757300),
        spelled(0x7661737400000000),
        spelled(0x7661756c74000000),
        spelled(0x76656869636c6500),
        spelled(0x76656c7665740000),
        spelled(0x76656e646f720000),
        spelled(0x76656e7475726500),
        spelled(0x76656e7565000000),
        spelled(0x7665726200000000),
        spelled(0x7665726966790000),
        spelled(0x76657273696f6e00),
        spelled(0x7665727900000000),
        spelled(0x76657373656c0000),
        spelled(0x7665746572616e00),
        spelled(0x766961626c650000),
        spelled(0x76696272616e7400),
        spelled(0x766963696f757300),
        spelled(0x766963746f727900),
        spelled(0x766964656f000000),
        spelled(0x7669657700000000),
        spelled(0x76696c6c61676500),
        spelled(0x76696e7461676500),
        spelled(0x76696f6c696e0000),
        spelled(0x7669727475616c00),
        spelled(0x7669727573000000),
        spelled(0x7669736100000000),
        spelled(0x7669736974000000),
        spelled(0x76697375616c0000),
        spelled(0x766974616c000000),
        spelled(0x7669766964000000),
        spelled(0x766f63616c000000),
        spelled(0x766f696365000000),
        spelled(0x766f696400000000),
        spelled(0x766f6c63616e6f00),
        spelled(0x766f6c756d650000),
        spelled(0x766f746500000000),
        spelled(0x766f796167650000),
        spelled(0x7761676500000000),
        spelled(0x7761676f6e000000),
        spelled(0x7761697400000000),
        spelled(0x77616c6b00000000),
        spelled(0x77616c6c00000000),
        spelled(0x77616c6e75740000),
        spelled(0x77616e7400000000),
        spelled(0x7761726661726500),
        spelled(0x7761726d00000000),
        spelled(0x77617272696f7200),
        spelled(0x7761736800000000),
        spelled(0x7761737000000000),
        spelled(0x7761737465000000),
        spelled(0x7761746572000000),
        spelled(0x7761766500000000),
        spelled(0x7761790000000000),
        spelled(0x7765616c74680000),
        spelled(0x776561706f6e0000),
        spelled(0x7765617200000000),
        spelled(0x77656173656c0000),
        spelled(0x7765617468657200),
        spelled(0x7765620000000000),
        spelled(0x77656464696e6700),
        spelled(0x7765656b656e6400),
        spelled(0x7765697264000000),
        spelled(0x77656c636f6d6500),
        spelled(0x7765737400000000),
        spelled(0x7765740000000000),
        spelled(0x7768616c65000000),
        spelled(0x7768617400000000),
        spelled(0x7768656174000000),
        spelled(0x776865656c000000),
        spelled(0x7768656e00000000),
        spelled(0x7768657265000000),
        spelled(0x7768697000000000),
        spelled(0x7768697370657200),
        spelled(0x7769646500000000),
        spelled(0x7769647468000000),
        spelled(0x7769666500000000),
        spelled(0x77696c6400000000),
        spelled(0x77696c6c00000000),
        spelled(0x77696e0000000000),
        spelled(0x77696e646f770000),
        spelled(0x77696e6500000000),
        spelled(0x77696e6700000000),
        spelled(0x77696e6b00000000),
        spelled(0x77696e6e65720000),
        spelled(0x77696e7465720000),
        spelled(0x7769726500000000),
        spelled(0x776973646f6d0000),
        spelled(0x7769736500000000),
        spelled(0x7769736800000000),
        spelled(0x7769746e65737300),
        spelled(0x776f6c6600000000),
        spelled(0x776f6d616e000000),
        spelled(0x776f6e6465720000),
        spelled(0x776f6f6400000000),
        spelled(0x776f6f6c00000000),
        spelled(0x776f726400000000),
        spelled(0x776f726b00000000),
        spelled(0x776f726c64000000),
        spelled(0x776f727279000000),
        spelled(0x776f727468000000),
        spelled(0x7772617000000000),
        spelled(0x777265636b000000),
        spelled(0x77726573746c6500),
        spelled(0x7772697374000000),
        spelled(0x7772697465000000),
        spelled(0x77726f6e67000000),
        spelled(0x7961726400000000),
        spelled(0x7965617200000000),
        spelled(0x79656c6c6f770000),
        spelled(0x796f750000000000),
        spelled(0x796f756e67000000),
        spelled(0x796f757468000000),
        spelled(0x7a65627261000000),
        spelled(0x7a65726f00000000),
        spelled(0x7a6f6e6500000000),
        spelled(0x7a6f6f0000000000),
{
}

/// The words 0 to 127 of the mobile list are spelled.
pub proof fn lemma_mobile_spelled_00()
    by (bit_vector)
    ensures
        spelled(0x61636f726e000000),
        spelled(0x6167617465000000),
        spelled(0x616c646572000000),
        spelled(0x616c6d6f6e640000),
        spelled(0x616d626572000000),
        spelled(0x616e63686f720000),
        spelled(0x616e76696c000000),
        spelled(0x61707269636f7400),
        spelled(0x6172626f72000000),
        spelled(0x617370656e000000),
        spelled(0x6173746572000000),
        spelled(0x61746c6173000000),
        spelled(0x6261646765720000),
        spelled(0x62616d626f6f0000),
        spelled(0x62616e6a6f000000),
        spelled(0x6261726c65790000),
        spelled(0x626173616c740000),
        spelled(0x626173696c000000),
        spelled(0x626561636f6e0000),
        spelled(0x6265656368000000),
        spelled(0x6269726368000000),
        spelled(0x6269736f6e000000),
        spelled(0x626c6f73736f6d00),
        spelled(0x626f626361740000),
        spelled(0x6272616d626c6500),
        spelled(0x62726f6f6b000000),
        spelled(0x62756666616c6f00),
        spelled(0x627572726f770000),
        spelled(0x6361637475730000),
        spelled(0x63616d656c000000),
        spelled(0x63616e6172790000),
        spelled(0x63616e646c650000),
        spelled(0x63616e796f6e0000),
        spelled(0x63617269626f7500),
        spelled(0x6365646172000000),
        spelled(0x63656c6c6f000000),
        spelled(0x6368616c6b000000),
        spelled(0x6368657272790000),
        spelled(0x63686973656c0000),
        spelled(0x6369636164610000),
        spelled(0x63696e6465720000),
        spelled(0x6369747275730000),
        spelled(0x636c6f7665720000),
        spelled(0x636f62616c740000),
        spelled(0x636f6d6574000000),
        spelled(0x636f6e646f720000),
        spelled(0x636f707065720000),
        spelled(0x636f72616c000000),
        spelled(0x636f74746f6e0000),
        spelled(0x636f796f74650000),
        spelled(0x6372616e65000000),
        spelled(0x6372617465720000),
        spelled(0x637269636b657400),
        spelled(0x63726f6375730000),
        spelled(0x6372797374616c00),
        spelled(0x6379707265737300),
        spelled(0x6461697379000000),
        spelled(0x64656c7461000000),
        spelled(0x6465736572740000),
        spelled(0x646f6c7068696e00),
        spelled(0x64756e6500000000),
        spelled(0x6561676c65000000),
        spelled(0x65626f6e79000000),
        spelled(0x6563686f00000000),
        spelled(0x656c646572000000),
        spelled(0x656d626572000000),
        spelled(0x66616c636f6e0000),
        spelled(0x66656e6e656c0000),
        spelled(0x6665726e00000000),
        spelled(0x6665727265740000),
        spelled(0x666964646c650000),
        spelled(0x66696e6368000000),
        spelled(0x666a6f7264000000),
        spelled(0x666c696e74000000),
        spelled(0x666f726573740000),
        spelled(0x666f7373696c0000),
        spelled(0x666f780000000000),
        spelled(0x67616c6178790000),
        spelled(0x6761726e65740000),
        spelled(0x6765636b6f000000),
        spelled(0x6765797365720000),
        spelled(0x67696e6765720000),
        spelled(0x676c616369657200),
        spelled(0x6772616e69746500),
        spelled(0x67726f7665000000),
        spelled(0x67756c6c00000000),
        spelled(0x686172626f720000),
        spelled(0x6861776b00000000),
        spelled(0x68617a656c000000),
        spelled(0x6865726f6e000000),
        spelled(0x6869636b6f727900),
        spelled(0x686f6c6c6f770000),
        spelled(0x686f6e6579000000),
        spelled(0x686f726e65740000),
        spelled(0x6962697300000000),
        spelled(0x696775616e610000),
        spelled(0x696e6469676f0000),
        spelled(0x6972697300000000),
        spelled(0x69736c616e640000),
        spelled(0x69766f7279000000),
        spelled(0x6976790000000000),
        spelled(0x6a61636b616c0000),
        spelled(0x6a61646500000000),
        spelled(0x6a61677561720000),
        spelled(0x6a61736d696e6500),
        spelled(0x6a61737065720000),
        spelled(0x6a756e6970657200),
        spelled(0x6b656c7000000000),
        spelled(0x6b65737472656c00),
        spelled(0x6b6574746c650000),
        spelled(0x6b69776900000000),
        spelled(0x6b6f616c61000000),
        spelled(0x6c61676f6f6e0000),
        spelled(0x6c616e7465726e00),
        spelled(0x6c61726368000000),
        spelled(0x6c61726b00000000),
        spelled(0x6c617572656c0000),
        spelled(0x6c61766100000000),
        spelled(0x6c656d6f6e000000),
        spelled(0x6c696368656e0000),
        spelled(0x6c696c6163000000),
        spelled(0x6c696c7900000000),
        spelled(0x6c696e64656e0000),
        spelled(0x6c697a6172640000),
        spelled(0x6c6c616d61000000),
        spelled(0x6c6f747573000000),
        spelled(0x6c796e7800000000),
        spelled(0x6d61676e65740000),
{
}

/// The words 128 to 255 of the mobile list are spelled.
pub proof fn lemma_mobile_spelled_01()
    by (bit_vector)
    ensures
        spelled(0x6d61677069650000),
        spelled(0x6d616c6c6f770000),
        spelled(0x6d616e676f000000),
        spelled(0x6d61706c65000000),
        spelled(0x6d6172626c650000),
        spelled(0x6d61727368000000),
        spelled(0x6d6561646f770000),
        spelled(0x6d656c6f6e000000),
        spelled(0x6d65736100000000),
        spelled(0x6d696e7400000000),
        spelled(0x6d69737479000000),
        spelled(0x6d6f6c6500000000),
        spelled(0x6d6f6e736f6f6e00),
        spelled(0x6d6f6f7365000000),
        spelled(0x6d6f737300000000),
        spelled(0x6d6f746800000000),
        spelled(0x6d756c6265727279),
        spelled(0x6d7972746c650000),
        spelled(0x6e65637461720000),
        spelled(0x6e6574746c650000),
        spelled(0x6e65777400000000),
        spelled(0x6e75746d65670000),
        spelled(0x6f616b0000000000),
        spelled(0x6f61736973000000),
        spelled(0x6f6365616e000000),
        spelled(0x6f63656c6f740000),
        spelled(0x6f6c697665000000),
        spelled(0x6f6e797800000000),
        spelled(0x6f70616c00000000),
        spelled(0x6f72636869640000),
        spelled(0x6f72696f6c650000),
        spelled(0x6f73707265790000),
        spelled(0x6f74746572000000),
        spelled(0x6f776c0000000000),
        spelled(0x6f79737465720000),
        spelled(0x70616c6d00000000),
        spelled(0x70616e6461000000),
        spelled(0x70616e7379000000),
        spelled(0x7061706179610000),
        spelled(0x706172726f740000),
        spelled(0x706562626c650000),
        spelled(0x706563616e000000),
        spelled(0x70656c6963616e00),
        spelled(0x70656f6e79000000),
        spelled(0x7065707065720000),
        spelled(0x706574616c000000),
        spelled(0x7065777465720000),
        spelled(0x706967656f6e0000),
        spelled(0x70696e6500000000),
        spelled(0x706c6f7665720000),
        spelled(0x706c756d00000000),
        spelled(0x706f6c6c656e0000),
        spelled(0x706f6e6400000000),
        spelled(0x706f706c61720000),
        spelled(0x706f707079000000),
        spelled(0x7072616972696500),
        spelled(0x70756666696e0000),
        spelled(0x70756d6100000000),
        spelled(0x717561696c000000),
        spelled(0x71756172747a0000),
        spelled(0x7175696c6c000000),
        spelled(0x7175696e63650000),
        spelled(0x7261626269740000),
        spelled(0x726163636f6f6e00),
        spelled(0x7261646973680000),
        spelled(0x7261696e00000000),
        spelled(0x726176656e000000),
        spelled(0x7265656400000000),
        spelled(0x7265656600000000),
        spelled(0x7269646765000000),
        spelled(0x7269766572000000),
        spelled(0x726f62696e000000),
        spelled(0x726f736500000000),
        spelled(0x726f77616e000000),
        spelled(0x7275627900000000),
        spelled(0x73616666726f6e00),
        spelled(0x7361676500000000),
        spelled(0x73616c6d6f6e0000),
        spelled(0x7361706c696e6700),
        spelled(0x7361707068697265),
        spelled(0x7365616c00000000),
        spelled(0x736571756f696100),
        spelled(0x7368616c65000000),
        spelled(0x7368656c6c000000),
        spelled(0x73686f7265000000),
        spelled(0x7368726577000000),
        spelled(0x73696c7665720000),
        spelled(0x736c617465000000),
        spelled(0x736e61696c000000),
        spelled(0x736f7272656c0000),
        spelled(0x73706172726f7700),
        spelled(0x7370727563650000),
        spelled(0x7371756964000000),
        spelled(0x737461726c696e67),
        spelled(0x73746f6174000000),
        spelled(0x73746f6e65000000),
        spelled(0x73746f726b000000),
        spelled(0x73756d6d69740000),
        spelled(0x73756e7365740000),
        spelled(0x7377616c6c6f7700),
        spelled(0x7377616e00000000),
        spelled(0x74616c6c6f770000),
        spelled(0x74616d6172696e64),
        spelled(0x74616e7379000000),
        spelled(0x7461706972000000),
        spelled(0x7465616b00000000),
        spelled(0x7465726e00000000),
        spelled(0x74686973746c6500),
        spelled(0x74686f726e000000),
        spelled(0x7468727573680000),
        spelled(0x7468796d65000000),
        spelled(0x7469676572000000),
        spelled(0x74696d6265720000),
        spelled(0x746f616400000000),
        spelled(0x746f70617a000000),
        spelled(0x746f7563616e0000),
        spelled(0x74726f7574000000),
        spelled(0x74756c6970000000),
        spelled(0x74756e6472610000),
        spelled(0x747572746c650000),
        spelled(0x76616c6c65790000),
        spelled(0x76656c7665740000),
        spelled(0x76696f6c61000000),
        spelled(0x76696f6c65740000),
        spelled(0x77616c6e75740000),
        spelled(0x77616c7275730000),
        spelled(0x776172626c657200),
        spelled(0x7761737000000000),
{
}

} // verus!
