//! Words of up to eight lower-case letters held as 64-bit codes.
//!
//! The code of a word holds its letters as bytes, the first letter in the
//! highest byte, and zero bytes after the last letter. Codes therefore sort
//! as the words do.

use vstd::prelude::*;
use vstd::string::*;

verus! {

/// The weight of the byte at position `k` of a code, position 0 being the
/// highest byte.
pub open spec fn place(k: int) -> int {
    if k == 0 {
        0x0100_0000_0000_0000
    } else if k == 1 {
        0x0001_0000_0000_0000
    } else if k == 2 {
        0x0000_0100_0000_0000
    } else if k == 3 {
        0x0000_0001_0000_0000
    } else if k == 4 {
        0x0000_0000_0100_0000
    } else if k == 5 {
        0x0000_0000_0001_0000
    } else if k == 6 {
        0x0000_0000_0000_0100
    } else {
        1
    }
}

/// The byte at position `k` of a code.
pub open spec fn code_byte(c: u64, k: int) -> u8 {
    ((c as int / place(k)) % 256) as u8
}

/// The number of bytes of a code before its first zero byte.
pub open spec fn code_len(c: u64) -> int {
    if code_byte(c, 0) == 0 {
        0
    } else if code_byte(c, 1) == 0 {
        1
    } else if code_byte(c, 2) == 0 {
        2
    } else if code_byte(c, 3) == 0 {
        3
    } else if code_byte(c, 4) == 0 {
        4
    } else if code_byte(c, 5) == 0 {
        5
    } else if code_byte(c, 6) == 0 {
        6
    } else if code_byte(c, 7) == 0 {
        7
    } else {
        8
    }
}

/// Whether `b` is the ASCII code of a lower-case letter.
pub open spec fn is_lower(b: u8) -> bool {
    97 <= b <= 122
}

/// Whether the byte at position `k` of `c` is a letter where the word has
/// one, and zero after the word's end.
pub open spec fn byte_fits(c: u64, k: int) -> bool {
    if k < code_len(c) {
        is_lower(code_byte(c, k))
    } else {
        code_byte(c, k) == 0
    }
}

/// Whether `c` is the code of a word: one to eight lower-case letters, then
/// zero bytes only.
#[verifier::opaque]
pub open spec fn is_word_code(c: u64) -> bool {
    &&& 1 <= code_len(c)
    &&& byte_fits(c, 0)
    &&& byte_fits(c, 1)
    &&& byte_fits(c, 2)
    &&& byte_fits(c, 3)
    &&& byte_fits(c, 4)
    &&& byte_fits(c, 5)
    &&& byte_fits(c, 6)
    &&& byte_fits(c, 7)
}

/// The bytes of a code, taken by shifting and masking, are those taken by
/// dividing.
pub proof fn lemma_shifted_bytes(c: u64)
    by (bit_vector)
    ensures
        (c >> 56) & 0xff == (c / 0x0100_0000_0000_0000) % 256,
        (c >> 48) & 0xff == (c / 0x0001_0000_0000_0000) % 256,
        (c >> 40) & 0xff == (c / 0x0000_0100_0000_0000) % 256,
        (c >> 32) & 0xff == (c / 0x0000_0001_0000_0000) % 256,
        (c >> 24) & 0xff == (c / 0x0000_0000_0100_0000) % 256,
        (c >> 16) & 0xff == (c / 0x0000_0000_0001_0000) % 256,
        (c >> 8) & 0xff == (c / 0x0000_0000_0000_0100) % 256,
        c & 0xff == (c / 1) % 256,
{
}

/// The text that a code stands for.
pub open spec fn code_text(c: u64) -> Seq<char> {
    Seq::new(code_len(c) as nat, |k: int| code_byte(c, k) as char)
}

/// Whether `s` can be held as a code: one to eight lower-case letters.
pub open spec fn is_word_text(s: Seq<char>) -> bool {
    &&& 1 <= s.len() <= 8
    &&& forall|k: int| 0 <= k < s.len() ==> 'a' <= #[trigger] s[k] <= 'z'
}

/// The sum of the first `m` letters of `s`, each at its place.
pub open spec fn packed(s: Seq<char>, m: int) -> int
    decreases m,
{
    if m <= 0 {
        0
    } else {
        packed(s, m - 1) + (s[m - 1] as u8 as int) * place(m - 1)
    }
}

/// The code of the text `s`, where it has one.
pub open spec fn text_code(s: Seq<char>) -> Option<u64> {
    if is_word_text(s) {
        Some(packed(s, s.len() as int) as u64)
    } else {
        None
    }
}

/// The bytes of a code put together from eight bytes are those bytes.
proof fn lemma_compose(b0: u8, b1: u8, b2: u8, b3: u8, b4: u8, b5: u8, b6: u8, b7: u8, c: u64)
    by (bit_vector)
    requires
        c == (b0 as u64) * 0x0100_0000_0000_0000 + (b1 as u64) * 0x0001_0000_0000_0000 + (b2 as u64)
            * 0x0000_0100_0000_0000 + (b3 as u64) * 0x0000_0001_0000_0000 + (b4 as u64)
            * 0x0000_0000_0100_0000 + (b5 as u64) * 0x0000_0000_0001_0000 + (b6 as u64)
            * 0x0000_0000_0000_0100 + (b7 as u64),
    ensures
        (c / 0x0100_0000_0000_0000) % 256 == b0,
        (c / 0x0001_0000_0000_0000) % 256 == b1,
        (c / 0x0000_0100_0000_0000) % 256 == b2,
        (c / 0x0000_0001_0000_0000) % 256 == b3,
        (c / 0x0000_0000_0100_0000) % 256 == b4,
        (c / 0x0000_0000_0001_0000) % 256 == b5,
        (c / 0x0000_0000_0000_0100) % 256 == b6,
        (c / 1) % 256 == b7,
{
}

/// A code is its eight bytes, each at its place.
proof fn lemma_decompose(c: u64)
    by (bit_vector)
    ensures
        c == ((c / 0x0100_0000_0000_0000) % 256) * 0x0100_0000_0000_0000 + ((c
            / 0x0001_0000_0000_0000) % 256) * 0x0001_0000_0000_0000 + ((c / 0x0000_0100_0000_0000)
            % 256) * 0x0000_0100_0000_0000 + ((c / 0x0000_0001_0000_0000) % 256)
            * 0x0000_0001_0000_0000 + ((c / 0x0000_0000_0100_0000) % 256) * 0x0000_0000_0100_0000
            + ((c / 0x0000_0000_0001_0000) % 256) * 0x0000_0000_0001_0000 + ((c
            / 0x0000_0000_0000_0100) % 256) * 0x0000_0000_0000_0100 + ((c / 1) % 256),
{
}

/// The letter `k` of a text as a byte, and 0 behind its end.
spec fn letter_or_zero(s: Seq<char>, k: int) -> u8 {
    if k < s.len() {
        s[k] as u8
    } else {
        0u8
    }
}

/// A text that has a code is the text of that code.
pub proof fn lemma_text_of_code(s: Seq<char>)
    requires
        is_word_text(s),
    ensures
        text_code(s) matches Some(c) && is_word_code(c) && code_text(c) == s,
{
    let n = s.len() as int;
    reveal_with_fuel(packed, 9);
    reveal(is_word_code);
    let v = packed(s, n);
    assert forall|k: int| 0 <= k < n implies 97 <= #[trigger] (s[k] as u8) <= 122 && s[k] as u8
        as char == s[k] by {
        assert('a' <= s[k] <= 'z');
    }
    let b0 = letter_or_zero(s, 0);
    let b1 = letter_or_zero(s, 1);
    let b2 = letter_or_zero(s, 2);
    let b3 = letter_or_zero(s, 3);
    let b4 = letter_or_zero(s, 4);
    let b5 = letter_or_zero(s, 5);
    let b6 = letter_or_zero(s, 6);
    let b7 = letter_or_zero(s, 7);
    assert(v == b0 * place(0) + b1 * place(1) + b2 * place(2) + b3 * place(3) + b4 * place(4)
        + b5 * place(5) + b6 * place(6) + b7 * place(7));
    assert(0 <= v < 0x1_0000_0000_0000_0000);
    let c = v as u64;
    lemma_compose(b0, b1, b2, b3, b4, b5, b6, b7, c);
    assert(code_byte(c, 0) == b0);
    assert(code_byte(c, 1) == b1);
    assert(code_byte(c, 2) == b2);
    assert(code_byte(c, 3) == b3);
    assert(code_byte(c, 4) == b4);
    assert(code_byte(c, 5) == b5);
    assert(code_byte(c, 6) == b6);
    assert(code_byte(c, 7) == b7);
    assert(code_len(c) == n);
    assert(code_text(c) =~= s);
}

/// The text of a word code has that code.
pub proof fn lemma_code_of_text(c: u64)
    requires
        is_word_code(c),
    ensures
        is_word_text(code_text(c)),
        text_code(code_text(c)) == Some(c),
{
    let s = code_text(c);
    let n = code_len(c);
    reveal_with_fuel(packed, 9);
    reveal(is_word_code);
    assert forall|k: int| 0 <= k < s.len() implies 'a' <= #[trigger] s[k] <= 'z' && s[k] as u8
        == code_byte(c, k) by {
        assert(byte_fits(c, k));
    }
    lemma_decompose(c);
    assert(code_byte(c, 0) == letter_or_zero(s, 0));
    assert(code_byte(c, 1) == letter_or_zero(s, 1));
    assert(code_byte(c, 2) == letter_or_zero(s, 2));
    assert(code_byte(c, 3) == letter_or_zero(s, 3));
    assert(code_byte(c, 4) == letter_or_zero(s, 4));
    assert(code_byte(c, 5) == letter_or_zero(s, 5));
    assert(code_byte(c, 6) == letter_or_zero(s, 6));
    assert(code_byte(c, 7) == letter_or_zero(s, 7));
    assert(c as int == code_byte(c, 0) * place(0) + code_byte(c, 1) * place(1) + code_byte(c, 2)
        * place(2) + code_byte(c, 3) * place(3) + code_byte(c, 4) * place(4) + code_byte(c, 5)
        * place(5) + code_byte(c, 6) * place(6) + code_byte(c, 7) * place(7));
    assert(packed(s, n) == c as int);
}

/// The weight of the byte at position `k` of a code.
fn place_of(k: usize) -> (p: u64)
    requires
        k < 8,
    ensures
        p == place(k as int),
{
    if k == 0 {
        0x0100_0000_0000_0000
    } else if k == 1 {
        0x0001_0000_0000_0000
    } else if k == 2 {
        0x0000_0100_0000_0000
    } else if k == 3 {
        0x0000_0001_0000_0000
    } else if k == 4 {
        0x0000_0000_0100_0000
    } else if k == 5 {
        0x0000_0000_0001_0000
    } else if k == 6 {
        0x0000_0000_0000_0100
    } else {
        1
    }
}

/// The lower-case letter with the ASCII code `b`, as a string.
fn letter(b: u8) -> (s: &'static str)
    requires
        is_lower(b),
    ensures
        s@ == seq![b as char],
{
    proof {
        reveal_strlit("a");
        reveal_strlit("b");
        reveal_strlit("c");
        reveal_strlit("d");
        reveal_strlit("e");
        reveal_strlit("f");
        reveal_strlit("g");
        reveal_strlit("h");
        reveal_strlit("i");
        reveal_strlit("j");
        reveal_strlit("k");
        reveal_strlit("l");
        reveal_strlit("m");
        reveal_strlit("n");
        reveal_strlit("o");
        reveal_strlit("p");
        reveal_strlit("q");
        reveal_strlit("r");
        reveal_strlit("s");
        reveal_strlit("t");
        reveal_strlit("u");
        reveal_strlit("v");
        reveal_strlit("w");
        reveal_strlit("x");
        reveal_strlit("y");
        reveal_strlit("z");
    }
    let s = match b {
        97 => "a",
        98 => "b",
        99 => "c",
        100 => "d",
        101 => "e",
        102 => "f",
        103 => "g",
        104 => "h",
        105 => "i",
        106 => "j",
        107 => "k",
        108 => "l",
        109 => "m",
        110 => "n",
        111 => "o",
        112 => "p",
        113 => "q",
        114 => "r",
        115 => "s",
        116 => "t",
        117 => "u",
        118 => "v",
        119 => "w",
        120 => "x",
        121 => "y",
        _ => "z",
    };
    assert(s@ =~= seq![b as char]);
    s
}

/// Writes out the word that a code stands for.
pub fn word_of_code(c: u64) -> (w: String)
    requires
        is_word_code(c),
    ensures
        w@ == code_text(c),
{
    let mut w = String::new();
    let mut k: usize = 0;
    proof {
        reveal(is_word_code);
    }
    while k < 8
        invariant
            is_word_code(c),
            k <= 8,
            k <= code_len(c),
            w@ == Seq::new(k as nat, |j: int| code_byte(c, j) as char),
        ensures
            k == code_len(c),
        decreases 8 - k,
    {
        let b = ((c / place_of(k)) % 256) as u8;
        assert(b == code_byte(c, k as int));
        proof {
            reveal(is_word_code);
        }
        if b == 0 {
            assert(byte_fits(c, k as int));
            break ;
        }
        assert(byte_fits(c, k as int));
        w.append(letter(b));
        k = k + 1;
        assert(w@ =~= Seq::new(k as nat, |j: int| code_byte(c, j) as char));
    }
    w
}

/// What the letters from position `k` on can add to a code at most, plus
/// one.
spec fn room(k: int) -> int {
    if k >= 8 {
        1
    } else {
        256 * place(k)
    }
}

/// Reads a word as a code; `None` where it is not one to eight lower-case
/// letters.
pub fn code_of_word(w: &str) -> (r: Option<u64>)
    ensures
        r == text_code(w@),
{
    let n = w.unicode_len();
    if n == 0 || n > 8 {
        return None;
    }
    let mut acc: u64 = 0;
    let mut k: usize = 0;
    while k < n
        invariant
            n == w@.len(),
            1 <= n <= 8,
            k <= n,
            acc == packed(w@, k as int),
            acc + room(k as int) <= 0x1_0000_0000_0000_0000,
            forall|j: int| 0 <= j < k ==> 'a' <= #[trigger] w@[j] <= 'z',
        decreases n - k,
    {
        let ch = w.get_char(k);
        if ch < 'a' || ch > 'z' {
            return None;
        }
        let b = ch as u8;
        let p = place_of(k);
        assert(0 <= (b as int) * (p as int) <= 255 * (p as int)) by (nonlinear_arith)
            requires
                0 <= b <= 255,
                0 <= p,
        ;
        assert(room(k as int) == 256 * p && room(k as int + 1) == p);
        acc = acc + (b as u64) * p;
        k = k + 1;
    }
    Some(acc)
}

} // verus!
