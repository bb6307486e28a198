//! A verified hex codec: bytes to lowercase hex text and back.
//!
//! Decoding accepts both lowercase and uppercase digits and reports the
//! first offending position; a multi-line variant ignores newlines so a
//! byte string can be pasted as several lines.

use vstd::prelude::*;

verus! {

/// Why a hex string failed to decode.
#[derive(Clone, Copy, PartialEq, Eq, Structural, Debug)]
pub enum HexError {
    /// The input held an odd number of digits.
    OddLength,
    /// The character at `index` is not a hex digit.
    InvalidChar { index: usize },
}

impl HexError {
    /// The status text shown to the user for a rejected hex string.
    pub fn message(&self) -> (r: &'static str)
        ensures
            r@ == "Invalid hex string"@,
    {
        "Invalid hex string"
    }
}

pub open spec fn is_hex_digit(c: char) -> bool {
    ||| '0' as u32 <= c as u32 && c as u32 <= '9' as u32
    ||| 'a' as u32 <= c as u32 && c as u32 <= 'f' as u32
    ||| 'A' as u32 <= c as u32 && c as u32 <= 'F' as u32
}

/// The value of one hex digit; 0 on a character that is none.
pub open spec fn hex_digit_val(c: char) -> u8 {
    if '0' as u32 <= c as u32 && c as u32 <= '9' as u32 {
        (c as u32 - '0' as u32) as u8
    } else if 'a' as u32 <= c as u32 && c as u32 <= 'f' as u32 {
        (c as u32 - 'a' as u32 + 10) as u8
    } else if 'A' as u32 <= c as u32 && c as u32 <= 'F' as u32 {
        (c as u32 - 'A' as u32 + 10) as u8
    } else {
        0
    }
}

/// A hex string decodes iff its length is even and every character is a digit.
pub open spec fn hex_ok(s: Seq<char>) -> bool {
    &&& s.len() % 2 == 0
    &&& forall|i: int| 0 <= i < s.len() ==> is_hex_digit(s[i])
}

/// The byte written as the digit pair `hi`, `lo`.
pub open spec fn hex_byte(hi: char, lo: char) -> u8 {
    (hex_digit_val(hi) * 16 + hex_digit_val(lo)) as u8
}

/// The bytes a hex string stands for, one per digit pair.
pub open spec fn hex_decoded(s: Seq<char>) -> Seq<u8> {
    Seq::new((s.len() / 2) as nat, |i: int| hex_byte(s[2 * i], s[2 * i + 1]))
}

/// The lowercase digit for a value below 16.
pub open spec fn hex_digit_char(v: u8) -> char {
    if v < 10 {
        (('0' as u8) + v) as char
    } else {
        (('a' as u8) + (v - 10)) as char
    }
}

/// The lowercase hex spelling of a byte string: two digits per byte.
pub open spec fn hex_encoded(b: Seq<u8>) -> Seq<char> {
    Seq::new(
        2 * b.len(),
        |i: int| if i % 2 == 0 {
            hex_digit_char(b[i / 2] / 16)
        } else {
            hex_digit_char(b[i / 2] % 16)
        },
    )
}

/// When decoding `s` fails with `e`: an odd digit count, or the first
/// character that is no hex digit.
pub open spec fn hex_error_for(s: Seq<char>, e: HexError) -> bool {
    match e {
        HexError::OddLength => s.len() % 2 != 0,
        HexError::InvalidChar { index } => {
            &&& s.len() % 2 == 0
            &&& index < s.len()
            &&& !is_hex_digit(s[index as int])
            &&& forall|j: int| 0 <= j < index ==> is_hex_digit(s[j])
        },
    }
}

pub open spec fn keep_in_hex_input(c: char) -> bool {
    c != '\n'
}

/// The input with every newline removed, as the multi-line decoder sees it.
pub open spec fn without_newlines(s: Seq<char>) -> Seq<char> {
    s.filter(|c: char| keep_in_hex_input(c))
}

/// The value of one hex digit, or `None` on any other character.
fn hex_digit_value(c: char) -> (r: Option<u8>)
    ensures
        r is Some <==> is_hex_digit(c),
        r matches Some(v) ==> v == hex_digit_val(c) && v < 16,
{
    let u = c as u32;
    if '0' as u32 <= u && u <= '9' as u32 {
        Some((u - '0' as u32) as u8)
    } else if 'a' as u32 <= u && u <= 'f' as u32 {
        Some((u - 'a' as u32 + 10) as u8)
    } else if 'A' as u32 <= u && u <= 'F' as u32 {
        Some((u - 'A' as u32 + 10) as u8)
    } else {
        None
    }
}

/// The characters of `s`, in order, as a vector.
fn str_chars(s: &str) -> (r: Vec<char>)
    ensures
        r@ == s@,
{
    let n = s.unicode_len();
    let mut r: Vec<char> = Vec::new();
    let mut i: usize = 0;
    while i < n
        invariant
            n == s@.len(),
            i <= n,
            r@ == s@.take(i as int),
        decreases n - i,
    {
        let c = s.get_char(i);
        r.push(c);
        proof {
            assert(s@.take(i + 1 as int) =~= s@.take(i as int).push(c));
        }
        i = i + 1;
    }
    proof {
        assert(s@.take(n as int) =~= s@);
    }
    r
}

/// `chars` with every newline removed.
fn strip_newlines(chars: &Vec<char>) -> (r: Vec<char>)
    ensures
        r@ == without_newlines(chars@),
{
    let mut r: Vec<char> = Vec::new();
    let mut i: usize = 0;
    while i < chars.len()
        invariant
            i <= chars@.len(),
            r@ == without_newlines(chars@.take(i as int)),
        decreases chars@.len() - i,
    {
        let c = chars[i];
        proof {
            reveal(Seq::filter);
            assert(chars@.take(i + 1 as int).drop_last() =~= chars@.take(i as int));
            assert(chars@.take(i + 1 as int).last() == c);
        }
        if c != '\n' {
            r.push(c);
        }
        i = i + 1;
    }
    proof {
        assert(chars@.take(chars@.len() as int) =~= chars@);
    }
    r
}

/// Decode a sequence of hex digits into the bytes it stands for.
pub fn decode_chars(chars: &Vec<char>) -> (r: Result<Vec<u8>, HexError>)
    ensures
        match r {
            Ok(bytes) => hex_ok(chars@) && bytes@ == hex_decoded(chars@),
            Err(e) => hex_error_for(chars@, e),
        },
{
    let n = chars.len();
    if n % 2 != 0 {
        return Err(HexError::OddLength);
    }
    let mut out: Vec<u8> = Vec::new();
    let mut i: usize = 0;
    while i < n
        invariant
            n == chars@.len(),
            n % 2 == 0,
            i % 2 == 0,
            i <= n,
            forall|j: int| 0 <= j < i ==> is_hex_digit(chars@[j]),
            out@ == hex_decoded(chars@.take(i as int)),
        decreases n - i,
    {
        let hi = chars[i];
        let lo = chars[i + 1];
        let h = match hex_digit_value(hi) {
            Some(v) => v,
            None => {
                return Err(HexError::InvalidChar { index: i });
            },
        };
        let l = match hex_digit_value(lo) {
            Some(v) => v,
            None => {
                return Err(HexError::InvalidChar { index: i + 1 });
            },
        };
        out.push(h * 16 + l);
        proof {
            assert(out@ =~= hex_decoded(chars@.take(i + 2 as int))) by {
                assert(hex_decoded(chars@.take(i + 2 as int)) =~= hex_decoded(
                    chars@.take(i as int),
                ).push(hex_byte(hi, lo)));
            }
        }
        i = i + 2;
    }
    proof {
        assert(chars@.take(n as int) =~= chars@);
    }
    Ok(out)
}

/// Decode a hex string into the bytes it stands for.
pub fn decode_hex(s: &str) -> (r: Result<Vec<u8>, HexError>)
    ensures
        match r {
            Ok(bytes) => hex_ok(s@) && bytes@ == hex_decoded(s@),
            Err(e) => hex_error_for(s@, e),
        },
{
    let chars = str_chars(s);
    decode_chars(&chars)
}

/// Decode a hex string that may be spread over several lines: newlines are
/// dropped before the digits are read.
pub fn decode_hex_multiline(s: &str) -> (r: Result<Vec<u8>, HexError>)
    ensures
        match r {
            Ok(bytes) => hex_ok(without_newlines(s@)) && bytes@ == hex_decoded(
                without_newlines(s@),
            ),
            Err(e) => hex_error_for(without_newlines(s@), e),
        },
{
    let chars = str_chars(s);
    let stripped = strip_newlines(&chars);
    decode_chars(&stripped)
}

/// The lowercase digit for a value below 16, as a one-character string.
fn hex_digit_str(v: u8) -> (r: &'static str)
    requires
        v < 16,
    ensures
        r@.len() == 1,
        r@[0] == hex_digit_char(v),
{
    proof {
        reveal_strlit("0");
        reveal_strlit("1");
        reveal_strlit("2");
        reveal_strlit("3");
        reveal_strlit("4");
        reveal_strlit("5");
        reveal_strlit("6");
        reveal_strlit("7");
        reveal_strlit("8");
        reveal_strlit("9");
        reveal_strlit("a");
        reveal_strlit("b");
        reveal_strlit("c");
        reveal_strlit("d");
        reveal_strlit("e");
        reveal_strlit("f");
    }
    if v == 0 {
        "0"
    } else if v == 1 {
        "1"
    } else if v == 2 {
        "2"
    } else if v == 3 {
        "3"
    } else if v == 4 {
        "4"
    } else if v == 5 {
        "5"
    } else if v == 6 {
        "6"
    } else if v == 7 {
        "7"
    } else if v == 8 {
        "8"
    } else if v == 9 {
        "9"
    } else if v == 10 {
        "a"
    } else if v == 11 {
        "b"
    } else if v == 12 {
        "c"
    } else if v == 13 {
        "d"
    } else if v == 14 {
        "e"
    } else {
        "f"
    }
}

/// Encode bytes as lowercase hex, two digits per byte.
pub fn encode_hex(bytes: &[u8]) -> (r: String)
    ensures
        r@ == hex_encoded(bytes@),
{
    let mut out = String::new();
    let mut i: usize = 0;
    while i < bytes.len()
        invariant
            i <= bytes@.len(),
            out@ == hex_encoded(bytes@.take(i as int)),
        decreases bytes@.len() - i,
    {
        let b = bytes[i];
        let hi = hex_digit_str(b / 16);
        let lo = hex_digit_str(b % 16);
        out.append(hi);
        out.append(lo);
        proof {
            assert(out@ =~= hex_encoded(bytes@.take(i + 1 as int)));
        }
        i = i + 1;
    }
    proof {
        assert(bytes@.take(bytes@.len() as int) =~= bytes@);
    }
    out
}

/// Encoding then decoding gives the bytes back: the encoder writes only
/// valid digit pairs and the decoder reads each pair to the byte it spells.
pub proof fn lemma_hex_round_trip(b: Seq<u8>)
    ensures
        hex_ok(hex_encoded(b)),
        hex_decoded(hex_encoded(b)) == b,
{
    assert forall|i: int| 0 <= i < hex_encoded(b).len() implies is_hex_digit(
        hex_encoded(b)[i],
    ) by {
        assert(hex_digit_val(hex_digit_char((b[i / 2] / 16) as u8)) == b[i / 2] / 16);
        assert(hex_digit_val(hex_digit_char((b[i / 2] % 16) as u8)) == b[i / 2] % 16);
    }
    assert(hex_decoded(hex_encoded(b)) =~= b);
}

/// A hex string in canonical form: it decodes, and spells every digit in
/// lowercase, as the encoder does.
pub open spec fn is_canonical_hex(s: Seq<char>) -> bool {
    &&& hex_ok(s)
    &&& forall|i: int|
        0 <= i < s.len() ==> !('A' as u32 <= #[trigger] s[i] as u32 && s[i] as u32 <= 'F' as u32)
}

/// Decoding then encoding gives a canonical hex string back unchanged.
pub proof fn lemma_hex_canonical_round_trip(s: Seq<char>)
    requires
        is_canonical_hex(s),
    ensures
        hex_encoded(hex_decoded(s)) == s,
{
    assert forall|i: int| 0 <= i < s.len() implies hex_encoded(hex_decoded(s))[i] == s[i] by {
        let hi = s[2 * (i / 2)];
        let lo = s[2 * (i / 2) + 1];
        assert(is_hex_digit(hi) && is_hex_digit(lo));
        assert(hex_byte(hi, lo) / 16 == hex_digit_val(hi));
        assert(hex_byte(hi, lo) % 16 == hex_digit_val(lo));
        let chi = hex_digit_char(hex_digit_val(hi));
        let clo = hex_digit_char(hex_digit_val(lo));
        assert(chi as u32 == hi as u32);
        assert(clo as u32 == lo as u32);
        vstd::utf8::char_u32_cast(hi, hi as u32);
        vstd::utf8::char_u32_cast(chi, chi as u32);
        vstd::utf8::char_u32_cast(lo, lo as u32);
        vstd::utf8::char_u32_cast(clo, clo as u32);
    }
    assert(hex_encoded(hex_decoded(s)) =~= s);
}

} // verus!
