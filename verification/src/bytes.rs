//! Bytes as text: UTF-8, and base64 in the alphabet for URLs.
use vstd::prelude::*;
use vstd::utf8::{
    decode_utf8, encode_utf8, encode_utf8_decode_utf8, encode_utf8_valid_utf8, valid_utf8,
};

verus! {

// ---------------------------------------------------------------------------------------------
// UTF-8
// ---------------------------------------------------------------------------------------------
/// The text that `String::from_utf8_lossy` makes of bytes.
pub uninterp spec fn lossy_text(bytes: Seq<u8>) -> Seq<char>;

/// The text of bytes (`String::from_utf8_lossy`). Valid UTF-8 is decoded; what replaces the bytes
/// that are not valid is not stated.
#[verifier::external_body]
fn read_lossy(bytes: &[u8]) -> (r: String)
    ensures
        r@ == lossy_text(bytes@),
        valid_utf8(bytes@) ==> r@ == decode_utf8(bytes@),
{
    String::from_utf8_lossy(bytes).into_owned()
}

/// The text of bytes: what they encode, where they are valid UTF-8.
pub open spec fn text_in(bytes: Seq<u8>) -> Seq<char> {
    if valid_utf8(bytes) {
        decode_utf8(bytes)
    } else {
        lossy_text(bytes)
    }
}

/// The text of bytes.
pub fn text_of_bytes(bytes: &Vec<u8>) -> (r: String)
    ensures
        r@ == text_in(bytes@),
{
    read_lossy(bytes.as_slice())
}

/// The text of bytes (`std::str::from_utf8`), which there is where they are valid UTF-8.
#[verifier::external_body]
fn read_utf8(bytes: &[u8]) -> (r: Option<String>)
    ensures
        r is Some <==> valid_utf8(bytes@),
        r matches Some(text) ==> text@ == decode_utf8(bytes@),
{
    match std::str::from_utf8(bytes) {
        Ok(text) => Some(text.to_owned()),
        Err(_) => None,
    }
}

/// The text of bytes, where they are valid UTF-8.
pub fn valid_text(bytes: &Vec<u8>) -> (r: Option<String>)
    ensures
        r is Some <==> valid_utf8(bytes@),
        r matches Some(text) ==> text@ == decode_utf8(bytes@),
{
    read_utf8(bytes.as_slice())
}

/// The bytes of a text.
pub fn bytes_of_text(text: &str) -> (r: Vec<u8>)
    ensures
        r@ == encode_utf8(text@),
{
    text.as_bytes_vec()
}

/// The text of the bytes of a text is that text.
pub proof fn lemma_text_survives_bytes(text: Seq<char>)
    ensures
        valid_utf8(encode_utf8(text)),
        text_in(encode_utf8(text)) == text,
{
    encode_utf8_valid_utf8(text);
    encode_utf8_decode_utf8(text);
}

// ---------------------------------------------------------------------------------------------
// Base64
// ---------------------------------------------------------------------------------------------
/// The character of a number below 64.
pub open spec fn base64_char(n: int) -> char {
    if n < 26 {
        ('A' as u32 + n) as char
    } else if n < 52 {
        ('a' as u32 + n - 26) as char
    } else if n < 62 {
        ('0' as u32 + n - 52) as char
    } else if n == 62 {
        '-'
    } else {
        '_'
    }
}

/// Bytes in base64: each three bytes as four characters of six bits each, and `=` in the place of
/// the characters that one or two bytes at the end do not fill.
pub open spec fn base64_text(bytes: Seq<u8>) -> Seq<char>
    decreases bytes.len(),
{
    if bytes.len() == 0 {
        Seq::empty()
    } else if bytes.len() == 1 {
        let a = bytes[0] as int;
        seq![base64_char(a / 4), base64_char(a % 4 * 16), '=', '=']
    } else if bytes.len() == 2 {
        let (a, b) = (bytes[0] as int, bytes[1] as int);
        seq![base64_char(a / 4), base64_char(a % 4 * 16 + b / 16), base64_char(b % 16 * 4), '=']
    } else {
        let (a, b, c) = (bytes[0] as int, bytes[1] as int, bytes[2] as int);
        seq![
            base64_char(a / 4),
            base64_char(a % 4 * 16 + b / 16),
            base64_char(b % 16 * 4 + c / 64),
            base64_char(c % 64),
        ] + base64_text(bytes.skip(3))
    }
}

/// The number that a character stands for.
pub open spec fn base64_value(c: char) -> Option<int> {
    if 'A' <= c <= 'Z' {
        Some(c as u32 - 'A' as u32)
    } else if 'a' <= c <= 'z' {
        Some(c as u32 - 'a' as u32 + 26)
    } else if '0' <= c <= '9' {
        Some(c as u32 - '0' as u32 + 52)
    } else if c == '-' {
        Some(62)
    } else if c == '_' {
        Some(63)
    } else {
        None
    }
}

/// The bytes that four characters stand for.
pub open spec fn base64_group(group: Seq<char>) -> Option<Seq<u8>> {
    match (
        base64_value(group[0]),
        base64_value(group[1]),
        base64_value(group[2]),
        base64_value(group[3]),
    ) {
        (Some(a), Some(b), Some(c), Some(d)) => Some(
            seq![(a * 4 + b / 16) as u8, (b % 16 * 16 + c / 4) as u8, (c % 4 * 64 + d) as u8],
        ),
        (Some(a), Some(b), Some(c), None) => if group[3] == '=' {
            Some(seq![(a * 4 + b / 16) as u8, (b % 16 * 16 + c / 4) as u8])
        } else {
            None
        },
        (Some(a), Some(b), None, None) => if group[2] == '=' && group[3] == '=' {
            Some(seq![(a * 4 + b / 16) as u8])
        } else {
            None
        },
        _ => None,
    }
}

/// The bytes that a text in base64 stands for.
pub open spec fn base64_bytes(text: Seq<char>) -> Option<Seq<u8>>
    decreases text.len(),
{
    if text.len() == 0 {
        Some(Seq::empty())
    } else if text.len() < 4 {
        None
    } else {
        match (base64_group(text.take(4)), base64_bytes(text.skip(4))) {
            (Some(first), Some(rest)) => Some(first + rest),
            _ => None,
        }
    }
}

proof fn lemma_base64_value(n: int)
    requires
        0 <= n < 64,
    ensures
        base64_value(base64_char(n)) == Some(n),
        base64_char(n) != '=',
{
}

/// Base64 loses nothing: decoding what was encoded gives the bytes back.
pub proof fn lemma_base64_round_trip(bytes: Seq<u8>)
    ensures
        base64_bytes(base64_text(bytes)) == Some(bytes),
    decreases bytes.len(),
{
    let text = base64_text(bytes);
    if bytes.len() > 0 {
        let a = bytes[0] as int;
        lemma_base64_value(a / 4);
        if bytes.len() == 1 {
            lemma_base64_value(a % 4 * 16);
            assert(text.take(4) == text);
            assert(text.skip(4) == Seq::<char>::empty());
            assert(base64_group(text) == Some(bytes)) by {
                assert(base64_group(text)->0 =~= bytes);
            }
            assert(bytes + Seq::<u8>::empty() == bytes);
            reveal_with_fuel(base64_bytes, 2);
        } else if bytes.len() == 2 {
            let b = bytes[1] as int;
            lemma_base64_value(a % 4 * 16 + b / 16);
            lemma_base64_value(b % 16 * 4);
            assert(text.take(4) == text);
            assert(text.skip(4) == Seq::<char>::empty());
            assert(base64_group(text) == Some(bytes)) by {
                assert(base64_group(text)->0 =~= bytes);
            }
            assert(bytes + Seq::<u8>::empty() == bytes);
            reveal_with_fuel(base64_bytes, 2);
        } else {
            let (b, c) = (bytes[1] as int, bytes[2] as int);
            lemma_base64_value(a % 4 * 16 + b / 16);
            lemma_base64_value(b % 16 * 4 + c / 64);
            lemma_base64_value(c % 64);
            lemma_base64_round_trip(bytes.skip(3));
            assert(text.skip(4) == base64_text(bytes.skip(3)));
            assert(base64_group(text.take(4))->0 =~= bytes.take(3));
            assert(bytes.take(3) + bytes.skip(3) == bytes);
        }
    }
}

/// Encodes bytes with the engine `URL_SAFE` of the crate `base64`: its alphabet for URLs, with
/// padding. The encoder needs the length of its result to fit in memory.
#[verifier::external_body]
fn encode_url_safe(bytes: &[u8]) -> (r: String)
    requires
        (bytes@.len() + 2) / 3 * 4 <= isize::MAX,
    ensures
        r@ == base64_text(bytes@),
{
    base64::Engine::encode(&base64::engine::general_purpose::URL_SAFE, bytes)
}

/// The data of a server-sent event that carries an encoded message: its bytes in base64.
pub fn warp_sse_data(message: &Vec<u8>) -> (r: String)
    requires
        (message@.len() + 2) / 3 * 4 <= isize::MAX,
    ensures
        r@ == base64_text(message@),
{
    encode_url_safe(message.as_slice())
}

/// The alphabet: the capital letters stand for the first numbers, then the small letters, then the
/// digits, then the hyphen and the low line.
pub proof fn lemma_alphabet(n: int)
    requires
        0 <= n < 64,
    ensures
        n < 26 ==> (base64_char(n) as u32) as int == 65 + n,
        26 <= n < 52 ==> (base64_char(n) as u32) as int == 97 + (n - 26),
        52 <= n < 62 ==> (base64_char(n) as u32) as int == 48 + (n - 52),
        n == 62 ==> base64_char(n) == '-',
        n == 63 ==> base64_char(n) == '_',
{
}

/// Three bytes are written as four characters, whose numbers are the four parts of six bits; what
/// is missing to three bytes is written as signs of equality.
pub proof fn lemma_how_bytes_are_written(
    a: u8,
    b: u8,
    c: u8,
    rest: Seq<u8>,
    w: int,
    x: int,
    y: int,
    z: int,
)
    requires
        0 <= w < 64 && 0 <= x < 64 && 0 <= y < 64 && 0 <= z < 64,
    ensures
        a as int * 65536 + b as int * 256 + c as int == w * 262144 + x * 4096 + y * 64 + z
            ==> base64_text(seq![a, b, c] + rest) == seq![
            base64_char(w),
            base64_char(x),
            base64_char(y),
            base64_char(z),
        ] + base64_text(rest),
        a as int * 65536 + b as int * 256 == w * 262144 + x * 4096 + y * 64 ==> base64_text(
            seq![a, b],
        ) == seq![base64_char(w), base64_char(x), base64_char(y), '='],
        a as int * 65536 == w * 262144 + x * 4096 ==> base64_text(seq![a]) == seq![
            base64_char(w),
            base64_char(x),
            '=',
            '=',
        ],
        base64_text(Seq::empty()).len() == 0,
{
    let all = seq![a, b, c] + rest;
    assert(all.skip(3) =~= rest);
    assert(all[0] == a && all[1] == b && all[2] == c);
}

} // verus!
