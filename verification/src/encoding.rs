//! Base64 in the standard alphabet with padding, as beacon identifiers use it.

use base64::engine::general_purpose::STANDARD;
use base64::Engine;
use vstd::prelude::*;

verus! {

/// The character that stands for a six-bit value: `A` to `Z` for 0 to 25,
/// `a` to `z` for 26 to 51, `0` to `9` for 52 to 61, then `+` and `/`.
pub open spec fn alphabet_char(value: int) -> char {
    if value < 26 {
        (value + 65) as char
    } else if value < 52 {
        (value + 71) as char
    } else if value < 62 {
        (value - 4) as char
    } else if value == 62 {
        '+'
    } else {
        '/'
    }
}

/// The six-bit value that a character stands for, if it is in the alphabet.
pub open spec fn alphabet_value(c: char) -> Option<int> {
    let code = c as int;
    if 65 <= code <= 90 {
        Some(code - 65)
    } else if 97 <= code <= 122 {
        Some(code - 71)
    } else if 48 <= code <= 57 {
        Some(code + 4)
    } else if c == '+' {
        Some(62)
    } else if c == '/' {
        Some(63)
    } else {
        None
    }
}

/// The four characters for three bytes.
pub open spec fn encode_three(b0: u8, b1: u8, b2: u8) -> Seq<char> {
    seq![
        alphabet_char(b0 as int / 4),
        alphabet_char(b0 as int % 4 * 16 + b1 as int / 16),
        alphabet_char(b1 as int % 16 * 4 + b2 as int / 64),
        alphabet_char(b2 as int % 64),
    ]
}

/// The standard base64 text of a byte string: four characters for every three
/// bytes, the last group filled up with `=`.
pub open spec fn encode_standard(bytes: Seq<u8>) -> Seq<char>
    decreases bytes.len(),
{
    if bytes.len() == 0 {
        Seq::empty()
    } else if bytes.len() == 1 {
        encode_three(bytes[0], 0, 0).take(2) + seq!['=', '=']
    } else if bytes.len() == 2 {
        encode_three(bytes[0], bytes[1], 0).take(3) + seq!['=']
    } else {
        encode_three(bytes[0], bytes[1], bytes[2]) + encode_standard(bytes.skip(3))
    }
}

/// The length of the text for `len` bytes.
pub open spec fn encoded_length(len: nat) -> nat {
    (len + 2) / 3 * 4
}

/// The bytes that a group of four six-bit values holds.
pub open spec fn decode_four(v0: int, v1: int, v2: int, v3: int) -> Seq<u8> {
    seq![
        (v0 * 4 + v1 / 16) as u8,
        (v1 % 16 * 16 + v2 / 4) as u8,
        (v2 % 4 * 64 + v3) as u8,
    ]
}

/// The bytes that a standard base64 text stands for, if it is one. Only the
/// last group may be padded, and the bits that padding leaves unused must be
/// zero.
pub open spec fn decode_standard(text: Seq<char>) -> Option<Seq<u8>>
    decreases text.len(),
{
    if text.len() == 0 {
        Some(Seq::empty())
    } else if text.len() < 4 {
        None
    } else {
        let v0 = alphabet_value(text[0]);
        let v1 = alphabet_value(text[1]);
        let v2 = alphabet_value(text[2]);
        let v3 = alphabet_value(text[3]);
        if v0 is None || v1 is None {
            None
        } else if text.len() == 4 && text[2] == '=' && text[3] == '=' {
            if v1.unwrap() % 16 == 0 {
                Some(decode_four(v0.unwrap(), v1.unwrap(), 0, 0).take(1))
            } else {
                None
            }
        } else if v2 is None {
            None
        } else if text.len() == 4 && text[3] == '=' {
            if v2.unwrap() % 4 == 0 {
                Some(decode_four(v0.unwrap(), v1.unwrap(), v2.unwrap(), 0).take(2))
            } else {
                None
            }
        } else if v3 is None {
            None
        } else {
            match decode_standard(text.skip(4)) {
                Some(rest) => Some(
                    decode_four(v0.unwrap(), v1.unwrap(), v2.unwrap(), v3.unwrap()) + rest,
                ),
                None => None,
            }
        }
    }
}

/// Every six-bit value has a character, and the character gives it back.
pub proof fn lemma_alphabet_round_trip(value: int)
    requires
        0 <= value < 64,
    ensures
        alphabet_value(alphabet_char(value)) == Some(value),
        alphabet_char(value) != '=',
{
}

/// Four six-bit values made from three bytes hold those bytes.
pub proof fn lemma_three_bytes_round_trip(b0: u8, b1: u8, b2: u8)
    ensures
        decode_four(
            b0 as int / 4,
            b0 as int % 4 * 16 + b1 as int / 16,
            b1 as int % 16 * 4 + b2 as int / 64,
            b2 as int % 64,
        ) == seq![b0, b1, b2],
{
    let v0 = b0 as int / 4;
    let v1 = b0 as int % 4 * 16 + b1 as int / 16;
    let v2 = b1 as int % 16 * 4 + b2 as int / 64;
    let v3 = b2 as int % 64;
    assert(v0 * 4 + v1 / 16 == b0);
    assert(v1 % 16 * 16 + v2 / 4 == b1);
    assert(v2 % 4 * 64 + v3 == b2);
    assert(decode_four(v0, v1, v2, v3) =~= seq![b0, b1, b2]);
}

/// Decoding the standard base64 text of a byte string gives the byte string
/// back, whatever the bytes are.
pub proof fn lemma_decode_inverts_encode(bytes: Seq<u8>)
    ensures
        decode_standard(encode_standard(bytes)) == Some(bytes),
    decreases bytes.len(),
{
    let text = encode_standard(bytes);
    if bytes.len() == 0 {
        assert(bytes =~= Seq::empty());
    } else if bytes.len() == 1 {
        let b0 = bytes[0];
        lemma_alphabet_round_trip(b0 as int / 4);
        lemma_alphabet_round_trip(b0 as int % 4 * 16);
        lemma_three_bytes_round_trip(b0, 0, 0);
        assert(text.len() == 4);
        assert(decode_four(b0 as int / 4, b0 as int % 4 * 16, 0, 0).take(1) =~= bytes);
    } else if bytes.len() == 2 {
        let b0 = bytes[0];
        let b1 = bytes[1];
        lemma_alphabet_round_trip(b0 as int / 4);
        lemma_alphabet_round_trip(b0 as int % 4 * 16 + b1 as int / 16);
        lemma_alphabet_round_trip(b1 as int % 16 * 4);
        lemma_three_bytes_round_trip(b0, b1, 0);
        assert(text.len() == 4);
        assert(decode_four(
            b0 as int / 4,
            b0 as int % 4 * 16 + b1 as int / 16,
            b1 as int % 16 * 4,
            0,
        ).take(2) =~= bytes);
    } else {
        let b0 = bytes[0];
        let b1 = bytes[1];
        let b2 = bytes[2];
        let rest = bytes.skip(3);
        lemma_alphabet_round_trip(b0 as int / 4);
        lemma_alphabet_round_trip(b0 as int % 4 * 16 + b1 as int / 16);
        lemma_alphabet_round_trip(b1 as int % 16 * 4 + b2 as int / 64);
        lemma_alphabet_round_trip(b2 as int % 64);
        lemma_three_bytes_round_trip(b0, b1, b2);
        lemma_decode_inverts_encode(rest);
        assert(text.skip(4) =~= encode_standard(rest));
        assert(seq![b0, b1, b2] + rest =~= bytes);
    }
}

/// The standard base64 text of `len` bytes has `encoded_length(len)` characters.
pub proof fn lemma_encoded_length(bytes: Seq<u8>)
    ensures
        encode_standard(bytes).len() == encoded_length(bytes.len()),
    decreases bytes.len(),
{
    if bytes.len() >= 3 {
        lemma_encoded_length(bytes.skip(3));
    }
}

/// `Engine::encode` of the `base64` crate's `STANDARD` engine: the text of
/// `bytes` in the standard alphabet with padding, which [`encode_standard`]
/// spells out. Nothing is proved of it. It panics when the text would be too
/// long to allocate.
#[verifier::external_body]
pub(crate) fn encode(bytes: &[u8]) -> (text: String)
    requires
        encoded_length(bytes@.len()) <= isize::MAX,
    ensures
        text@ == encode_standard(bytes@),
{
    STANDARD.encode(bytes)
}

} // verus!
