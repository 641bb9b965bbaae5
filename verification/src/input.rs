//! From the bytes that the terminal sends to characters.

use vstd::prelude::*;
use vstd::string::*;
use vstd::utf8::*;

use crate::text::{lemma_encode_injective, lemma_one_char};

verus! {

/// `core::str::Utf8Error`, which is passed on and never looked into.
#[verifier::external_type_specification]
#[verifier::external_body]
pub struct ExUtf8Error(core::str::Utf8Error);

/// `core::str::from_utf8`: the string with the given bytes, if they are valid UTF-8.
pub assume_specification<'a>[ core::str::from_utf8 ](v: &'a [u8]) -> (res: Result<
    &'a str,
    core::str::Utf8Error,
>)
    ensures
        res is Ok <==> valid_utf8(v@),
        res matches Ok(s) ==> s.spec_bytes() == v@,
;

/// The number of bytes of a character whose first byte is `first`; 0 if no character starts with
/// it.
pub open spec fn width_from_first_byte(first: u8) -> int {
    if first < 0x80 {
        1
    } else if 0xc2 <= first <= 0xdf {
        2
    } else if 0xe0 <= first <= 0xef {
        3
    } else if 0xf0 <= first <= 0xf4 {
        4
    } else {
        0
    }
}

/// The number of bytes of a character whose first byte is `first`; 0 if no character starts with
/// it.
pub fn utf8_char_width(first: u8) -> (res: usize)
    ensures
        res == width_from_first_byte(first),
{
    if first < 0x80 {
        1
    } else if first < 0xc2 {
        0
    } else if first < 0xe0 {
        2
    } else if first < 0xf0 {
        3
    } else if first < 0xf5 {
        4
    } else {
        0
    }
}

/// The character whose encoding `bytes` is, if it is that of one character.
pub fn decode_char(bytes: &[u8]) -> (res: Option<char>)
    ensures
        match res {
            Some(c) => bytes@ == encode_utf8(seq![c]),
            None => forall|c: char| bytes@ != #[trigger] encode_utf8(seq![c]),
        },
{
    proof {
        assert forall|c: char| #[trigger] encode_utf8(seq![c]) == bytes@ implies valid_utf8(
            bytes@,
        ) by {
            encode_utf8_valid_utf8(seq![c]);
        }
    }
    match core::str::from_utf8(bytes) {
        Ok(s) => {
            if s.unicode_len() == 1 {
                let c = s.get_char(0);
                assert(s@ == seq![c]);
                Some(c)
            } else {
                proof {
                    assert forall|c: char| #[trigger] encode_utf8(seq![c]) == bytes@ implies false by {
                        lemma_encode_injective(seq![c], s@);
                    }
                }
                None
            }
        },
        Err(_) => None,
    }
}

/// What is read back from the bytes of a character is that character, and its first byte tells
/// how many bytes there are to read.
pub proof fn law_first_byte_tells_the_width(c: char)
    ensures
        encode_utf8(seq![c]).len() > 0,
        width_from_first_byte(encode_utf8(seq![c])[0]) == encode_utf8(seq![c]).len(),
        forall|d: char| #[trigger] encode_utf8(seq![d]) == encode_utf8(seq![c]) ==> d == c,
{
    lemma_one_char(c);
    char_is_scalar(c);
    let v = c as u32;
    if has_width_1_encoding(v) {
        assert((v & 0x7f) as u8 <= 0x7f) by (bit_vector)
            requires
                0 <= v <= 0x7f,
        ;
    } else if has_width_2_encoding(v) {
        assert(0xc2 <= (0xC0 | ((v >> 6) & 0x1F) as u8) <= 0xdf) by (bit_vector)
            requires
                0x80 <= v <= 0x7ff,
        ;
    } else if has_width_3_encoding(v) {
        assert(0xe0 <= (0xE0 | ((v >> 12) & 0x0F) as u8) <= 0xef) by (bit_vector)
            requires
                0x800 <= v <= 0xffff,
        ;
    } else {
        assert(0xf0 <= (0xF0 | ((v >> 18) & 0x7) as u8) <= 0xf4) by (bit_vector)
            requires
                0x10000 <= v <= 0x10ffff,
        ;
    }
    assert forall|d: char| #[trigger] encode_utf8(seq![d]) == encode_utf8(seq![c]) implies d
        == c by {
        lemma_encode_injective(seq![d], seq![c]);
        assert(seq![d][0] == seq![c][0]);
    }
}

/// Only a byte with which no character starts has no width.
pub proof fn law_bytes_with_a_width_start_characters(first: u8)
    ensures
        width_from_first_byte(first) != 0 <==> exists|c: char|
            (#[trigger] encode_utf8(seq![c]))[0] == first,
{
    assert forall|c: char| (#[trigger] encode_utf8(seq![c]))[0] == first implies
        width_from_first_byte(first) != 0 by {
        law_first_byte_tells_the_width(c);
    }
    if width_from_first_byte(first) != 0 {
        let v: u32 = if first < 0x80 {
            first as u32
        } else if first < 0xe0 {
            (first as u32 & 0x1f) << 6
        } else if first == 0xe0 {
            0x800
        } else if first < 0xf0 {
            (first as u32 & 0xf) << 12
        } else if first == 0xf0 {
            0x10000
        } else {
            (first as u32 & 0x7) << 18
        };
        assert(first < 0x80 ==> (first as u32 & 0x7f) as u8 == first) by (bit_vector);
        assert(0xc2 <= first && first <= 0xdf ==> {
            let u = (first as u32 & 0x1f) << 6;
            0x80 <= u && u <= 0x7ff && (0xC0 | ((u >> 6) & 0x1F) as u8) == first
        }) by (bit_vector);
        assert(0xe0 < first && first <= 0xef ==> {
            let u = (first as u32 & 0xf) << 12;
            0x1000 <= u && u <= 0xffff && (u < 0xd800 || u > 0xdfff) && (0xE0 | ((u >> 12)
                & 0x0F) as u8) == first
        }) by (bit_vector);
        assert(0xf0 < first && first <= 0xf4 ==> {
            let u = (first as u32 & 0x7) << 18;
            0x10000 <= u && u <= 0x10ffff && (0xF0 | ((u >> 18) & 0x7) as u8) == first
        }) by (bit_vector);
        assert((0xE0 | ((0x800u32 >> 12) & 0x0F) as u8) == 0xe0) by (bit_vector);
        assert((0xF0 | ((0x10000u32 >> 18) & 0x7) as u8) == 0xf0) by (bit_vector);
        let c = v as char;
        assert(c as u32 == v);
        lemma_one_char(c);
        assert(encode_utf8(seq![c])[0] == first);
    }
}

} // verus!
