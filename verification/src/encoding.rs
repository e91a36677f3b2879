//! Whether a text can cross to the runtime, which reads texts up to their
//! first zero byte.

use vstd::prelude::*;
use vstd::string::StringSliceAdditionalSpecFns;
use vstd::utf8::encode_scalar;
use vstd::utf8::encode_utf8;

verus! {

/// Holds if `position` is the place of the first zero byte of `bytes`.
pub open spec fn is_first_nul(bytes: Seq<u8>, position: int) -> bool {
    &&& 0 <= position < bytes.len()
    &&& bytes[position] == 0
    &&& forall|j: int| 0 <= j < position ==> bytes[j] != 0
}

/// Holds if no byte of `bytes` is zero.
pub open spec fn nul_free(bytes: Seq<u8>) -> bool {
    forall|j: int| 0 <= j < bytes.len() ==> bytes[j] != 0
}

/// Holds if a text can be handed to the runtime whole: none of its UTF-8
/// bytes is zero.
pub open spec fn encodable(text: Seq<char>) -> bool {
    nul_free(encode_utf8(text))
}

/// The place of the first zero byte among the UTF-8 bytes of `text`, or
/// `None` if it has none and so can be handed to the runtime unchanged.
pub fn nul_position(text: &str) -> (found: Option<usize>)
    ensures
        match found {
            Some(position) => is_first_nul(text.spec_bytes(), position as int),
            None => nul_free(text.spec_bytes()),
        },
{
    let bytes = text.as_bytes();
    let mut i: usize = 0;
    while i < bytes.len()
        invariant
            i <= bytes.len(),
            bytes@ == text.spec_bytes(),
            forall|j: int| 0 <= j < i ==> bytes@[j] != 0,
        decreases bytes.len() - i,
    {
        if bytes[i] == 0 {
            return Some(i);
        }
        i = i + 1;
    }
    None
}

/// Whether a text can be handed to the runtime whole.
pub fn is_encodable(text: &str) -> (whole: bool)
    ensures
        whole == encodable(text@),
{
    nul_position(text).is_none()
}

proof fn lemma_one_byte_scalar(scalar: u32)
    by (bit_vector)
    requires
        scalar <= 0x7F,
    ensures
        ((scalar & 0x7F) as u8 == 0) == (scalar == 0),
{
}

proof fn lemma_marked_byte(low: u8)
    by (bit_vector)
    ensures
        0x80u8 | low != 0,
        0xC0u8 | low != 0,
        0xE0u8 | low != 0,
        0xF0u8 | low != 0,
{
}

/// The encoding of one character holds a zero byte exactly if the character
/// is the one with code 0.
proof fn lemma_scalar_nul(scalar: u32)
    ensures
        nul_free(encode_scalar(scalar)) <==> scalar != 0,
{
    let bytes = encode_scalar(scalar);
    if scalar <= 0x7F {
        lemma_one_byte_scalar(scalar);
        assert(bytes[0] == (scalar & 0x7F) as u8);
    } else {
        lemma_marked_byte(((scalar >> 6) & 0x1F) as u8);
        lemma_marked_byte(((scalar >> 12) & 0x0F) as u8);
        lemma_marked_byte(((scalar >> 18) & 0x7) as u8);
        lemma_marked_byte((scalar & 0x3F) as u8);
        lemma_marked_byte(((scalar >> 6) & 0x3F) as u8);
        lemma_marked_byte(((scalar >> 12) & 0x3F) as u8);
    }
}

proof fn lemma_nul_free_concat(front: Seq<u8>, back: Seq<u8>)
    ensures
        nul_free(front + back) <==> nul_free(front) && nul_free(back),
{
    let whole = front + back;
    if nul_free(whole) {
        assert forall|j: int| 0 <= j < front.len() implies front[j] != 0 by {
            assert(whole[j] == front[j]);
        }
        assert forall|j: int| 0 <= j < back.len() implies back[j] != 0 by {
            assert(whole[front.len() + j] == back[j]);
        }
    }
}

/// Holds if no character of `text` is the one with code 0.
pub open spec fn no_nul_char(text: Seq<char>) -> bool {
    forall|i: int| 0 <= i < text.len() ==> text[i] as u32 != 0
}

/// A text can be handed to the runtime whole exactly if none of its
/// characters is the one with code 0: no other character has a zero byte in
/// its encoding.
pub proof fn lemma_encodable_chars(text: Seq<char>)
    ensures
        encodable(text) <==> no_nul_char(text),
    decreases text.len(),
{
    if text.len() > 0 {
        let rest = text.drop_first();
        lemma_encodable_chars(rest);
        lemma_scalar_nul(text[0] as u32);
        lemma_nul_free_concat(encode_scalar(text[0] as u32), encode_utf8(rest));
        if no_nul_char(text) {
            assert forall|i: int| 0 <= i < rest.len() implies rest[i] as u32 != 0 by {
                assert(rest[i] == text[i + 1]);
            }
        }
        if no_nul_char(rest) && text[0] as u32 != 0 {
            assert forall|i: int| 0 <= i < text.len() implies text[i] as u32 != 0 by {
                if i > 0 {
                    assert(text[i] == rest[i - 1]);
                }
            }
        }
    }
}

/// A text has at most one first zero byte, and none if it is free of them.
pub proof fn lemma_first_nul_unique(bytes: Seq<u8>, p: int, q: int)
    requires
        is_first_nul(bytes, p),
        is_first_nul(bytes, q),
    ensures
        p == q,
        !nul_free(bytes),
{
}

} // verus!
