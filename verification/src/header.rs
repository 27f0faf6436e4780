//! Header values: which texts the HTTP layer accepts as one.

use reqwest::header::{HeaderValue, InvalidHeaderValue};
use vstd::prelude::*;
use vstd::string::StringSliceAdditionalSpecFns;
use vstd::utf8::{char_is_scalar, encode_scalar, encode_utf8, is_scalar};

verus! {

#[verifier::external_type_specification]
#[verifier::external_body]
pub struct ExHeaderValue(HeaderValue);

#[verifier::external_type_specification]
#[verifier::external_body]
pub struct ExInvalidHeaderValue(InvalidHeaderValue);

/// Whether `byte` may stand in a header value: a tab, or anything from the
/// space upwards but the delete control.
pub open spec fn is_header_byte(byte: u8) -> bool {
    byte >= 32 && byte != 127 || byte == 9
}

/// Whether every byte of `bytes` may stand in a header value.
pub open spec fn is_header_value(bytes: Seq<u8>) -> bool {
    forall|i: int| 0 <= i < bytes.len() ==> is_header_byte(#[trigger] bytes[i])
}

/// Whether `c` may stand in a header value: a tab, or any character from the
/// space upwards but the delete control.
pub open spec fn is_header_char(c: char) -> bool {
    c == '\t' || (c >= ' ' && c != '\x7f')
}

/// Whether every character of `text` may stand in a header value.
pub open spec fn is_header_text(text: Seq<char>) -> bool {
    forall|i: int| 0 <= i < text.len() ==> is_header_char(#[trigger] text[i])
}

/// `reqwest::header::HeaderValue::from_str`: believed to accept `value`
/// exactly when each byte of its UTF-8 encoding is a tab or at least 32 and
/// not 127. Nothing is claimed of the value that comes back.
#[verifier::external_body]
pub(crate) fn header_value_from_str(value: &str) -> (res: Result<HeaderValue, InvalidHeaderValue>)
    ensures
        res is Ok <==> is_header_value(value.spec_bytes()),
{
    HeaderValue::from_str(value)
}

/// The bytes that encode one character are header bytes exactly when the
/// character is a header character.
proof fn lemma_header_scalar(c: char)
    ensures
        is_header_value(encode_scalar(c as u32)) <==> is_header_char(c),
{
    let scalar = c as u32;
    let bytes = encode_scalar(scalar);
    char_is_scalar(c);
    assert(is_scalar(scalar));
    assert(bytes.len() >= 1);
    if scalar <= 0x7F {
        assert((scalar & 0x7F) as u8 == scalar) by (bit_vector)
            requires
                scalar <= 0x7F,
        ;
        assert(bytes[0] == scalar);
        assert(is_header_byte(bytes[0]) <==> is_header_char(c));
    } else {
        assert(is_header_char(c));
        assert forall|i: int| 0 <= i < bytes.len() implies is_header_byte(#[trigger] bytes[i]) by {
            assert(0xC0u8 | ((scalar >> 6) & 0x1F) as u8 >= 0x80) by (bit_vector);
            assert(0xE0u8 | ((scalar >> 12) & 0x0F) as u8 >= 0x80) by (bit_vector);
            assert(0xF0u8 | ((scalar >> 18) & 0x7) as u8 >= 0x80) by (bit_vector);
            assert(0x80u8 | (scalar & 0x3F) as u8 >= 0x80) by (bit_vector);
            assert(0x80u8 | ((scalar >> 6) & 0x3F) as u8 >= 0x80) by (bit_vector);
            assert(0x80u8 | ((scalar >> 12) & 0x3F) as u8 >= 0x80) by (bit_vector);
        }
    }
}

/// A text is accepted as a header value exactly when each of its characters
/// is a header character: what lies beyond ASCII is encoded in bytes from 128
/// upwards, which all pass.
pub proof fn lemma_header_text(text: Seq<char>)
    ensures
        is_header_value(encode_utf8(text)) <==> is_header_text(text),
    decreases text.len(),
{
    if text.len() > 0 {
        let head = encode_scalar(text[0] as u32);
        let tail = encode_utf8(text.drop_first());
        lemma_header_scalar(text[0]);
        lemma_header_text(text.drop_first());
        assert(encode_utf8(text) == head + tail);
        if is_header_value(head + tail) {
            assert forall|i: int| 0 <= i < head.len() implies is_header_byte(
                #[trigger] head[i],
            ) by {
                assert(head[i] == (head + tail)[i]);
            }
            assert forall|i: int| 0 <= i < tail.len() implies is_header_byte(
                #[trigger] tail[i],
            ) by {
                assert(tail[i] == (head + tail)[head.len() + i]);
            }
            assert forall|i: int| 0 <= i < text.len() implies is_header_char(
                #[trigger] text[i],
            ) by {
                if i > 0 {
                    assert(text[i] == text.drop_first()[i - 1]);
                }
            }
        }
        if is_header_text(text) {
            assert forall|i: int| 0 <= i < text.drop_first().len() implies is_header_char(
                #[trigger] text.drop_first()[i],
            ) by {
                assert(text.drop_first()[i] == text[i + 1]);
            }
            assert(is_header_value(head + tail));
        }
    }
}

} // verus!
