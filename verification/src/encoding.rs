//! How a string's bytes relate to its characters when the text is ASCII.
//!
//! A string is held as UTF-8. A parser that walks the bytes sees the same
//! sequence as one that walks the characters exactly when every character is
//! ASCII; the lemmas here establish that from either side.

use vstd::prelude::*;
use vstd::utf8::*;

verus! {

/// The bytes read one by one as characters: each byte becomes the character
/// whose code point is that byte.
pub open spec fn bytes_as_text(bytes: Seq<u8>) -> Seq<char> {
    Seq::new(bytes.len(), |i: int| bytes[i] as char)
}

/// An ASCII text is encoded one byte per character, each byte being the
/// character's code point.
pub proof fn lemma_ascii_text_encoding(text: Seq<char>)
    requires
        is_ascii_chars(text),
    ensures
        bytes_as_text(encode_utf8(text)) == text,
{
    is_ascii_chars_encode_utf8(text);
    let bytes = encode_utf8(text);
    assert forall|i: int| 0 <= i < text.len() implies bytes_as_text(bytes)[i] == text[i] by {
        assert(text[i] as u8 == bytes[i]);
        assert('\0' <= text[i] <= '\u{7f}');
    }
    assert(bytes_as_text(bytes) =~= text);
}

/// A text whose encoding holds no byte above `0x7f` is ASCII.
pub proof fn lemma_ascii_encoding_text(text: Seq<char>)
    requires
        is_ascii_chars(bytes_as_text(encode_utf8(text))),
    ensures
        is_ascii_chars(text),
    decreases text.len(),
{
    if text.len() > 0 {
        let first = text[0] as u32;
        let rest = text.drop_first();
        let head = encode_scalar(first);
        let tail = encode_utf8(rest);
        let bytes = encode_utf8(text);
        assert(bytes == head + tail);
        assert(head[0] <= 0x7f) by {
            assert(bytes[0] == head[0]);
            assert('\0' <= bytes_as_text(bytes)[0] <= '\u{7f}');
        }
        if !has_width_1_encoding(first) {
            char_is_scalar(text[0]);
            lemma_leading_byte_not_ascii(first);
        }
        assert(head.len() == 1);
        assert forall|i: int| 0 <= i < tail.len() implies '\0' <= #[trigger] bytes_as_text(
            tail,
        )[i] <= '\u{7f}' by {
            assert(tail[i] == bytes[i + 1]);
            assert('\0' <= bytes_as_text(bytes)[i + 1] <= '\u{7f}');
        }
        lemma_ascii_encoding_text(rest);
        assert forall|i: int| 0 <= i < text.len() implies '\0' <= #[trigger] text[i]
            <= '\u{7f}' by {
            if i > 0 {
                assert(text[i] == rest[i - 1]);
            } else {
                lemma_single_byte_char_is_ascii(text[0]);
            }
        }
    }
}

/// A character that is encoded in one byte is ASCII.
proof fn lemma_single_byte_char_is_ascii(c: char)
    requires
        has_width_1_encoding(c as u32),
    ensures
        '\0' <= c <= '\u{7f}',
{
}

/// The leading byte of a multi-byte encoding is above `0x7f`.
proof fn lemma_leading_byte_not_ascii(scalar: u32)
    requires
        is_scalar(scalar),
        !has_width_1_encoding(scalar),
    ensures
        encode_scalar(scalar)[0] > 0x7f,
{
    if has_width_2_encoding(scalar) {
        assert(leading_byte_width_2(scalar) > 0x7f) by (bit_vector);
    } else if has_width_3_encoding(scalar) {
        assert(leading_byte_width_3(scalar) > 0x7f) by (bit_vector);
    } else {
        assert(leading_byte_width_4(scalar) > 0x7f) by (bit_vector);
    }
}

} // verus!
