//! The text of a request field: bytes read as UTF-8, with replacement of what
//! is not UTF-8, and text written back as UTF-8.

use vstd::prelude::*;
use vstd::utf8::*;

verus! {

/// The byte that separates the fields of a framed request: a line feed.
pub const NEWLINE: u8 = 0x0a;

/// The text that lossy UTF-8 decoding gives for `bytes` that are not valid
/// UTF-8: each invalid sequence replaced by U+FFFD, the rest decoded.
pub uninterp spec fn lossy_text(bytes: Seq<u8>) -> Seq<char>;

/// The text that the bytes of a field stand for. Valid UTF-8 is decoded;
/// anything else is decoded with replacement and never refused.
pub open spec fn field_text(bytes: Seq<u8>) -> Seq<char> {
    if valid_utf8(bytes) {
        decode_utf8(bytes)
    } else {
        lossy_text(bytes)
    }
}

/// Calls `String::from_utf8_lossy` and takes the result as an owned string.
///
/// Trusted: valid UTF-8 comes back decoded as it is; for other input the
/// result depends on the bytes alone; and a line feed in the result stands for
/// a line feed byte of the input, since replacement only ever inserts U+FFFD.
#[verifier::external_body]
pub(crate) fn text_from_bytes(bytes: &[u8]) -> (text: String)
    ensures
        valid_utf8(bytes@) ==> text@ == decode_utf8(bytes@),
        !valid_utf8(bytes@) ==> text@ == lossy_text(bytes@),
        text@.contains('\n') ==> bytes@.contains(NEWLINE),
{
    String::from_utf8_lossy(bytes).into_owned()
}

/// No byte of the UTF-8 encoding of a character other than the line feed is
/// the line feed byte.
proof fn lemma_scalar_line_free(scalar: u32)
    requires
        is_scalar(scalar),
        scalar != 0x0a,
    ensures
        forall|k: int| 0 <= k < encode_scalar(scalar).len() ==> encode_scalar(scalar)[k] != NEWLINE,
{
    if has_width_1_encoding(scalar) {
        assert((scalar & 0x7f) as u8 != 0x0au8) by (bit_vector)
            requires
                scalar <= 0x7f,
                scalar != 0x0a,
        ;
    }
    assert((0xc0u8 | ((scalar >> 6) & 0x1f) as u8) != 0x0au8) by (bit_vector);
    assert((0xe0u8 | ((scalar >> 12) & 0x0f) as u8) != 0x0au8) by (bit_vector);
    assert((0xf0u8 | ((scalar >> 18) & 0x7) as u8) != 0x0au8) by (bit_vector);
    assert((0x80u8 | (scalar & 0x3f) as u8) != 0x0au8) by (bit_vector);
    assert((0x80u8 | ((scalar >> 6) & 0x3f) as u8) != 0x0au8) by (bit_vector);
    assert((0x80u8 | ((scalar >> 12) & 0x3f) as u8) != 0x0au8) by (bit_vector);
}

/// Text without a line feed encodes to bytes without a line feed byte.
pub proof fn lemma_encode_line_free(text: Seq<char>)
    requires
        !text.contains('\n'),
    ensures
        !encode_utf8(text).contains(NEWLINE),
    decreases text.len(),
{
    if text.len() > 0 {
        let head = encode_scalar(text[0] as u32);
        let tail = encode_utf8(text.drop_first());
        assert(text.contains(text[0]));
        char_is_scalar(text[0]);
        char_u32_cast(text[0], text[0] as u32);
        lemma_scalar_line_free(text[0] as u32);
        assert(!text.drop_first().contains('\n')) by {
            if text.drop_first().contains('\n') {
                let k = choose|k: int|
                    0 <= k < text.drop_first().len() && text.drop_first()[k] == '\n';
                assert(text[k + 1] == '\n');
            }
        }
        lemma_encode_line_free(text.drop_first());
        if (head + tail).contains(NEWLINE) {
            let k = choose|k: int| 0 <= k < (head + tail).len() && (head + tail)[k] == NEWLINE;
            if k < head.len() {
                assert(head[k] == NEWLINE);
            } else {
                assert(tail[k - head.len()] == NEWLINE);
            }
        }
    }
}

/// Encoding a text and reading the bytes back gives the text again.
pub proof fn lemma_field_text_of_encoding(text: Seq<char>)
    ensures
        field_text(encode_utf8(text)) == text,
{
    encode_utf8_valid_utf8(text);
    encode_utf8_decode_utf8(text);
}

} // verus!
