//! The framed-text encoding of a request: the signature text, a line feed, the
//! key text, a line feed, and then the message bytes to the end of the buffer.

use vstd::prelude::*;
use vstd::slice::{slice_subrange, slice_to_vec};
use vstd::std_specs::convert::TryFromSpecImpl;
use vstd::utf8::encode_utf8;

use crate::outcome::DecodeError;
use crate::request::{RequestView, VerifyParams};
use crate::text::{
    field_text, lemma_encode_line_free, lemma_field_text_of_encoding, text_from_bytes, NEWLINE,
};

verus! {

/// Whether `first` and `second` are the positions of the first two line feeds
/// of `bytes`, the two separators of a framed request.
pub open spec fn separators(bytes: Seq<u8>, first: int, second: int) -> bool {
    &&& 0 <= first < second < bytes.len()
    &&& bytes[first] == NEWLINE
    &&& bytes[second] == NEWLINE
    &&& forall|k: int| 0 <= k < second && k != first ==> bytes[k] != NEWLINE
}

/// Whether `bytes` holds the two separators that make three fields.
pub open spec fn well_framed(bytes: Seq<u8>) -> bool {
    exists|first: int, second: int| separators(bytes, first, second)
}

/// The request that `bytes` carries, or `None` where they hold fewer than two
/// separators. The message is everything behind the second separator.
pub open spec fn decode(bytes: Seq<u8>) -> Option<RequestView> {
    if well_framed(bytes) {
        let (first, second) = choose|first: int, second: int| separators(bytes, first, second);
        Some(
            RequestView {
                signature: field_text(bytes.subrange(0, first)),
                gpk: field_text(bytes.subrange(first + 1, second)),
                message: bytes.subrange(second + 1, bytes.len() as int),
            },
        )
    } else {
        None
    }
}

/// The bytes that carry `request`.
pub open spec fn encode(request: RequestView) -> Seq<u8> {
    encode_utf8(request.signature) + seq![NEWLINE] + encode_utf8(request.gpk) + seq![NEWLINE]
        + request.message
}

/// A buffer has at most one pair of separators.
pub proof fn lemma_separators_unique(bytes: Seq<u8>, a: (int, int), b: (int, int))
    requires
        separators(bytes, a.0, a.1),
        separators(bytes, b.0, b.1),
    ensures
        a == b,
{
    if a.0 < b.0 {
        assert(bytes[a.0] != NEWLINE);
    }
    if b.0 < a.0 {
        assert(bytes[b.0] != NEWLINE);
    }
    if a.1 < b.1 {
        assert(bytes[a.1] != NEWLINE);
    }
    if b.1 < a.1 {
        assert(bytes[b.1] != NEWLINE);
    }
}

/// What a buffer with separators at `first` and `second` decodes to.
pub proof fn lemma_decode_at(bytes: Seq<u8>, first: int, second: int)
    requires
        separators(bytes, first, second),
    ensures
        decode(bytes) == Some(
            RequestView {
                signature: field_text(bytes.subrange(0, first)),
                gpk: field_text(bytes.subrange(first + 1, second)),
                message: bytes.subrange(second + 1, bytes.len() as int),
            },
        ),
{
    let chosen = choose|first: int, second: int| separators(bytes, first, second);
    lemma_separators_unique(bytes, chosen, (first, second));
}

/// Two fields without a line feed byte, each followed by a separator, and
/// then any message at all, decode to exactly these three parts: the message
/// comes back byte for byte, line feeds included.
pub proof fn lemma_decode_frame(signature: Seq<u8>, gpk: Seq<u8>, message: Seq<u8>)
    requires
        !signature.contains(NEWLINE),
        !gpk.contains(NEWLINE),
    ensures
        decode(signature + seq![NEWLINE] + gpk + seq![NEWLINE] + message) == Some(
            RequestView { signature: field_text(signature), gpk: field_text(gpk), message },
        ),
{
    let bytes = signature + seq![NEWLINE] + gpk + seq![NEWLINE] + message;
    let first = signature.len() as int;
    let second = first + 1 + gpk.len();
    assert forall|k: int| 0 <= k < second && k != first implies bytes[k] != NEWLINE by {
        if k < first {
            assert(signature.contains(signature[k]));
        } else {
            assert(gpk.contains(gpk[k - first - 1]));
        }
    }
    assert(separators(bytes, first, second));
    lemma_decode_at(bytes, first, second);
    assert(bytes.subrange(0, first) =~= signature);
    assert(bytes.subrange(first + 1, second) =~= gpk);
    assert(bytes.subrange(second + 1, bytes.len() as int) =~= message);
}

/// Decoding the encoding of a request whose signature and key are single
/// lines gives the request back.
pub proof fn lemma_decode_encode(request: RequestView)
    requires
        request.line_free(),
    ensures
        decode(encode(request)) == Some(request),
{
    lemma_encode_line_free(request.signature);
    lemma_encode_line_free(request.gpk);
    lemma_decode_frame(encode_utf8(request.signature), encode_utf8(request.gpk), request.message);
    lemma_field_text_of_encoding(request.signature);
    lemma_field_text_of_encoding(request.gpk);
}

/// The position of the first line feed of `bytes` at or behind `start`.
fn find_newline(bytes: &[u8], start: usize) -> (found: Option<usize>)
    requires
        start <= bytes@.len(),
    ensures
        match found {
            Some(at) => {
                &&& start <= at < bytes@.len()
                &&& bytes@[at as int] == NEWLINE
                &&& forall|k: int| start <= k < at ==> bytes@[k] != NEWLINE
            },
            None => forall|k: int| start <= k < bytes@.len() ==> bytes@[k] != NEWLINE,
        },
{
    let mut at: usize = start;
    while at < bytes.len()
        invariant
            start <= at <= bytes@.len(),
            forall|k: int| start <= k < at ==> bytes@[k] != NEWLINE,
        decreases bytes@.len() - at,
    {
        if bytes[at] == NEWLINE {
            return Some(at);
        }
        at += 1;
    }
    None
}

impl TryFrom<&[u8]> for VerifyParams {
    type Error = DecodeError;

    /// Decodes a framed request. The buffer is cut at its first two line
    /// feeds: the signature text, the key text, and the message, which is
    /// everything that follows and is copied as it is. Text that is not UTF-8
    /// is read with replacement, never refused.
    ///
    /// Fails with `TooFewFields` exactly when the buffer holds fewer than two
    /// line feeds. A decoded request survives re-encoding: its two text
    /// fields are single lines, and decoding its encoding gives it back.
    fn try_from(bytes: &[u8]) -> (result: Result<VerifyParams, DecodeError>)
        ensures
            match result {
                Ok(params) => {
                    &&& decode(bytes@) == Some(params@)
                    &&& params@.line_free()
                    &&& decode(encode(params@)) == decode(bytes@)
                },
                Err(error) => error == DecodeError::TooFewFields && decode(bytes@) is None,
            },
    {
        let len = bytes.len();
        let first = match find_newline(bytes, 0) {
            Some(at) => at,
            None => {
                return Err(DecodeError::TooFewFields);
            },
        };
        let second = match find_newline(bytes, first + 1) {
            Some(at) => at,
            None => {
                return Err(DecodeError::TooFewFields);
            },
        };
        let signature_bytes = slice_subrange(bytes, 0, first);
        let gpk_bytes = slice_subrange(bytes, first + 1, second);
        let signature = text_from_bytes(signature_bytes);
        let gpk = text_from_bytes(gpk_bytes);
        let message = slice_to_vec(slice_subrange(bytes, second + 1, len));
        let params = VerifyParams { message, signature, gpk };
        proof {
            assert(separators(bytes@, first as int, second as int));
            lemma_decode_at(bytes@, first as int, second as int);
            assert(!signature_bytes@.contains(NEWLINE));
            assert(!gpk_bytes@.contains(NEWLINE));
            lemma_decode_encode(params@);
        }
        Ok(params)
    }
}

/// Requests are told apart by their views, so `try_from` promises the view of
/// what it returns rather than equality with the value named here.
impl TryFromSpecImpl<&[u8]> for VerifyParams {
    open spec fn obeys_try_from_spec() -> bool {
        false
    }

    open spec fn try_from_spec(bytes: &[u8]) -> Result<VerifyParams, DecodeError> {
        match decode(bytes@) {
            Some(request) => Ok(choose|params: VerifyParams| params@ == request),
            None => Err(DecodeError::TooFewFields),
        }
    }
}

impl VerifyParams {
    /// Encodes the request in the framed form: the signature text, a line
    /// feed, the key text, a line feed, and the message bytes as they are.
    pub fn to_bytes(&self) -> (bytes: Vec<u8>)
        ensures
            bytes@ == encode(self@),
    {
        let mut bytes: Vec<u8> = Vec::new();
        bytes.extend_from_slice(self.signature.as_str().as_bytes());
        bytes.push(NEWLINE);
        bytes.extend_from_slice(self.gpk.as_str().as_bytes());
        bytes.push(NEWLINE);
        bytes.extend_from_slice(self.message.as_slice());
        bytes
    }
}

} // verus!
