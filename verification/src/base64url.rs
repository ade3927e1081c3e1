//! Base64 in the URL-safe alphabet, as the `base64` crate reads it.

use base64::alphabet::URL_SAFE;
use base64::engine::general_purpose::{GeneralPurpose, GeneralPurposeConfig};
use base64::engine::DecodePaddingMode;
use base64::Engine;
use vstd::prelude::*;

verus! {

/// The bytes that a text stands for in URL-safe base64, with or without its
/// padding, or `None` where the text is not such an encoding.
pub uninterp spec fn base64url_decoded(text: Seq<u8>) -> Option<Seq<u8>>;

/// `Engine::decode` of a `GeneralPurpose` engine over the URL-safe alphabet
/// that is indifferent to padding: the result is what the engine reads from
/// `text`, and `None` where it reports a `DecodeError`.
#[verifier::external_body]
pub(crate) fn decode(text: &[u8]) -> (r: Option<Vec<u8>>)
    ensures
        r matches Some(bytes) ==> base64url_decoded(text@) == Some(bytes@),
        r is None ==> base64url_decoded(text@) is None,
{
    let config = GeneralPurposeConfig::new()
        .with_encode_padding(false)
        .with_decode_padding_mode(DecodePaddingMode::Indifferent);
    GeneralPurpose::new(&URL_SAFE, config).decode(text).ok()
}

/// Whether a byte is of the URL-safe alphabet: a letter, a digit, `-` or
/// `_`.
pub open spec fn in_alphabet(byte: u8) -> bool {
    ||| 65 <= byte <= 90
    ||| 97 <= byte <= 122
    ||| 48 <= byte <= 57
    ||| byte == 45
    ||| byte == 95
}

/// The greatest number of bytes that `encode` takes: the text for them has
/// a length that fits `usize`.
pub const ENCODE_LIMIT: usize = usize::MAX / 2;

/// The text that stands for `bytes` in URL-safe base64 without padding.
pub uninterp spec fn base64url_encoded(bytes: Seq<u8>) -> Seq<u8>;

/// `Engine::encode` of the same engine, which writes no padding: the
/// result is the text that the engine writes for `bytes`; it is made of
/// bytes of the URL-safe alphabet, and the engine's `decode` reads `bytes`
/// back from it. The engine cannot write a text longer than `usize::MAX`.
#[verifier::external_body]
pub(crate) fn encode(bytes: &[u8]) -> (r: Vec<u8>)
    requires
        bytes@.len() <= ENCODE_LIMIT,
    ensures
        r@ == base64url_encoded(bytes@),
        forall|i: int| 0 <= i < r@.len() ==> in_alphabet(#[trigger] r@[i]),
        base64url_decoded(r@) == Some(bytes@),
{
    let config = GeneralPurposeConfig::new()
        .with_encode_padding(false)
        .with_decode_padding_mode(DecodePaddingMode::Indifferent);
    GeneralPurpose::new(&URL_SAFE, config).encode(bytes).into_bytes()
}

} // verus!
