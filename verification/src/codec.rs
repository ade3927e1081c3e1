//! Decoding a token into its header, its claims and its signature.

use crate::base64url;
use crate::base64url::{base64url_decoded, base64url_encoded, in_alphabet, ENCODE_LIMIT};
use crate::json::{compact_text, json_compact, json_of, json_parsed, parse_object, Json};
use crate::token::{
    has_three_segments, header_segment, lemma_split_names_the_dots, payload_segment,
    signature_segment, signing_input, split_segments, splits_at, DOT,
};
use serde_json::Value;
use vstd::prelude::*;
use vstd::string::*;
use vstd::utf8::encode_utf8;

verus! {

/// One of the three segments of a token.
#[derive(Clone, Copy, Debug, PartialEq, Eq, Structural)]
pub enum Segment {
    Header,
    Payload,
    Signature,
}

/// Why a text could not be decoded as a token.
#[derive(Clone, Copy, Debug, PartialEq, Eq, Structural)]
pub enum DecodeError {
    /// The text does not consist of three segments.
    MalformedToken,
    /// The segment is not base64 in the URL-safe alphabet.
    InvalidEncoding(Segment),
    /// The segment does not hold a JSON object.
    InvalidJson(Segment),
}

/// The parts of a decoded token.
#[derive(Clone, Debug)]
pub struct TokenParts {
    /// The JSON object of the first segment.
    pub header: Value,
    /// The JSON object of the second segment.
    pub claims: Value,
    /// The bytes of the third segment.
    pub signature_raw: Vec<u8>,
}

/// The content of the parts of a decoded token.
pub struct TokenContent {
    pub header: Json,
    pub claims: Json,
    pub signature_raw: Seq<u8>,
}

impl View for TokenParts {
    type V = TokenContent;

    open spec fn view(&self) -> TokenContent {
        TokenContent {
            header: json_of(self.header),
            claims: json_of(self.claims),
            signature_raw: self.signature_raw@,
        }
    }
}

/// The JSON object that a segment holds, where it holds one.
pub open spec fn object_in(bytes: Seq<u8>) -> Option<Json> {
    match json_parsed(bytes) {
        Some(Json::Object(entries)) => Some(Json::Object(entries)),
        _ => None,
    }
}

/// What a text decodes to. The two encodings of header and payload are
/// undone first, then the two documents are read, then the signature's
/// encoding is undone; the first step that fails gives the error.
pub open spec fn decoded(token: Seq<u8>) -> Result<TokenContent, DecodeError> {
    if !has_three_segments(token) {
        Err(DecodeError::MalformedToken)
    } else {
        let header_bytes = base64url_decoded(header_segment(token));
        let claims_bytes = base64url_decoded(payload_segment(token));
        let signature = base64url_decoded(signature_segment(token));
        if header_bytes is None {
            Err(DecodeError::InvalidEncoding(Segment::Header))
        } else if claims_bytes is None {
            Err(DecodeError::InvalidEncoding(Segment::Payload))
        } else if object_in(header_bytes.unwrap()) is None {
            Err(DecodeError::InvalidJson(Segment::Header))
        } else if object_in(claims_bytes.unwrap()) is None {
            Err(DecodeError::InvalidJson(Segment::Payload))
        } else if signature is None {
            Err(DecodeError::InvalidEncoding(Segment::Signature))
        } else {
            Ok(
                TokenContent {
                    header: object_in(header_bytes.unwrap()).unwrap(),
                    claims: object_in(claims_bytes.unwrap()).unwrap(),
                    signature_raw: signature.unwrap(),
                },
            )
        }
    }
}

impl Segment {
    /// The segment's name in a message.
    pub open spec fn name_text(self) -> Seq<char> {
        match self {
            Segment::Header => "header"@,
            Segment::Payload => "payload"@,
            Segment::Signature => "signature"@,
        }
    }

    /// The segment's name in a message.
    pub fn name(&self) -> (r: &'static str)
        ensures
            r@ == self.name_text(),
    {
        match self {
            Segment::Header => "header",
            Segment::Payload => "payload",
            Segment::Signature => "signature",
        }
    }
}

impl DecodeError {
    /// The message that tells a reader of the error.
    pub open spec fn message_text(self) -> Seq<char> {
        match self {
            DecodeError::MalformedToken => "malformed token: expected three segments separated by '.'"@,
            DecodeError::InvalidEncoding(segment) => "invalid base64url encoding in the "@
                + segment.name_text() + " segment"@,
            DecodeError::InvalidJson(segment) => "invalid JSON object in the "@
                + segment.name_text() + " segment"@,
        }
    }

    /// The message that tells a reader of the error; it names the segment
    /// that failed.
    pub fn message(&self) -> (r: String)
        ensures
            r@ == self.message_text(),
    {
        match self {
            DecodeError::MalformedToken => {
                "malformed token: expected three segments separated by '.'".to_owned()
            },
            DecodeError::InvalidEncoding(segment) => {
                "invalid base64url encoding in the ".to_owned().concat(segment.name()).concat(
                    " segment",
                )
            },
            DecodeError::InvalidJson(segment) => {
                "invalid JSON object in the ".to_owned().concat(segment.name()).concat(" segment")
            },
        }
    }
}

/// Decodes the bytes of a token: splits them at the two dots, undoes the
/// encoding of each segment and reads header and claims as JSON objects.
pub fn decode_bytes(token: &[u8]) -> (r: Result<TokenParts, DecodeError>)
    ensures
        !has_three_segments(token@) <==> r matches Err(DecodeError::MalformedToken),
        r matches Ok(parts) ==> decoded(token@) == Ok::<TokenContent, DecodeError>(parts@),
        r matches Err(error) ==> decoded(token@) == Err::<TokenContent, DecodeError>(error),
{
    let (header_text, claims_text, signature_text) = match split_segments(token) {
        Some((header, payload, signature, _)) => (header, payload, signature),
        None => {
            return Err(DecodeError::MalformedToken);
        },
    };
    let header_bytes = match base64url::decode(header_text) {
        Some(bytes) => bytes,
        None => {
            return Err(DecodeError::InvalidEncoding(Segment::Header));
        },
    };
    let claims_bytes = match base64url::decode(claims_text) {
        Some(bytes) => bytes,
        None => {
            return Err(DecodeError::InvalidEncoding(Segment::Payload));
        },
    };
    let header = match parse_object(header_bytes.as_slice()) {
        Some(document) => document,
        None => {
            return Err(DecodeError::InvalidJson(Segment::Header));
        },
    };
    let claims = match parse_object(claims_bytes.as_slice()) {
        Some(document) => document,
        None => {
            return Err(DecodeError::InvalidJson(Segment::Payload));
        },
    };
    let signature_raw = match base64url::decode(signature_text) {
        Some(bytes) => bytes,
        None => {
            return Err(DecodeError::InvalidEncoding(Segment::Signature));
        },
    };
    Ok(TokenParts { header, claims, signature_raw })
}

/// The bytes of a token that its signature is computed over, where the
/// token has three segments.
pub fn signing_input_of<'a>(token: &'a [u8]) -> (r: Option<&'a [u8]>)
    ensures
        r is Some <==> has_three_segments(token@),
        r matches Some(signed) ==> signed@ == signing_input(token@),
{
    match split_segments(token) {
        Some((_, _, _, signed)) => Some(signed),
        None => None,
    }
}

/// The bytes of a document's text on one line.
pub open spec fn compact_bytes(document: Json) -> Seq<u8> {
    encode_utf8(json_compact(document))
}

/// The token that is written for the parts of a token: header and claims
/// as JSON on one line, and the signature, each in URL-safe base64 without
/// padding, with a dot between two segments.
pub open spec fn written(parts: TokenContent) -> Seq<u8> {
    base64url_encoded(compact_bytes(parts.header)) + seq![DOT] + base64url_encoded(
        compact_bytes(parts.claims),
    ) + seq![DOT] + base64url_encoded(parts.signature_raw)
}

/// What the decoder makes of the token that is written for the parts: the
/// objects that the JSON parser reads back from the texts of header and
/// claims, and the same signature.
pub open spec fn read_back(parts: TokenContent) -> Result<TokenContent, DecodeError> {
    let header = object_in(compact_bytes(parts.header));
    let claims = object_in(compact_bytes(parts.claims));
    if header is None {
        Err(DecodeError::InvalidJson(Segment::Header))
    } else if claims is None {
        Err(DecodeError::InvalidJson(Segment::Payload))
    } else {
        Ok(
            TokenContent {
                header: header.unwrap(),
                claims: claims.unwrap(),
                signature_raw: parts.signature_raw,
            },
        )
    }
}

/// Whether the three parts are short enough for their encodings to be
/// written.
pub open spec fn can_be_written(parts: TokenContent) -> bool {
    &&& compact_bytes(parts.header).len() <= ENCODE_LIMIT
    &&& compact_bytes(parts.claims).len() <= ENCODE_LIMIT
    &&& parts.signature_raw.len() <= ENCODE_LIMIT
}

/// Three texts over the URL-safe alphabet, joined by dots, split again into
/// the same three.
proof fn lemma_joined_segments_split(token: Seq<u8>, a: Seq<u8>, b: Seq<u8>, c: Seq<u8>)
    requires
        token == a + seq![DOT] + b + seq![DOT] + c,
        forall|i: int| 0 <= i < a.len() ==> in_alphabet(#[trigger] a[i]),
        forall|i: int| 0 <= i < b.len() ==> in_alphabet(#[trigger] b[i]),
        forall|i: int| 0 <= i < c.len() ==> in_alphabet(#[trigger] c[i]),
    ensures
        has_three_segments(token),
        header_segment(token) == a,
        payload_segment(token) == b,
        signature_segment(token) == c,
{
    let first = a.len() as int;
    let second = first + 1 + b.len();
    assert forall|k: int| 0 <= k < token.len() && k != first && k != second implies token[k]
        != DOT by {
        if k < first {
            assert(token[k] == a[k]);
        } else if k < second {
            assert(token[k] == b[k - first - 1]);
        } else {
            assert(token[k] == c[k - second - 1]);
        }
    }
    assert(splits_at(token, first, second));
    lemma_split_names_the_dots(token, first, second);
    assert(token.subrange(0, first) =~= a);
    assert(token.subrange(first + 1, second) =~= b);
    assert(token.subrange(second + 1, token.len() as int) =~= c);
}

/// Writes the token for the parts of a token: the inverse of `decode_bytes`
/// as far as the segments and their encoding go. Decoding the result gives
/// what the JSON parser reads back from the written header and claims, and
/// the same signature. `None` where a part is too long to be encoded.
pub fn encode(parts: &TokenParts) -> (r: Option<Vec<u8>>)
    ensures
        r is Some <==> can_be_written(parts@),
        r matches Some(token) ==> token@ == written(parts@) && decoded(token@) == read_back(
            parts@,
        ),
{
    let header_text = compact_text(&parts.header);
    let claims_text = compact_text(&parts.claims);
    let header_bytes = header_text.as_str().as_bytes();
    let claims_bytes = claims_text.as_str().as_bytes();
    if header_bytes.len() > ENCODE_LIMIT || claims_bytes.len() > ENCODE_LIMIT
        || parts.signature_raw.len() > ENCODE_LIMIT {
        return None;
    }
    let header = base64url::encode(header_bytes);
    let claims = base64url::encode(claims_bytes);
    let signature = base64url::encode(parts.signature_raw.as_slice());
    let mut token: Vec<u8> = Vec::new();
    token.extend_from_slice(header.as_slice());
    token.push(DOT);
    token.extend_from_slice(claims.as_slice());
    token.push(DOT);
    token.extend_from_slice(signature.as_slice());
    proof {
        assert(token@ =~= header@ + seq![DOT] + claims@ + seq![DOT] + signature@);
        lemma_joined_segments_split(token@, header@, claims@, signature@);
    }
    Some(token)
}

/// Decodes a token, taken by the bytes of its text.
pub fn decode(token: &str) -> (r: Result<TokenParts, DecodeError>)
    ensures
        !has_three_segments(token.spec_bytes()) <==> r matches Err(DecodeError::MalformedToken),
        r matches Ok(parts) ==> decoded(token.spec_bytes()) == Ok::<TokenContent, DecodeError>(
            parts@,
        ),
        r matches Err(error) ==> decoded(token.spec_bytes()) == Err::<TokenContent, DecodeError>(
            error,
        ),
{
    decode_bytes(token.as_bytes())
}

} // verus!
