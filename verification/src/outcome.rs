//! The outcome of decoding and validating a token, and its two printed
//! forms.

use crate::clock::unix_time;
use crate::codec::{decode_bytes, decoded, signing_input_of, DecodeError, TokenContent};
use crate::json::{compact_text, json_compact, json_of, json_pretty, pretty_text, text_value, Json};
use crate::token::signing_input;
use crate::validator::{
    algorithm_of, algorithm_text, key_of, validate_at, validity_at, Algorithm, AlgorithmName,
    Validity,
};
use serde_json::Value;
use vstd::prelude::*;
use vstd::string::*;

verus! {

/// What decoding and validating a token gave.
#[derive(Clone, Debug)]
pub struct DecodeResult {
    /// The JSON object of the first segment.
    pub header: Value,
    /// The JSON object of the second segment.
    pub claims: Value,
    /// The bytes of the third segment.
    pub signature_raw: Vec<u8>,
    /// The algorithm that the header names.
    pub algorithm: Algorithm,
    /// What the validator found.
    pub validity: Validity,
}

/// The content of a `DecodeResult`.
pub struct DecodeOutcome {
    pub header: Json,
    pub claims: Json,
    pub signature_raw: Seq<u8>,
    pub algorithm: AlgorithmName,
    pub validity: Validity,
}

impl View for DecodeResult {
    type V = DecodeOutcome;

    open spec fn view(&self) -> DecodeOutcome {
        DecodeOutcome {
            header: json_of(self.header),
            claims: json_of(self.claims),
            signature_raw: self.signature_raw@,
            algorithm: self.algorithm@,
            validity: self.validity,
        }
    }
}

/// The outcome for a token with the given bytes, under the given key, at
/// the second `now`: the error of the decoder, or the decoded parts with
/// the algorithm that the header names and the validity of the token.
pub open spec fn outcome_at(token: Seq<u8>, key: Option<Seq<u8>>, now: u64) -> Result<
    DecodeOutcome,
    DecodeError,
> {
    match decoded(token) {
        Err(error) => Err(error),
        Ok(parts) => Ok(
            DecodeOutcome {
                header: parts.header,
                claims: parts.claims,
                signature_raw: parts.signature_raw,
                algorithm: algorithm_of(parts.header),
                validity: validity_at(
                    parts.header,
                    parts.claims,
                    parts.signature_raw,
                    signing_input(token),
                    key,
                    now,
                ),
            },
        ),
    }
}

/// What a validity reads as in the plain form.
pub open spec fn validity_text(validity: Validity) -> Seq<char> {
    match validity {
        Validity::Unverified => "Unverified"@,
        Validity::Valid => "Valid"@,
        Validity::InvalidSignature => "Invalid signature"@,
        Validity::Expired => "Expired"@,
        Validity::UnsupportedAlgorithm => "Unsupported algorithm"@,
    }
}

/// What stands under `signature_valid` in the JSON form: `null` where
/// nothing was checked, `true` where the signature matched (an expired
/// token's signature did), `false` otherwise.
pub open spec fn signature_valid_text(validity: Validity) -> Seq<char> {
    match validity {
        Validity::Unverified => "null"@,
        Validity::Valid => "true"@,
        Validity::Expired => "true"@,
        Validity::InvalidSignature => "false"@,
        Validity::UnsupportedAlgorithm => "false"@,
    }
}

/// The JSON form: one object on one line, with the keys `header`,
/// `payload`, `signature_valid` and `algorithm` in this order.
pub open spec fn json_form(outcome: DecodeOutcome) -> Seq<char> {
    "{\"header\":"@ + json_compact(outcome.header) + ",\"payload\":"@ + json_compact(
        outcome.claims,
    ) + ",\"signature_valid\":"@ + signature_valid_text(outcome.validity) + ",\"algorithm\":"@
        + json_compact(Json::Text(algorithm_text(outcome.algorithm))) + "}"@
}

/// The plain form: the algorithm, the validity, then header and claims as
/// indented JSON.
pub open spec fn plain_form(outcome: DecodeOutcome) -> Seq<char> {
    "Algorithm: "@ + algorithm_text(outcome.algorithm) + "\nValidity: "@ + validity_text(
        outcome.validity,
    ) + "\nHeader:\n"@ + json_pretty(outcome.header) + "\nClaims:\n"@ + json_pretty(
        outcome.claims,
    )
}

/// The printed form of an outcome.
pub open spec fn formatted(outcome: DecodeOutcome, as_json: bool) -> Seq<char> {
    if as_json {
        json_form(outcome)
    } else {
        plain_form(outcome)
    }
}

/// The printed form of a decoder's error: its message, in the JSON form as
/// the one entry `error` of an object.
pub open spec fn error_form(error: DecodeError, as_json: bool) -> Seq<char> {
    if as_json {
        "{\"error\":"@ + json_compact(Json::Text(error.message_text())) + "}"@
    } else {
        error.message_text()
    }
}

/// What is printed for a token: the form of its outcome, or that of the
/// error.
pub open spec fn report_at(token: Seq<u8>, key: Option<Seq<u8>>, as_json: bool, now: u64) -> Seq<
    char,
> {
    match outcome_at(token, key, now) {
        Ok(outcome) => formatted(outcome, as_json),
        Err(error) => error_form(error, as_json),
    }
}

impl Validity {
    /// What the validity reads as in the plain form.
    pub fn label(&self) -> (r: &'static str)
        ensures
            r@ == validity_text(*self),
    {
        match self {
            Validity::Unverified => "Unverified",
            Validity::Valid => "Valid",
            Validity::InvalidSignature => "Invalid signature",
            Validity::Expired => "Expired",
            Validity::UnsupportedAlgorithm => "Unsupported algorithm",
        }
    }

    /// Whether the signature matched: `None` where nothing was checked.
    pub fn signature_valid(&self) -> (r: Option<bool>)
        ensures
            r == (match *self {
                Validity::Unverified => None,
                Validity::Valid => Some(true),
                Validity::Expired => Some(true),
                Validity::InvalidSignature => Some(false),
                Validity::UnsupportedAlgorithm => Some(false),
            }),
    {
        match self {
            Validity::Unverified => None,
            Validity::Valid => Some(true),
            Validity::Expired => Some(true),
            Validity::InvalidSignature => Some(false),
            Validity::UnsupportedAlgorithm => Some(false),
        }
    }

    /// What stands under `signature_valid` in the JSON form.
    pub fn signature_valid_label(&self) -> (r: &'static str)
        ensures
            r@ == signature_valid_text(*self),
    {
        match self.signature_valid() {
            None => "null",
            Some(true) => "true",
            Some(false) => "false",
        }
    }
}

/// Decodes and validates a token at the second `now`.
pub fn decode_token_at(token: &str, secret: Option<&str>, now: u64) -> (r: Result<
    DecodeResult,
    DecodeError,
>)
    ensures
        r matches Ok(result) ==> outcome_at(token.spec_bytes(), key_of(secret), now) == Ok::<
            DecodeOutcome,
            DecodeError,
        >(result@),
        r matches Err(error) ==> outcome_at(token.spec_bytes(), key_of(secret), now) == Err::<
            DecodeOutcome,
            DecodeError,
        >(error),
{
    let bytes = token.as_bytes();
    let parts = match decode_bytes(bytes) {
        Ok(parts) => parts,
        Err(error) => {
            return Err(error);
        },
    };
    let signed: &[u8] = match signing_input_of(bytes) {
        Some(signed) => signed,
        None => {
            return Err(DecodeError::MalformedToken);
        },
    };
    let algorithm = Algorithm::from_header(&parts.header);
    let validity = validate_at(
        &parts.header,
        &parts.claims,
        parts.signature_raw.as_slice(),
        signed,
        secret,
        now,
    );
    Ok(
        DecodeResult {
            header: parts.header,
            claims: parts.claims,
            signature_raw: parts.signature_raw,
            algorithm,
            validity,
        },
    )
}

/// Decodes and validates a token at the present time, as the system clock
/// gives it: what `decode_token_at` gives for some second `now`.
pub fn decode_token(token: &str, secret: Option<&str>) -> (r: Result<DecodeResult, DecodeError>)
    ensures
        exists|now: u64|
            {
                &&& r matches Ok(result) ==> #[trigger] outcome_at(
                    token.spec_bytes(),
                    key_of(secret),
                    now,
                ) == Ok::<DecodeOutcome, DecodeError>(result@)
                &&& r matches Err(error) ==> outcome_at(token.spec_bytes(), key_of(secret), now)
                    == Err::<DecodeOutcome, DecodeError>(error)
            },
        r matches Err(error) ==> decoded(token.spec_bytes()) == Err::<TokenContent, DecodeError>(
            error,
        ),
        r is Ok ==> decoded(token.spec_bytes()) is Ok,
{
    let now = unix_time();
    decode_token_at(token, secret, now)
}

/// The printed form of a result: one JSON object on one line, or the plain
/// form over several lines.
pub fn format(result: &DecodeResult, as_json: bool) -> (r: String)
    ensures
        r@ == formatted(result@, as_json),
{
    if as_json {
        let name = result.algorithm.name();
        let quoted = compact_text(&text_value(name.as_str()));
        "{\"header\":".to_owned().concat(compact_text(&result.header).as_str()).concat(
            ",\"payload\":",
        ).concat(compact_text(&result.claims).as_str()).concat(",\"signature_valid\":").concat(
            result.validity.signature_valid_label(),
        ).concat(",\"algorithm\":").concat(quoted.as_str()).concat("}")
    } else {
        "Algorithm: ".to_owned().concat(result.algorithm.name().as_str()).concat(
            "\nValidity: ",
        ).concat(result.validity.label()).concat("\nHeader:\n").concat(
            pretty_text(&result.header).as_str(),
        ).concat("\nClaims:\n").concat(pretty_text(&result.claims).as_str())
    }
}

/// The printed form of a decoder's error.
pub fn format_error(error: &DecodeError, as_json: bool) -> (r: String)
    ensures
        r@ == error_form(*error, as_json),
{
    let message = error.message();
    if as_json {
        let quoted = compact_text(&text_value(message.as_str()));
        "{\"error\":".to_owned().concat(quoted.as_str()).concat("}")
    } else {
        message
    }
}

/// What is printed for a token at the second `now`: the form of its
/// outcome, or that of the decoder's error.
pub fn report_token_at(token: &str, secret: Option<&str>, as_json: bool, now: u64) -> (r: String)
    ensures
        r@ == report_at(token.spec_bytes(), key_of(secret), as_json, now),
{
    match decode_token_at(token, secret, now) {
        Ok(result) => format(&result, as_json),
        Err(error) => format_error(&error, as_json),
    }
}

} // verus!
