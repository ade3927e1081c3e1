//! The validity of a token: its signature, held against a secret, and its
//! expiry, held against the clock.

use crate::clock::unix_time;
use crate::instant::{is_before, number_before};
use crate::json::{json_member, json_number, json_of, member, number_of, text_of, Json};
use crate::mac::{
    constant_time_eq, hmac_sha256, hmac_sha384, hmac_sha512, sha256_tag, sha384_tag, sha512_tag,
};
use serde_json::Value;
use vstd::prelude::*;
use vstd::string::*;
use vstd::utf8::encode_utf8;

verus! {

/// The algorithm that a token's header names.
#[derive(Clone, Debug, PartialEq, Eq)]
pub enum Algorithm {
    /// HMAC with SHA-256.
    HS256,
    /// HMAC with SHA-384.
    HS384,
    /// HMAC with SHA-512.
    HS512,
    /// Any other name; the empty name where the header names none.
    Unsupported(String),
}

/// The algorithm that a token's header names, with its name as a sequence of
/// characters.
pub enum AlgorithmName {
    HS256,
    HS384,
    HS512,
    Unsupported(Seq<char>),
}

impl View for Algorithm {
    type V = AlgorithmName;

    open spec fn view(&self) -> AlgorithmName {
        match self {
            Algorithm::HS256 => AlgorithmName::HS256,
            Algorithm::HS384 => AlgorithmName::HS384,
            Algorithm::HS512 => AlgorithmName::HS512,
            Algorithm::Unsupported(name) => AlgorithmName::Unsupported(name@),
        }
    }
}

/// What the validator found of a token.
#[derive(Clone, Copy, Debug, PartialEq, Eq, Structural)]
pub enum Validity {
    /// No secret was supplied: nothing was checked.
    Unverified,
    /// The signature matches and the token has not expired.
    Valid,
    /// The signature does not match.
    InvalidSignature,
    /// The signature matches, and the token expired in the past.
    Expired,
    /// The header names an algorithm that is not of the HMAC-SHA-2 family.
    UnsupportedAlgorithm,
}

/// The algorithm with the given name.
pub open spec fn algorithm_named(name: Seq<char>) -> AlgorithmName {
    if name == "HS256"@ {
        AlgorithmName::HS256
    } else if name == "HS384"@ {
        AlgorithmName::HS384
    } else if name == "HS512"@ {
        AlgorithmName::HS512
    } else {
        AlgorithmName::Unsupported(name)
    }
}

/// The algorithm that a header names under `alg`. A header without a string
/// there names the unsupported algorithm of the empty name.
pub open spec fn algorithm_of(header: Json) -> AlgorithmName {
    match json_member(header, "alg"@) {
        Some(Json::Text(name)) => algorithm_named(name),
        _ => AlgorithmName::Unsupported(Seq::empty()),
    }
}

/// The name that stands for an algorithm in a header.
pub open spec fn algorithm_text(algorithm: AlgorithmName) -> Seq<char> {
    match algorithm {
        AlgorithmName::HS256 => "HS256"@,
        AlgorithmName::HS384 => "HS384"@,
        AlgorithmName::HS512 => "HS512"@,
        AlgorithmName::Unsupported(name) => name,
    }
}

/// The tag that the algorithm computes for `message` under `key`; `None`
/// for an unsupported algorithm.
pub open spec fn expected_tag(algorithm: AlgorithmName, key: Seq<u8>, message: Seq<u8>) -> Option<
    Seq<u8>,
> {
    match algorithm {
        AlgorithmName::HS256 => Some(hmac_sha256(key, message)),
        AlgorithmName::HS384 => Some(hmac_sha384(key, message)),
        AlgorithmName::HS512 => Some(hmac_sha512(key, message)),
        AlgorithmName::Unsupported(_) => None,
    }
}

/// The claims hold a number under `exp` that names an instant before `now`.
pub open spec fn expired_at(claims: Json, now: u64) -> bool {
    match json_member(claims, "exp"@) {
        Some(entry) => match json_number(entry) {
            Some(number) => number_before(number, now),
            None => false,
        },
        None => false,
    }
}

/// The key that the text of a secret gives: its bytes in UTF-8, and none
/// where the text is empty.
pub open spec fn text_key(secret: Seq<char>) -> Option<Seq<u8>> {
    if secret.len() == 0 {
        None
    } else {
        Some(encode_utf8(secret))
    }
}

/// The key that a secret gives: none where the secret is absent or empty.
pub open spec fn key_of(secret: Option<&str>) -> Option<Seq<u8>> {
    match secret {
        Some(text) => text_key(text@),
        None => None,
    }
}

/// The validity of a token at the second `now`, given its header, its
/// claims, its signature, the bytes that were signed and the key.
pub open spec fn validity_at(
    header: Json,
    claims: Json,
    signature: Seq<u8>,
    signing_input: Seq<u8>,
    key: Option<Seq<u8>>,
    now: u64,
) -> Validity {
    match key {
        None => Validity::Unverified,
        Some(key) => match expected_tag(algorithm_of(header), key, signing_input) {
            None => Validity::UnsupportedAlgorithm,
            Some(tag) => if tag != signature {
                Validity::InvalidSignature
            } else if expired_at(claims, now) {
                Validity::Expired
            } else {
                Validity::Valid
            },
        },
    }
}

impl Algorithm {
    /// The algorithm with the given name: one of the HMAC-SHA-2 family, or
    /// the unsupported algorithm of that name.
    pub fn from_name(name: &str) -> (r: Algorithm)
        ensures
            r@ == algorithm_named(name@),
    {
        let owned = name.to_owned();
        if owned == "HS256".to_owned() {
            Algorithm::HS256
        } else if owned == "HS384".to_owned() {
            Algorithm::HS384
        } else if owned == "HS512".to_owned() {
            Algorithm::HS512
        } else {
            Algorithm::Unsupported(owned)
        }
    }

    /// The algorithm that a header names under `alg`.
    pub fn from_header(header: &Value) -> (r: Algorithm)
        ensures
            r@ == algorithm_of(json_of(*header)),
    {
        match member(header, "alg") {
            Some(entry) => match text_of(entry) {
                Some(name) => Algorithm::from_name(name),
                None => Algorithm::Unsupported(String::new()),
            },
            None => Algorithm::Unsupported(String::new()),
        }
    }

    /// The name that stands for the algorithm in a header.
    pub fn name(&self) -> (r: String)
        ensures
            r@ == algorithm_text(self@),
    {
        match self {
            Algorithm::HS256 => "HS256".to_owned(),
            Algorithm::HS384 => "HS384".to_owned(),
            Algorithm::HS512 => "HS512".to_owned(),
            Algorithm::Unsupported(name) => name.clone(),
        }
    }

    /// Whether the validator can check a signature of this algorithm.
    pub fn is_supported(&self) -> (r: bool)
        ensures
            r == !(self@ is Unsupported),
    {
        match self {
            Algorithm::Unsupported(_) => false,
            _ => true,
        }
    }

    /// The tag of `message` under `key`; `None` for an unsupported algorithm.
    pub fn tag(&self, key: &[u8], message: &[u8]) -> (r: Option<Vec<u8>>)
        ensures
            r matches Some(tag) ==> expected_tag(self@, key@, message@) == Some(tag@),
            r is None ==> expected_tag(self@, key@, message@) is None,
    {
        match self {
            Algorithm::HS256 => Some(sha256_tag(key, message)),
            Algorithm::HS384 => Some(sha384_tag(key, message)),
            Algorithm::HS512 => Some(sha512_tag(key, message)),
            Algorithm::Unsupported(_) => None,
        }
    }
}

/// Whether the claims hold a number under `exp` that names an instant
/// before `now`.
pub fn has_expired(claims: &Value, now: u64) -> (r: bool)
    ensures
        r == expired_at(json_of(*claims), now),
{
    match member(claims, "exp") {
        Some(entry) => match number_of(entry) {
            Some(number) => is_before(number, now),
            None => false,
        },
        None => false,
    }
}

/// The validity of a token at the second `now`. Without a secret, or with
/// an empty one, nothing is checked. Otherwise the tag of `signing_input`
/// under the secret is held against `signature_raw` in constant time, and
/// where they agree `exp` is held against `now`.
pub fn validate_at(
    header: &Value,
    claims: &Value,
    signature_raw: &[u8],
    signing_input: &[u8],
    secret: Option<&str>,
    now: u64,
) -> (r: Validity)
    ensures
        r == validity_at(
            json_of(*header),
            json_of(*claims),
            signature_raw@,
            signing_input@,
            key_of(secret),
            now,
        ),
{
    let secret = match secret {
        Some(text) => text,
        None => {
            return Validity::Unverified;
        },
    };
    if secret.is_empty() {
        return Validity::Unverified;
    }
    let algorithm = Algorithm::from_header(header);
    match algorithm.tag(secret.as_bytes(), signing_input) {
        None => Validity::UnsupportedAlgorithm,
        Some(tag) => {
            if !constant_time_eq(tag.as_slice(), signature_raw) {
                Validity::InvalidSignature
            } else if has_expired(claims, now) {
                Validity::Expired
            } else {
                Validity::Valid
            }
        },
    }
}

/// The validity of a token at the present time, as the system clock gives
/// it: what `validate_at` finds for some second `now`. What does not depend
/// on the clock is stated outright.
pub fn validate(
    header: &Value,
    claims: &Value,
    signature_raw: &[u8],
    signing_input: &[u8],
    secret: Option<&str>,
) -> (r: Validity)
    ensures
        exists|now: u64|
            r == #[trigger] validity_at(
                json_of(*header),
                json_of(*claims),
                signature_raw@,
                signing_input@,
                key_of(secret),
                now,
            ),
        key_of(secret) is None <==> r == Validity::Unverified,
        key_of(secret) matches Some(key) ==> {
            let tag = expected_tag(algorithm_of(json_of(*header)), key, signing_input@);
            &&& r == Validity::UnsupportedAlgorithm <==> tag is None
            &&& r == Validity::InvalidSignature <==> tag is Some && tag != Some(signature_raw@)
            &&& (r == Validity::Valid || r == Validity::Expired) <==> tag == Some(signature_raw@)
            &&& json_member(json_of(*claims), "exp"@) is None ==> r != Validity::Expired
        },
{
    let now = unix_time();
    validate_at(header, claims, signature_raw, signing_input, secret, now)
}

} // verus!
