//! Message authentication codes of the HMAC-SHA-2 family, as the `hmac` and
//! `sha2` crates compute them.

use hmac::{Hmac, Mac};
use sha2::{Sha256, Sha384, Sha512};
use vstd::prelude::*;

verus! {

/// The HMAC-SHA-256 tag of `message` under `key`.
pub uninterp spec fn hmac_sha256(key: Seq<u8>, message: Seq<u8>) -> Seq<u8>;

/// The HMAC-SHA-384 tag of `message` under `key`.
pub uninterp spec fn hmac_sha384(key: Seq<u8>, message: Seq<u8>) -> Seq<u8>;

/// The HMAC-SHA-512 tag of `message` under `key`.
pub uninterp spec fn hmac_sha512(key: Seq<u8>, message: Seq<u8>) -> Seq<u8>;

/// `Hmac::<Sha256>`: `new_from_slice`, which takes a key of any length,
/// `update` and `finalize`. The result is the tag of `message` under `key`.
#[verifier::external_body]
pub(crate) fn sha256_tag(key: &[u8], message: &[u8]) -> (tag: Vec<u8>)
    ensures
        tag@ == hmac_sha256(key@, message@),
{
    <Hmac<Sha256> as Mac>::new_from_slice(key).map(
        |mut mac| {
            mac.update(message);
            mac.finalize().into_bytes().to_vec()
        },
    ).unwrap_or_default()
}

/// `Hmac::<Sha384>`: `new_from_slice`, which takes a key of any length,
/// `update` and `finalize`. The result is the tag of `message` under `key`.
#[verifier::external_body]
pub(crate) fn sha384_tag(key: &[u8], message: &[u8]) -> (tag: Vec<u8>)
    ensures
        tag@ == hmac_sha384(key@, message@),
{
    <Hmac<Sha384> as Mac>::new_from_slice(key).map(
        |mut mac| {
            mac.update(message);
            mac.finalize().into_bytes().to_vec()
        },
    ).unwrap_or_default()
}

/// `Hmac::<Sha512>`: `new_from_slice`, which takes a key of any length,
/// `update` and `finalize`. The result is the tag of `message` under `key`.
#[verifier::external_body]
pub(crate) fn sha512_tag(key: &[u8], message: &[u8]) -> (tag: Vec<u8>)
    ensures
        tag@ == hmac_sha512(key@, message@),
{
    <Hmac<Sha512> as Mac>::new_from_slice(key).map(
        |mut mac| {
            mac.update(message);
            mac.finalize().into_bytes().to_vec()
        },
    ).unwrap_or_default()
}

/// Whether two byte strings are equal. The time taken depends on their
/// lengths alone: every pair of bytes is looked at, whatever the earlier
/// pairs held.
pub fn constant_time_eq(left: &[u8], right: &[u8]) -> (r: bool)
    ensures
        r == (left@ == right@),
{
    if left.len() != right.len() {
        return false;
    }
    let mut difference: u8 = 0;
    let mut i: usize = 0;
    proof {
        assert(left@.subrange(0, 0) =~= right@.subrange(0, 0));
    }
    while i < left.len()
        invariant
            i <= left.len(),
            left.len() == right.len(),
            difference == 0 <==> left@.subrange(0, i as int) == right@.subrange(0, i as int),
        decreases left.len() - i,
    {
        let x: u8 = left[i];
        let y: u8 = right[i];
        let mixed: u8 = difference | (x ^ y);
        proof {
            assert(mixed == 0 <==> (difference == 0 && x == y)) by (bit_vector)
                requires
                    mixed == difference | (x ^ y),
            ;
            let before_left = left@.subrange(0, i as int);
            let before_right = right@.subrange(0, i as int);
            let after_left = left@.subrange(0, i + 1);
            let after_right = right@.subrange(0, i + 1);
            assert(after_left.drop_last() == before_left);
            assert(after_right.drop_last() == before_right);
            assert(after_left.last() == x && after_right.last() == y);
            if before_left == before_right && x == y {
                assert(after_left =~= after_right);
            }
        }
        difference = mixed;
        i += 1;
    }
    proof {
        assert(left@.subrange(0, i as int) == left@);
        assert(right@.subrange(0, i as int) == right@);
    }
    difference == 0
}

} // verus!
