//! The shape of a token: three segments, set apart by two dots.

use vstd::prelude::*;
use vstd::slice::slice_subrange;

verus! {

/// The byte that stands between two segments of a token.
pub const DOT: u8 = 46;

/// Dots stand at `first` and at `second` in `text`, and nowhere else.
pub open spec fn splits_at(text: Seq<u8>, first: int, second: int) -> bool {
    &&& 0 <= first < second < text.len()
    &&& text[first] == DOT
    &&& text[second] == DOT
    &&& forall|k: int| 0 <= k < text.len() && k != first && k != second ==> text[k] != DOT
}

/// `text` has the shape `a.b.c`: it holds exactly two dots.
pub open spec fn has_three_segments(text: Seq<u8>) -> bool {
    exists|first: int, second: int| splits_at(text, first, second)
}

/// Where the two dots of a token of three segments stand.
pub open spec fn dots(text: Seq<u8>) -> (int, int) {
    choose|first: int, second: int| splits_at(text, first, second)
}

/// Where the first dot of a token of three segments stands.
pub open spec fn first_dot(text: Seq<u8>) -> int {
    dots(text).0
}

/// Where the second dot of a token of three segments stands.
pub open spec fn second_dot(text: Seq<u8>) -> int {
    dots(text).1
}

/// The first segment: what stands before the first dot.
pub open spec fn header_segment(text: Seq<u8>) -> Seq<u8> {
    text.subrange(0, first_dot(text))
}

/// The second segment: what stands between the two dots.
pub open spec fn payload_segment(text: Seq<u8>) -> Seq<u8> {
    text.subrange(first_dot(text) + 1, second_dot(text))
}

/// The third segment: what stands behind the second dot.
pub open spec fn signature_segment(text: Seq<u8>) -> Seq<u8> {
    text.subrange(second_dot(text) + 1, text.len() as int)
}

/// What a signature is computed over: the first two segments and the dot
/// between them, byte for byte as the token holds them.
pub open spec fn signing_input(text: Seq<u8>) -> Seq<u8> {
    text.subrange(0, second_dot(text))
}

/// A text splits in one way at most.
pub proof fn lemma_split_is_unique(text: Seq<u8>, a: int, b: int, c: int, d: int)
    requires
        splits_at(text, a, b),
        splits_at(text, c, d),
    ensures
        a == c,
        b == d,
{
    assert(text[a] == DOT && text[b] == DOT && text[c] == DOT && text[d] == DOT);
}

/// The dots of a split are the ones that `first_dot` and `second_dot` name.
pub proof fn lemma_split_names_the_dots(text: Seq<u8>, first: int, second: int)
    requires
        splits_at(text, first, second),
    ensures
        has_three_segments(text),
        first_dot(text) == first,
        second_dot(text) == second,
{
    let (f, s) = dots(text);
    assert(splits_at(text, f, s));
    lemma_split_is_unique(text, first, second, f, s);
}

/// The places of the two dots of a token, where it has exactly two.
pub fn find_split(text: &[u8]) -> (r: Option<(usize, usize)>)
    ensures
        r matches Some((first, second)) ==> splits_at(text@, first as int, second as int),
        r is None ==> !has_three_segments(text@),
{
    let mut first: usize = 0;
    let mut second: usize = 0;
    let mut seen: u8 = 0;
    let mut k: usize = 0;
    while k < text.len()
        invariant
            k <= text.len(),
            seen <= 2,
            seen == 0 ==> forall|m: int| 0 <= m < k ==> text@[m] != DOT,
            seen >= 1 ==> first < k && text@[first as int] == DOT,
            seen == 1 ==> forall|m: int| 0 <= m < k && m != first ==> text@[m] != DOT,
            seen == 2 ==> first < second < k && text@[second as int] == DOT,
            seen == 2 ==> forall|m: int| 0 <= m < k && m != first && m != second ==> text@[m] != DOT,
        decreases text.len() - k,
    {
        if text[k] == DOT {
            if seen == 0 {
                first = k;
                seen = 1;
            } else if seen == 1 {
                second = k;
                seen = 2;
            } else {
                proof {
                    assert forall|a: int, b: int| !splits_at(text@, a, b) by {
                        if splits_at(text@, a, b) {
                            assert(text@[first as int] == DOT);
                            assert(text@[second as int] == DOT);
                            assert(text@[k as int] == DOT);
                        }
                    }
                }
                return None;
            }
        }
        k += 1;
    }
    if seen == 2 {
        Some((first, second))
    } else {
        proof {
            assert forall|a: int, b: int| !splits_at(text@, a, b) by {
                if splits_at(text@, a, b) {
                    assert(text@[a] == DOT);
                    assert(text@[b] == DOT);
                }
            }
        }
        None
    }
}

/// The three segments of a token and its signing input, or `None` where the
/// token does not have exactly two dots.
pub fn split_segments<'a>(text: &'a [u8]) -> (r: Option<(&'a [u8], &'a [u8], &'a [u8], &'a [u8])>)
    ensures
        r is Some <==> has_three_segments(text@),
        r matches Some((header, payload, signature, signed)) ==> {
            &&& header@ == header_segment(text@)
            &&& payload@ == payload_segment(text@)
            &&& signature@ == signature_segment(text@)
            &&& signed@ == signing_input(text@)
        },
{
    let len = text.len();
    match find_split(text) {
        None => None,
        Some((first, second)) => {
            proof {
                assert(splits_at(text@, first as int, second as int));
                lemma_split_names_the_dots(text@, first as int, second as int);
            }
            let header = slice_subrange(text, 0, first);
            let payload = slice_subrange(text, first + 1, second);
            let signature = slice_subrange(text, second + 1, len);
            let signed = slice_subrange(text, 0, second);
            Some((header, payload, signature, signed))
        },
    }
}

} // verus!
