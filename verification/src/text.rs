//! Text: what std's `String` does to its characters, and the count of lines.

use vstd::prelude::*;
use vstd::string::*;

verus! {

/// `String::push`: the character is added at the end.
pub assume_specification[ String::push ](text: &mut String, ch: char)
    ensures
        final(text)@ == old(text)@.push(ch),
;

/// `String::pop`: the last character is taken off and returned; an empty
/// string stays as it is and gives `None`.
pub assume_specification[ String::pop ](text: &mut String) -> (r: Option<char>)
    ensures
        old(text)@.len() == 0 ==> r is None && final(text)@ == old(text)@,
        old(text)@.len() > 0 ==> r == Some(old(text)@.last()) && final(text)@ == old(
            text,
        )@.drop_last(),
;

/// The byte that ends a line.
pub const LINE_FEED: u8 = 10;

/// How many of the first `upto` bytes end a line.
pub open spec fn line_feeds(bytes: Seq<u8>, upto: int) -> nat
    decreases upto,
{
    if upto <= 0 {
        0
    } else {
        line_feeds(bytes, upto - 1) + if bytes[upto - 1] == LINE_FEED {
            1nat
        } else {
            0nat
        }
    }
}

/// The number of lines of a text: none for the empty text, else one more
/// than it has line feeds.
pub open spec fn line_count(bytes: Seq<u8>) -> nat {
    if bytes.len() == 0 {
        0
    } else {
        line_feeds(bytes, bytes.len() as int) + 1
    }
}

/// No more bytes end a line than there are bytes.
pub proof fn lemma_line_feeds_bounded(bytes: Seq<u8>, upto: int)
    requires
        0 <= upto,
    ensures
        line_feeds(bytes, upto) <= upto,
    decreases upto,
{
    if upto > 0 {
        lemma_line_feeds_bounded(bytes, upto - 1);
    }
}

/// The number of lines of a text as a machine integer: `usize::MAX` where
/// the text has more.
pub open spec fn shown_line_count(bytes: Seq<u8>) -> usize {
    if line_count(bytes) <= usize::MAX {
        line_count(bytes) as usize
    } else {
        usize::MAX
    }
}

/// The number of lines of a text, or `usize::MAX` where the text has more.
pub fn count_lines(text: &str) -> (r: usize)
    ensures
        r == shown_line_count(text.spec_bytes()),
{
    let bytes = text.as_bytes();
    let len = bytes.len();
    if len == 0 {
        return 0;
    }
    let mut feeds: usize = 0;
    let mut i: usize = 0;
    while i < len
        invariant
            i <= len,
            len == bytes@.len(),
            feeds == line_feeds(bytes@, i as int),
        decreases len - i,
    {
        proof {
            lemma_line_feeds_bounded(bytes@, i as int);
        }
        if bytes[i] == LINE_FEED {
            feeds += 1;
        }
        i += 1;
    }
    proof {
        lemma_line_feeds_bounded(bytes@, len as int);
    }
    if feeds < usize::MAX {
        feeds + 1
    } else {
        usize::MAX
    }
}

} // verus!
