//! The report of a crash, as it is written to a terminal in raw mode.

use vstd::prelude::*;
use vstd::string::*;

verus! {

/// The text with a carriage return behind each line feed, so that each line
/// starts at the left edge of a terminal in raw mode.
pub open spec fn returns_added(text: Seq<char>) -> Seq<char>
    decreases text.len(),
{
    if text.len() == 0 {
        Seq::empty()
    } else if text.last() == '\n' {
        returns_added(text.drop_last()).push('\n').push('\r')
    } else {
        returns_added(text.drop_last()).push(text.last())
    }
}

/// What a crash is said to be about: the text of its payload, or a
/// placeholder where the payload is no text.
pub open spec fn payload_text(payload: Option<&str>) -> Seq<char> {
    match payload {
        Some(text) => text@,
        None => "Box<Any>"@,
    }
}

/// The report of a crash: what it is about, where it happened, and the
/// stack trace with its lines set for raw mode.
pub open spec fn report_text(payload: Option<&str>, location: Seq<char>, trace: Seq<char>) -> Seq<
    char,
> {
    "thread '<unnamed>' panicked at '"@ + payload_text(payload) + "', "@ + location + "\n\r"@
        + returns_added(trace)
}

/// The text with a carriage return behind each line feed.
pub fn add_returns(text: &str) -> (r: String)
    ensures
        r@ == returns_added(text@),
{
    let len = text.unicode_len();
    let mut out = String::new();
    let mut i: usize = 0;
    while i < len
        invariant
            i <= len,
            len == text@.len(),
            out@ == returns_added(text@.subrange(0, i as int)),
        decreases len - i,
    {
        let c = text.get_char(i);
        proof {
            let next = text@.subrange(0, i + 1);
            assert(next.drop_last() == text@.subrange(0, i as int));
            assert(next.last() == c);
        }
        out.push(c);
        if c == '\n' {
            out.push('\r');
        }
        i += 1;
    }
    proof {
        assert(text@.subrange(0, len as int) == text@);
    }
    out
}

/// The report of a crash, for a payload that is a text or none.
pub fn panic_report(payload: Option<&str>, location: &str, trace: &str) -> (r: String)
    ensures
        r@ == report_text(payload, location@, trace@),
{
    let about: &str = match payload {
        Some(text) => text,
        None => "Box<Any>",
    };
    "thread '<unnamed>' panicked at '".to_owned().concat(about).concat("', ").concat(
        location,
    ).concat("\n\r").concat(add_returns(trace).as_str())
}

} // verus!
