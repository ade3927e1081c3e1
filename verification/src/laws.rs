//! What holds of the decoder, the validator and the session, whatever the
//! token, the secret, the clock and the keys.

use crate::codec::{decoded, DecodeError, TokenContent};
use crate::event::{Event, Key};
use crate::json::{json_member, json_number, Json, JsonNumber};
use crate::outcome::{outcome_at, DecodeOutcome};
use crate::session::{
    after_event, after_key, committed, flow_after, scroll_limit, tab_after, Flow, Mode, Session,
};
use crate::token::has_three_segments;
use crate::validator::{
    algorithm_of, expected_tag, expired_at, key_of, text_key, validity_at, Validity,
};
use vstd::prelude::*;
use vstd::utf8::encode_utf8;

verus! {

/// A text is refused as malformed if and only if it does not have the shape
/// `a.b.c`; no other error is given for such a text.
pub proof fn malformed_iff_not_three_segments(token: Seq<u8>)
    ensures
        !has_three_segments(token) <==> decoded(token) == Err::<TokenContent, DecodeError>(
            DecodeError::MalformedToken,
        ),
{
}

/// Without a key the validity is `Unverified`, whatever header, claims,
/// signature and clock; and an absent or empty secret gives no key.
pub proof fn no_secret_is_unverified(
    header: Json,
    claims: Json,
    signature: Seq<u8>,
    signing_input: Seq<u8>,
    now: u64,
    empty: &str,
)
    requires
        empty@.len() == 0,
    ensures
        validity_at(header, claims, signature, signing_input, None, now) == Validity::Unverified,
        key_of(None) is None,
        key_of(Some(empty)) is None,
{
}

/// The validity is `Unverified` only where there is no key.
pub proof fn unverified_iff_no_key(
    header: Json,
    claims: Json,
    signature: Seq<u8>,
    signing_input: Seq<u8>,
    key: Option<Seq<u8>>,
    now: u64,
)
    ensures
        validity_at(header, claims, signature, signing_input, key, now) == Validity::Unverified
            <==> key is None,
{
}

/// The outcome of a token that decodes is `Unverified` if and only if no
/// key was given.
pub proof fn outcome_unverified_iff_no_key(token: Seq<u8>, key: Option<Seq<u8>>, now: u64)
    ensures
        outcome_at(token, key, now) matches Ok(outcome) ==> (outcome.validity
            == Validity::Unverified <==> key is None),
        outcome_at(token, key, now) is Ok <==> decoded(token) is Ok,
{
}

/// Where the signature is the tag of a supported algorithm under the key,
/// the token is `Expired` if `exp` names an instant before `now`, and
/// `Valid` otherwise: so where `exp` is absent or not a number.
pub proof fn matching_signature_is_valid_until_expiry(
    header: Json,
    claims: Json,
    signature: Seq<u8>,
    signing_input: Seq<u8>,
    key: Seq<u8>,
    now: u64,
)
    requires
        expected_tag(algorithm_of(header), key, signing_input) == Some(signature),
    ensures
        expired_at(claims, now) ==> validity_at(
            header,
            claims,
            signature,
            signing_input,
            Some(key),
            now,
        ) == Validity::Expired,
        !expired_at(claims, now) ==> validity_at(
            header,
            claims,
            signature,
            signing_input,
            Some(key),
            now,
        ) == Validity::Valid,
        json_member(claims, "exp"@) is None ==> !expired_at(claims, now),
        json_member(claims, "exp"@) matches Some(entry) && json_number(entry) is None
            ==> !expired_at(claims, now),
{
}

/// Where `exp` is a whole number of seconds, the same signature bytes are
/// `Valid` as long as the clock has not passed it, and `Expired` after.
pub proof fn whole_expiry_splits_valid_from_expired(
    header: Json,
    claims: Json,
    signature: Seq<u8>,
    signing_input: Seq<u8>,
    key: Seq<u8>,
    exp: u64,
    earlier: u64,
    later: u64,
)
    requires
        expected_tag(algorithm_of(header), key, signing_input) == Some(signature),
        json_member(claims, "exp"@) == Some(Json::Number(JsonNumber::Unsigned(exp))),
        earlier <= exp < later,
    ensures
        validity_at(header, claims, signature, signing_input, Some(key), earlier)
            == Validity::Valid,
        validity_at(header, claims, signature, signing_input, Some(key), later)
            == Validity::Expired,
{
}

/// A token that was `Valid` is an `InvalidSignature` once its signed bytes
/// are changed while header, signature and key stay, provided that the
/// changed bytes do not have the same tag as the bytes that were signed.
pub proof fn changed_payload_is_an_invalid_signature(
    header: Json,
    claims: Json,
    changed_claims: Json,
    signature: Seq<u8>,
    signing_input: Seq<u8>,
    changed_input: Seq<u8>,
    key: Seq<u8>,
    now: u64,
)
    requires
        validity_at(header, claims, signature, signing_input, Some(key), now) == Validity::Valid,
        expected_tag(algorithm_of(header), key, changed_input) != expected_tag(
            algorithm_of(header),
            key,
            signing_input,
        ),
    ensures
        validity_at(header, changed_claims, signature, changed_input, Some(key), now)
            == Validity::InvalidSignature,
{
}

/// While viewing, the tab key leads through exactly three tabs and is back
/// at the first after three presses; each press resets the scroll offset
/// and changes nothing else.
pub proof fn three_tabs_come_round(session: Session, first: u64, second: u64, third: u64)
    requires
        session.mode == Mode::Viewing,
    ensures
        ({
            let one = after_key(session, Key::Tab, first);
            let two = after_key(one, Key::Tab, second);
            let three = after_key(two, Key::Tab, third);
            &&& one == Session { active_tab: tab_after(session.active_tab), scroll: 0, ..session }
            &&& one.active_tab != session.active_tab
            &&& two.active_tab != session.active_tab
            &&& two.active_tab != one.active_tab
            &&& three.active_tab == session.active_tab
            &&& three == Session { scroll: 0, ..session }
        }),
{
}

/// Committing an edited token that does not decode sets the error to the
/// decoder's message, which is not empty, and leaves the result and the
/// scroll offset as they were; the session views again.
pub proof fn failed_commit_keeps_the_result(session: Session, now: u64)
    requires
        session.mode == Mode::EditingToken,
        decoded(encode_utf8(session.input_buffer)) is Err,
    ensures
        ({
            let after = committed(session, now);
            let error = decoded(encode_utf8(session.input_buffer))->Err_0;
            &&& after == after_key(session, Key::Enter, now)
            &&& after.result == session.result
            &&& after.scroll == session.scroll
            &&& after.error == error.message_text()
            &&& after.error.len() > 0
            &&& after.token == session.input_buffer
            &&& after.mode == Mode::Viewing
        }),
{
    let error = decoded(encode_utf8(session.input_buffer))->Err_0;
    message_is_not_empty(error);
}

/// Committing a token that decodes replaces the result, clears the error
/// and resets the scroll offset.
pub proof fn successful_commit_replaces_the_result(session: Session, now: u64)
    requires
        session.mode == Mode::EditingToken,
        decoded(encode_utf8(session.input_buffer)) is Ok,
    ensures
        ({
            let after = committed(session, now);
            &&& Ok::<DecodeOutcome, DecodeError>(after.result->0) == outcome_at(
                encode_utf8(session.input_buffer),
                text_key(session.secret),
                now,
            )
            &&& after.result is Some
            &&& after.error.len() == 0
            &&& after.scroll == 0
            &&& after.mode == Mode::Viewing
        }),
{
}

/// Every message of the decoder holds at least one character.
pub proof fn message_is_not_empty(error: DecodeError)
    ensures
        error.message_text().len() > 0,
{
    reveal_strlit("malformed token: expected three segments separated by '.'");
    reveal_strlit("invalid base64url encoding in the ");
    reveal_strlit("invalid JSON object in the ");
}

/// No event changes the viewport; ticks and pointer activity change
/// nothing; only control-C ends the session, and it changes nothing.
pub proof fn events_keep_what_is_not_theirs(session: Session, event: Event, now: u64)
    ensures
        after_event(session, event, now).viewport == session.viewport,
        event is Tick || event is PointerInput ==> after_event(session, event, now) == session,
        flow_after(event) == Flow::Quit <==> event == Event::KeyInput(Key::Ctrl('c')),
        flow_after(event) == Flow::Quit ==> after_event(session, event, now) == session,
{
}

/// Escape leaves an editing mode without decoding: the buffer is dropped,
/// and token, secret, result and error stay.
pub proof fn escape_discards_the_edit(session: Session, now: u64)
    requires
        session.mode != Mode::Viewing,
    ensures
        after_key(session, Key::Esc, now) == (Session {
            mode: Mode::Viewing,
            input_buffer: Seq::empty(),
            ..session
        }),
{
}

/// The scroll offset changes by one step at most, never falls below 0, and
/// a downward step never leads beyond the lines that do not fit the
/// viewport.
pub proof fn scrolling_stays_in_bounds(session: Session, now: u64)
    requires
        session.mode == Mode::Viewing,
    ensures
        ({
            let up = after_key(session, Key::Up, now);
            let down = after_key(session, Key::Down, now);
            &&& up.scroll == if session.scroll == 0 {
                0
            } else {
                session.scroll - 1
            }
            &&& down.scroll <= scroll_limit(session)
            &&& down.scroll <= session.scroll + 1
            &&& up == Session { scroll: up.scroll, ..session }
            &&& down == Session { scroll: down.scroll, ..session }
        }),
{
}

} // verus!
