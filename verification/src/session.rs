//! The state of an interactive session, and how each event changes it.

use crate::clock::unix_time;
use crate::codec::decoded;
use crate::event::{Event, Key, PointerEvent};
use crate::json::{json_pretty, pretty_text};
use crate::outcome::{decode_token_at, outcome_at, DecodeOutcome, DecodeResult};
use crate::text::{count_lines, shown_line_count};
use crate::validator::text_key;
use vstd::prelude::*;
use vstd::string::*;
use vstd::utf8::encode_utf8;

verus! {

/// What the keys mean at the moment.
#[derive(Clone, Copy, Debug, PartialEq, Eq, Structural)]
pub enum Mode {
    /// The decoded token is shown.
    Viewing,
    /// The token is being edited in the input buffer.
    EditingToken,
    /// The secret is being edited in the input buffer.
    EditingSecret,
}

/// The section of the decoded token that has the focus.
#[derive(Clone, Copy, Debug, PartialEq, Eq, Structural)]
pub enum Tab {
    Header,
    Payload,
    Secret,
}

/// The size of the terminal, in cells.
#[derive(Clone, Copy, Debug, PartialEq, Eq, Structural)]
pub struct Viewport {
    pub width: u16,
    pub height: u16,
}

/// What the session loop does after an event.
#[derive(Clone, Copy, Debug, PartialEq, Eq, Structural)]
pub enum Flow {
    /// Draw again and wait for the next event.
    Continue,
    /// Leave the loop.
    Quit,
}

/// The state of a session.
#[derive(Clone, Debug)]
pub struct SessionState {
    /// The token that was decoded last, or that is to be decoded.
    pub token: String,
    /// The secret that signatures are held against; empty for none.
    pub secret: String,
    /// The outcome of the last decode that succeeded.
    pub result: Option<DecodeResult>,
    /// The message of the last failure; empty after a success.
    pub error: String,
    /// What the keys mean at the moment.
    pub mode: Mode,
    /// The section that has the focus.
    pub active_tab: Tab,
    /// How many lines of the focused section are scrolled away.
    pub scroll: usize,
    /// The text that is being edited, outside the viewing mode.
    pub input_buffer: String,
    /// The size of the terminal, as the render loop last saw it.
    pub viewport: Viewport,
}

/// The content of a session's state.
pub struct Session {
    pub token: Seq<char>,
    pub secret: Seq<char>,
    pub result: Option<DecodeOutcome>,
    pub error: Seq<char>,
    pub mode: Mode,
    pub active_tab: Tab,
    pub scroll: usize,
    pub input_buffer: Seq<char>,
    pub viewport: Viewport,
}

impl View for SessionState {
    type V = Session;

    open spec fn view(&self) -> Session {
        Session {
            token: self.token@,
            secret: self.secret@,
            result: match self.result {
                Some(result) => Some(result@),
                None => None,
            },
            error: self.error@,
            mode: self.mode,
            active_tab: self.active_tab,
            scroll: self.scroll,
            input_buffer: self.input_buffer@,
            viewport: self.viewport,
        }
    }
}

/// The tab that follows in the cycle header, payload, secret.
pub open spec fn tab_after(tab: Tab) -> Tab {
    match tab {
        Tab::Header => Tab::Payload,
        Tab::Payload => Tab::Secret,
        Tab::Secret => Tab::Header,
    }
}

/// How many lines a tab shows: those of the indented header or claims, none
/// where nothing is decoded, and those of the secret.
pub open spec fn shown_lines(session: Session, tab: Tab) -> usize {
    match tab {
        Tab::Header => match session.result {
            Some(outcome) => shown_line_count(encode_utf8(json_pretty(outcome.header))),
            None => 0,
        },
        Tab::Payload => match session.result {
            Some(outcome) => shown_line_count(encode_utf8(json_pretty(outcome.claims))),
            None => 0,
        },
        Tab::Secret => shown_line_count(encode_utf8(session.secret)),
    }
}

/// The greatest scroll offset that a downward step leads to: the lines of
/// the focused tab that do not fit the viewport's height.
pub open spec fn scroll_limit(session: Session) -> usize {
    let lines = shown_lines(session, session.active_tab);
    if lines > session.viewport.height {
        (lines - session.viewport.height) as usize
    } else {
        0
    }
}

/// The state at startup: a token that is not empty is decoded.
pub open spec fn started(token: Seq<char>, secret: Seq<char>, viewport: Viewport, now: u64)
    -> Session {
    let blank = Session {
        token,
        secret,
        result: None,
        error: Seq::empty(),
        mode: Mode::Viewing,
        active_tab: Tab::Header,
        scroll: 0,
        input_buffer: Seq::empty(),
        viewport,
    };
    if token.len() == 0 {
        blank
    } else {
        decoded_anew(blank, now)
    }
}

/// The state after token and secret were decoded anew: a success replaces
/// the result, clears the error and resets the scroll offset; a failure
/// sets the error and leaves result and scroll offset as they were.
pub open spec fn decoded_anew(session: Session, now: u64) -> Session {
    match outcome_at(encode_utf8(session.token), text_key(session.secret), now) {
        Ok(outcome) => Session {
            result: Some(outcome),
            error: Seq::empty(),
            scroll: 0,
            ..session
        },
        Err(error) => Session { error: error.message_text(), ..session },
    }
}

/// The state after the input buffer was committed: it becomes the token or
/// the secret, whichever was edited, and is emptied; the session views
/// again, and token and secret are decoded anew.
pub open spec fn committed(session: Session, now: u64) -> Session {
    let taken = Session {
        token: if session.mode == Mode::EditingToken {
            session.input_buffer
        } else {
            session.token
        },
        secret: if session.mode == Mode::EditingSecret {
            session.input_buffer
        } else {
            session.secret
        },
        mode: Mode::Viewing,
        input_buffer: Seq::empty(),
        ..session
    };
    decoded_anew(taken, now)
}

/// The state after a key in the viewing mode.
pub open spec fn after_viewing_key(session: Session, key: Key) -> Session {
    match key {
        Key::Tab => Session { active_tab: tab_after(session.active_tab), scroll: 0, ..session },
        Key::Char(c) => if c == 't' {
            Session { mode: Mode::EditingToken, input_buffer: session.token, ..session }
        } else if c == 'e' && session.active_tab == Tab::Secret {
            Session { mode: Mode::EditingSecret, input_buffer: session.secret, ..session }
        } else {
            session
        },
        Key::Up => Session {
            scroll: if session.scroll > 0 {
                (session.scroll - 1) as usize
            } else {
                0
            },
            ..session
        },
        Key::Down => Session {
            scroll: if session.scroll < scroll_limit(session) {
                (session.scroll + 1) as usize
            } else {
                scroll_limit(session)
            },
            ..session
        },
        _ => session,
    }
}

/// The state after a key in one of the two editing modes.
pub open spec fn after_editing_key(session: Session, key: Key, now: u64) -> Session {
    match key {
        Key::Char(c) => Session { input_buffer: session.input_buffer.push(c), ..session },
        Key::Backspace => Session {
            input_buffer: if session.input_buffer.len() > 0 {
                session.input_buffer.drop_last()
            } else {
                session.input_buffer
            },
            ..session
        },
        Key::Enter => committed(session, now),
        Key::Esc => Session { mode: Mode::Viewing, input_buffer: Seq::empty(), ..session },
        _ => session,
    }
}

/// The state after a key. Control-C changes nothing: it ends the session.
pub open spec fn after_key(session: Session, key: Key, now: u64) -> Session {
    if key == Key::Ctrl('c') {
        session
    } else if session.mode == Mode::Viewing {
        after_viewing_key(session, key)
    } else {
        after_editing_key(session, key, now)
    }
}

/// The state after an event: only keys change it.
pub open spec fn after_event(session: Session, event: Event, now: u64) -> Session {
    match event {
        Event::KeyInput(key) => after_key(session, key, now),
        Event::PointerInput(_) => session,
        Event::Tick => session,
    }
}

/// What the loop does after an event: it quits on control-C alone.
pub open spec fn flow_after(event: Event) -> Flow {
    if event == Event::KeyInput(Key::Ctrl('c')) {
        Flow::Quit
    } else {
        Flow::Continue
    }
}

impl Tab {
    /// The tab that follows in the cycle header, payload, secret.
    pub fn next(&self) -> (r: Tab)
        ensures
            r == tab_after(*self),
    {
        match self {
            Tab::Header => Tab::Payload,
            Tab::Payload => Tab::Secret,
            Tab::Secret => Tab::Header,
        }
    }
}

impl SessionState {
    /// The state at startup, at the second `now`: a token that is not empty
    /// is decoded.
    pub fn new_at(token: String, secret: String, viewport: Viewport, now: u64) -> (r:
        SessionState)
        ensures
            r@ == started(token@, secret@, viewport, now),
    {
        let decode = !token.as_str().is_empty();
        let mut state = SessionState {
            token,
            secret,
            result: None,
            error: String::new(),
            mode: Mode::Viewing,
            active_tab: Tab::Header,
            scroll: 0,
            input_buffer: String::new(),
            viewport,
        };
        if decode {
            state.decode_anew(now);
        }
        state
    }

    /// The state at startup, at the present time as the system clock gives
    /// it.
    pub fn new(token: String, secret: String, viewport: Viewport) -> (r: SessionState)
        ensures
            exists|now: u64| r@ == #[trigger] started(token@, secret@, viewport, now),
            r@.token == token@,
            r@.secret == secret@,
            r@.mode == Mode::Viewing,
            r@.active_tab == Tab::Header,
            r@.scroll == 0,
            r@.input_buffer == Seq::<char>::empty(),
            r@.viewport == viewport,
    {
        let now = unix_time();
        SessionState::new_at(token, secret, viewport, now)
    }

    /// Decodes token and secret anew: a success replaces the result, clears
    /// the error and resets the scroll offset; a failure sets the error and
    /// leaves the result as it was.
    pub fn decode_anew(&mut self, now: u64)
        ensures
            final(self)@ == decoded_anew(old(self)@, now),
            decoded(encode_utf8(old(self)@.token)) is Err ==> final(self)@.result
                == old(self)@.result,
    {
        match decode_token_at(self.token.as_str(), Some(self.secret.as_str()), now) {
            Ok(result) => {
                self.result = Some(result);
                self.error = String::new();
                self.scroll = 0;
            },
            Err(error) => {
                self.error = error.message();
            },
        }
    }

    /// Takes the size of the terminal from the render loop.
    pub fn resize(&mut self, viewport: Viewport)
        ensures
            final(self)@ == (Session { viewport, ..old(self)@ }),
    {
        self.viewport = viewport;
    }

    /// How many lines a tab shows.
    pub fn content_lines(&self, tab: Tab) -> (r: usize)
        ensures
            r == shown_lines(self@, tab),
    {
        match tab {
            Tab::Header => match &self.result {
                Some(result) => count_lines(pretty_text(&result.header).as_str()),
                None => 0,
            },
            Tab::Payload => match &self.result {
                Some(result) => count_lines(pretty_text(&result.claims).as_str()),
                None => 0,
            },
            Tab::Secret => count_lines(self.secret.as_str()),
        }
    }

    /// The greatest scroll offset that a downward step leads to.
    pub fn max_scroll(&self) -> (r: usize)
        ensures
            r == scroll_limit(self@),
    {
        let lines = self.content_lines(self.active_tab);
        let height: usize = self.viewport.height as usize;
        if lines > height {
            lines - height
        } else {
            0
        }
    }

    /// Commits the input buffer as the token or the secret, whichever was
    /// edited, returns to viewing and decodes anew.
    pub fn commit(&mut self, now: u64)
        ensures
            final(self)@ == committed(old(self)@, now),
            final(self)@.mode == Mode::Viewing,
            old(self)@.mode == Mode::EditingToken && decoded(
                encode_utf8(old(self)@.input_buffer),
            ) is Err ==> final(self)@.result == old(self)@.result,
    {
        let text = self.input_buffer.clone();
        match self.mode {
            Mode::EditingToken => {
                self.token = text;
            },
            Mode::EditingSecret => {
                self.secret = text;
            },
            Mode::Viewing => {},
        }
        self.mode = Mode::Viewing;
        self.input_buffer = String::new();
        self.decode_anew(now);
    }

    /// A tick drives a redraw and changes nothing.
    pub fn on_tick(&mut self)
        ensures
            final(self)@ == old(self)@,
    {
    }
}

/// Applies a key in the viewing mode.
fn handle_viewing_key(key: Key, state: &mut SessionState)
    ensures
        final(state)@ == after_viewing_key(old(state)@, key),
{
    match key {
        Key::Tab => {
            state.active_tab = state.active_tab.next();
            state.scroll = 0;
        },
        Key::Char(c) => {
            if c == 't' {
                state.mode = Mode::EditingToken;
                state.input_buffer = state.token.clone();
            } else if c == 'e' && state.active_tab == Tab::Secret {
                state.mode = Mode::EditingSecret;
                state.input_buffer = state.secret.clone();
            }
        },
        Key::Up => {
            if state.scroll > 0 {
                state.scroll = state.scroll - 1;
            }
        },
        Key::Down => {
            let limit = state.max_scroll();
            if state.scroll < limit {
                state.scroll = state.scroll + 1;
            } else {
                state.scroll = limit;
            }
        },
        _ => {},
    }
}

/// Applies a key in one of the two editing modes.
fn handle_editing_key(key: Key, state: &mut SessionState, now: u64)
    ensures
        final(state)@ == after_editing_key(old(state)@, key, now),
{
    match key {
        Key::Char(c) => {
            state.input_buffer.push(c);
        },
        Key::Backspace => {
            let _ = state.input_buffer.pop();
        },
        Key::Enter => {
            state.commit(now);
        },
        Key::Esc => {
            state.mode = Mode::Viewing;
            state.input_buffer = String::new();
        },
        _ => {},
    }
}

/// Applies a key to the state, at the second `now`. Keys that mean nothing
/// in the present mode change nothing.
pub fn handle_key_events_at(key: Key, state: &mut SessionState, now: u64)
    ensures
        final(state)@ == after_key(old(state)@, key, now),
{
    if key.is_interrupt() {
        return ;
    }
    match state.mode {
        Mode::Viewing => handle_viewing_key(key, state),
        _ => handle_editing_key(key, state, now),
    }
}

/// Pointer activity changes nothing.
pub fn handle_mouse_events(pointer: PointerEvent, state: &mut SessionState)
    ensures
        final(state)@ == old(state)@,
{
}

/// Applies one event to the state, at the second `now`, and tells the loop
/// whether to go on.
pub fn dispatch_at(state: &mut SessionState, event: Event, now: u64) -> (flow: Flow)
    ensures
        final(state)@ == after_event(old(state)@, event, now),
        flow == flow_after(event),
{
    match event {
        Event::KeyInput(key) => {
            if key.is_interrupt() {
                return Flow::Quit;
            }
            handle_key_events_at(key, state, now);
            Flow::Continue
        },
        Event::PointerInput(pointer) => {
            handle_mouse_events(pointer, state);
            Flow::Continue
        },
        Event::Tick => {
            state.on_tick();
            Flow::Continue
        },
    }
}

/// Applies a key to the state at the present time, as the system clock
/// gives it.
pub fn handle_key_events(key: Key, state: &mut SessionState)
    ensures
        exists|now: u64| final(state)@ == #[trigger] after_key(old(state)@, key, now),
        final(state)@.viewport == old(state)@.viewport,
{
    let now = unix_time();
    handle_key_events_at(key, state, now);
}

/// Applies one event to the state at the present time, as the system clock
/// gives it, and tells the loop whether to go on.
pub fn dispatch(state: &mut SessionState, event: Event) -> (flow: Flow)
    ensures
        exists|now: u64| final(state)@ == #[trigger] after_event(old(state)@, event, now),
        flow == flow_after(event),
        final(state)@.viewport == old(state)@.viewport,
        event is Tick || event is PointerInput ==> final(state)@ == old(state)@,
{
    let now = unix_time();
    dispatch_at(state, event, now)
}

} // verus!
