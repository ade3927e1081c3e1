//! The events of an interactive session: keys, pointer activity and ticks.

use vstd::prelude::*;

verus! {

/// The greatest tick rate that is not accepted, in milliseconds.
pub const TICK_RATE_LIMIT: u64 = 1000;

/// The tick rate that is taken where none is given, in milliseconds.
pub const DEFAULT_TICK_RATE: u64 = 250;

/// A key as the terminal reports it, before its modifiers are looked at.
#[derive(Clone, Copy, Debug, PartialEq, Eq, Structural)]
pub enum KeyCode {
    Enter,
    Esc,
    Tab,
    BackTab,
    Backspace,
    Delete,
    Insert,
    Up,
    Down,
    Left,
    Right,
    Home,
    End,
    PageUp,
    PageDown,
    Char(char),
    /// Any key that the session has no use for.
    Other,
}

/// A key press as the session understands it.
#[derive(Clone, Copy, Debug, PartialEq, Eq, Structural)]
pub enum Key {
    Enter,
    Esc,
    Tab,
    BackTab,
    Backspace,
    Delete,
    Insert,
    Up,
    Down,
    Left,
    Right,
    Home,
    End,
    PageUp,
    PageDown,
    /// A character typed alone or with shift.
    Char(char),
    /// A character typed with the control key.
    Ctrl(char),
    /// A character typed with the alt key.
    Alt(char),
    /// Any other key.
    Unknown,
}

/// What the pointer did.
#[derive(Clone, Copy, Debug, PartialEq, Eq, Structural)]
pub enum PointerKind {
    Press,
    Release,
    Drag,
    Move,
    ScrollUp,
    ScrollDown,
    ScrollLeft,
    ScrollRight,
}

/// Pointer activity at a cell of the terminal.
#[derive(Clone, Copy, Debug, PartialEq, Eq, Structural)]
pub struct PointerEvent {
    pub kind: PointerKind,
    pub column: u16,
    pub row: u16,
}

/// One event of the stream that drives a session.
#[derive(Clone, Copy, Debug, PartialEq, Eq, Structural)]
pub enum Event {
    /// A key was pressed.
    KeyInput(Key),
    /// The pointer was used.
    PointerInput(PointerEvent),
    /// The tick interval passed without input.
    Tick,
}

/// What the terminal reported while the source waited for one tick
/// interval.
#[derive(Clone, Copy, Debug, PartialEq, Eq, Structural)]
pub enum Polled {
    /// A key, with the state of the control and the alt key.
    Key { code: KeyCode, control: bool, alt: bool },
    /// Pointer activity.
    Pointer(PointerEvent),
    /// Something the session has no use for, such as a resize.
    Ignored,
    /// Nothing within the interval.
    TimedOut,
}

/// An accepted tick rate: the milliseconds between two ticks.
#[derive(Clone, Copy, Debug, PartialEq, Eq, Structural)]
pub struct TickRate {
    millis: u64,
}

/// Why a configuration is refused at startup.
#[derive(Clone, Copy, Debug, PartialEq, Eq, Structural)]
pub enum ConfigError {
    /// The tick rate is not below the limit.
    TickRateTooHigh(u64),
}

/// The key that a key code stands for under the given modifiers. Alt is
/// looked at before control; both bear on characters alone.
pub open spec fn key_for(code: KeyCode, control: bool, alt: bool) -> Key {
    match code {
        KeyCode::Enter => Key::Enter,
        KeyCode::Esc => Key::Esc,
        KeyCode::Tab => Key::Tab,
        KeyCode::BackTab => Key::BackTab,
        KeyCode::Backspace => Key::Backspace,
        KeyCode::Delete => Key::Delete,
        KeyCode::Insert => Key::Insert,
        KeyCode::Up => Key::Up,
        KeyCode::Down => Key::Down,
        KeyCode::Left => Key::Left,
        KeyCode::Right => Key::Right,
        KeyCode::Home => Key::Home,
        KeyCode::End => Key::End,
        KeyCode::PageUp => Key::PageUp,
        KeyCode::PageDown => Key::PageDown,
        KeyCode::Char(c) => if alt {
            Key::Alt(c)
        } else if control {
            Key::Ctrl(c)
        } else {
            Key::Char(c)
        },
        KeyCode::Other => Key::Unknown,
    }
}

/// The event that the source emits for what it polled: a key or pointer
/// event for input, a tick where the interval passed without any, and
/// nothing for what the session has no use for.
pub open spec fn emitted(polled: Polled) -> Option<Event> {
    match polled {
        Polled::Key { code, control, alt } => Some(Event::KeyInput(key_for(code, control, alt))),
        Polled::Pointer(pointer) => Some(Event::PointerInput(pointer)),
        Polled::Ignored => None,
        Polled::TimedOut => Some(Event::Tick),
    }
}

impl Key {
    /// The key that a key code stands for under the given modifiers.
    pub fn from_code(code: KeyCode, control: bool, alt: bool) -> (r: Key)
        ensures
            r == key_for(code, control, alt),
    {
        match code {
            KeyCode::Enter => Key::Enter,
            KeyCode::Esc => Key::Esc,
            KeyCode::Tab => Key::Tab,
            KeyCode::BackTab => Key::BackTab,
            KeyCode::Backspace => Key::Backspace,
            KeyCode::Delete => Key::Delete,
            KeyCode::Insert => Key::Insert,
            KeyCode::Up => Key::Up,
            KeyCode::Down => Key::Down,
            KeyCode::Left => Key::Left,
            KeyCode::Right => Key::Right,
            KeyCode::Home => Key::Home,
            KeyCode::End => Key::End,
            KeyCode::PageUp => Key::PageUp,
            KeyCode::PageDown => Key::PageDown,
            KeyCode::Char(c) => {
                if alt {
                    Key::Alt(c)
                } else if control {
                    Key::Ctrl(c)
                } else {
                    Key::Char(c)
                }
            },
            KeyCode::Other => Key::Unknown,
        }
    }

    /// Whether the key is control-C, which ends the session in any mode.
    pub fn is_interrupt(&self) -> (r: bool)
        ensures
            r == (*self == Key::Ctrl('c')),
    {
        match self {
            Key::Ctrl(c) => *c == 'c',
            _ => false,
        }
    }
}

impl Event {
    /// The event that the source emits for what it polled.
    pub fn from_polled(polled: Polled) -> (r: Option<Event>)
        ensures
            r == emitted(polled),
    {
        match polled {
            Polled::Key { code, control, alt } => Some(
                Event::KeyInput(Key::from_code(code, control, alt)),
            ),
            Polled::Pointer(pointer) => Some(Event::PointerInput(pointer)),
            Polled::Ignored => None,
            Polled::TimedOut => Some(Event::Tick),
        }
    }
}

impl TickRate {
    /// The interval in milliseconds.
    pub closed spec fn spec_millis(&self) -> u64 {
        self.millis
    }

    /// Every tick rate is below the limit.
    #[verifier::type_invariant]
    pub closed spec fn below_limit(self) -> bool {
        self.millis < TICK_RATE_LIMIT
    }

    /// Accepts a tick rate below 1000 milliseconds; any other is a
    /// configuration error.
    pub fn new(millis: u64) -> (r: Result<TickRate, ConfigError>)
        ensures
            millis < TICK_RATE_LIMIT ==> (r matches Ok(rate) && rate.spec_millis() == millis),
            millis >= TICK_RATE_LIMIT ==> r == Err::<TickRate, ConfigError>(
                ConfigError::TickRateTooHigh(millis),
            ),
    {
        if millis < TICK_RATE_LIMIT {
            Ok(TickRate { millis })
        } else {
            Err(ConfigError::TickRateTooHigh(millis))
        }
    }

    /// The interval in milliseconds: below 1000.
    #[verifier::when_used_as_spec(spec_millis)]
    pub fn millis(&self) -> (r: u64)
        ensures
            r == self.spec_millis(),
            r < TICK_RATE_LIMIT,
    {
        proof {
            use_type_invariant(self);
        }
        self.millis
    }
}

impl ConfigError {
    /// The message that tells a reader of the error.
    pub open spec fn message_text(self) -> Seq<char> {
        "Tick rate must be below 1000"@
    }

    /// The message that tells a reader of the error.
    pub fn message(&self) -> (r: String)
        ensures
            r@ == self.message_text(),
    {
        "Tick rate must be below 1000".to_owned()
    }
}

} // verus!
