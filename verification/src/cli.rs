//! The configuration that the command line gives, and what it starts.

use crate::clock::unix_time;
use crate::event::{ConfigError, TickRate, DEFAULT_TICK_RATE, TICK_RATE_LIMIT};
use crate::outcome::{report_at, report_token_at};
use crate::validator::text_key;
use vstd::prelude::*;
use vstd::string::*;
use vstd::utf8::encode_utf8;

verus! {

/// The configuration that the command line gives.
#[derive(Clone, Debug)]
pub struct Cli {
    /// The token to decode: needed to print, optional for a session.
    pub token: Option<String>,
    /// Whether the outcome is printed instead of a session being started.
    pub stdout: bool,
    /// Whether what is printed has the JSON form.
    pub json: bool,
    /// The milliseconds between two ticks: below 1000.
    pub tick_rate: u64,
    /// The secret that signatures are held against; empty for none.
    pub secret: String,
}

/// What a configuration starts.
#[derive(Clone, Copy, Debug, PartialEq, Eq, Structural)]
pub enum Startup {
    /// The outcome for the token is printed, and nothing else happens.
    Print,
    /// An interactive session runs at the given tick rate.
    Interactive(TickRate),
}

impl Default for Cli {
    /// No token, a session rather than printing, the plain form, four ticks
    /// a second and no secret.
    fn default() -> (r: Cli)
        ensures
            r.token is None,
            !r.stdout,
            !r.json,
            r.tick_rate == DEFAULT_TICK_RATE,
            r.secret@ == Seq::<char>::empty(),
    {
        Cli {
            token: None,
            stdout: false,
            json: false,
            tick_rate: DEFAULT_TICK_RATE,
            secret: String::new(),
        }
    }
}

impl Cli {
    /// What the configuration starts. A tick rate of 1000 milliseconds or
    /// more is an error, whatever else is asked for.
    pub fn startup(&self) -> (r: Result<Startup, ConfigError>)
        ensures
            self.tick_rate >= TICK_RATE_LIMIT <==> r is Err,
            r matches Err(error) ==> error == ConfigError::TickRateTooHigh(self.tick_rate),
            r matches Ok(start) ==> match start {
                Startup::Print => self.stdout && self.token is Some,
                Startup::Interactive(rate) => !(self.stdout && self.token is Some) && rate.millis()
                    == self.tick_rate,
            },
    {
        let rate = match TickRate::new(self.tick_rate) {
            Ok(rate) => rate,
            Err(error) => {
                return Err(error);
            },
        };
        if self.stdout && self.token.is_some() {
            Ok(Startup::Print)
        } else {
            Ok(Startup::Interactive(rate))
        }
    }

    /// The line that is printed for the configuration's token at the second
    /// `now`: the outcome or the decoder's error, in the form asked for.
    /// `None` where no token is given.
    pub fn printed_at(&self, now: u64) -> (r: Option<String>)
        ensures
            self.token is None <==> r is None,
            (self.token, r) matches (Some(token), Some(line)) ==> line@ == report_at(
                encode_utf8(token@),
                text_key(self.secret@),
                self.json,
                now,
            ),
    {
        match &self.token {
            Some(token) => Some(
                report_token_at(token.as_str(), Some(self.secret.as_str()), self.json, now),
            ),
            None => None,
        }
    }

    /// The line that is printed for the configuration's token at the
    /// present time, as the system clock gives it. `None` where no token is
    /// given.
    pub fn printed(&self) -> (r: Option<String>)
        ensures
            self.token is None <==> r is None,
            (self.token, r) matches (Some(token), Some(line)) ==> exists|now: u64|
                line@ == #[trigger] report_at(
                    encode_utf8(token@),
                    text_key(self.secret@),
                    self.json,
                    now,
                ),
    {
        let now = unix_time();
        self.printed_at(now)
    }
}

} // verus!
