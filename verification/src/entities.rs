//! Core data types: durations, session kinds, and the validated configuration.

use vstd::prelude::*;
use vstd::string::*;

verus! {

/// A non-negative count of whole seconds.
#[derive(Clone, Copy, Debug, PartialEq, Eq, Structural)]
pub struct Seconds(pub u64);

impl Seconds {
    /// Converts whole minutes to seconds.
    pub fn from_minutes(minutes: u64) -> (r: Self)
        requires
            minutes * 60 <= u64::MAX,
        ensures
            r.0 == minutes * 60,
    {
        Seconds(minutes * 60)
    }
}

/// The three kinds of timed session in a cycle.
#[derive(Clone, Copy, Debug, PartialEq, Eq, Structural)]
pub enum SessionKind {
    Work,
    ShortBreak,
    LongBreak,
}

/// The reason a configuration is rejected.
#[derive(Clone, Copy, Debug, PartialEq, Eq, Structural)]
pub enum ConfigError {
    ZeroInterval,
}

/// Settings for one run: the three session durations, how many work sessions
/// make a full round, whether sessions start without waiting for the user,
/// and where journal entries are archived.
#[derive(Debug)]
pub struct Config {
    pub work: Seconds,
    pub short_break: Seconds,
    pub long_break: Seconds,
    pub long_break_interval: u8,
    pub auto_start_next: bool,
    pub journal_path: String,
}

impl Config {
    /// A configuration is valid when at least one work/break pair is scheduled.
    pub open spec fn valid(self) -> bool {
        self.long_break_interval >= 1
    }

    /// Accepts exactly the valid configurations.
    pub fn validate(&self) -> (r: Result<(), ConfigError>)
        ensures
            r is Ok <==> self.valid(),
    {
        if self.long_break_interval > 0 {
            Ok(())
        } else {
            Err(ConfigError::ZeroInterval)
        }
    }
}

impl Default for Config {
    /// The stock settings: 25 minute work sessions, 5 minute short breaks,
    /// a 20 minute long break after every 4th work session, manual advance.
    fn default() -> (r: Self)
        ensures
            r.work.0 == 25 * 60,
            r.short_break.0 == 5 * 60,
            r.long_break.0 == 20 * 60,
            r.long_break_interval == 4,
            !r.auto_start_next,
            r.journal_path@ == "$HOME/.config/pomo"@,
            r.valid(),
    {
        Config {
            work: Seconds::from_minutes(25),
            short_break: Seconds::from_minutes(5),
            long_break: Seconds::from_minutes(20),
            long_break_interval: 4,
            auto_start_next: false,
            journal_path: String::from_str("$HOME/.config/pomo"),
        }
    }
}

} // verus!
