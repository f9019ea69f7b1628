use vstd::prelude::*;

use crate::lexer::{same, views};
use crate::number::{decimal, decimal_of, parse_u32, u32_of};

verus! {

/// A length of time: a magnitude and the unit it is counted in.
#[derive(Debug, Clone, Copy, PartialEq, Eq, Structural)]
pub enum Time {
    MilliSeconds(u32),
    Seconds(u32),
    Minutes(u32),
    Hours(u32),
}

/// A `wait` line.
#[derive(Debug, Clone, Copy, PartialEq, Eq, Structural)]
pub enum WaitCommand {
    Time(Time),
}

/// The time of `n` counted in the unit that the token `unit` names.
pub open spec fn unit_of(unit: Seq<char>, n: u32) -> Option<Time> {
    if unit == "milliseconds"@ {
        Some(Time::MilliSeconds(n))
    } else if unit == "seconds"@ {
        Some(Time::Seconds(n))
    } else if unit == "minutes"@ {
        Some(Time::Minutes(n))
    } else if unit == "hours"@ {
        Some(Time::Hours(n))
    } else {
        None
    }
}

/// The meaning of the tokens of a `wait` line (the verb included): `wait time`,
/// `wait time <n>` (seconds) or `wait time <n> <unit>`.
pub open spec fn wait_spec(w: Seq<Seq<char>>) -> Option<WaitCommand> {
    if w.len() < 2 || w[1] != "time"@ {
        None
    } else if w.len() == 2 {
        Some(WaitCommand::Time(Time::MilliSeconds(0)))
    } else if w.len() == 3 {
        match u32_of(w[2]) {
            Some(n) => Some(WaitCommand::Time(Time::Seconds(n))),
            None => None,
        }
    } else if w.len() == 4 {
        match u32_of(w[2]) {
            Some(n) => match unit_of(w[3], n) {
                Some(t) => Some(WaitCommand::Time(t)),
                None => None,
            },
            None => None,
        }
    } else {
        None
    }
}

/// The length of a time in milliseconds.
pub open spec fn millis_of(t: Time) -> int {
    match t {
        Time::MilliSeconds(n) => n as int,
        Time::Seconds(n) => n * 1000,
        Time::Minutes(n) => n * 60_000,
        Time::Hours(n) => n * 3_600_000,
    }
}

/// How a time reads: its magnitude in decimal, a space and the name of its unit.
pub open spec fn time_text(t: Time) -> Seq<char> {
    match t {
        Time::MilliSeconds(n) => decimal_of(n as nat) + " milliseconds"@,
        Time::Seconds(n) => decimal_of(n as nat) + " seconds"@,
        Time::Minutes(n) => decimal_of(n as nat) + " minutes"@,
        Time::Hours(n) => decimal_of(n as nat) + " hours"@,
    }
}

impl Time {
    /// The time as text, such as `5 seconds`.
    pub fn describe(&self) -> (r: String)
        ensures
            r@ == time_text(*self),
    {
        match *self {
            Time::MilliSeconds(n) => decimal(n).concat(" milliseconds"),
            Time::Seconds(n) => decimal(n).concat(" seconds"),
            Time::Minutes(n) => decimal(n).concat(" minutes"),
            Time::Hours(n) => decimal(n).concat(" hours"),
        }
    }

    /// The length of this time in milliseconds.
    pub fn as_millis(&self) -> (r: u64)
        ensures
            r == millis_of(*self),
    {
        match *self {
            Time::MilliSeconds(n) => n as u64,
            Time::Seconds(n) => n as u64 * 1000,
            Time::Minutes(n) => n as u64 * 60_000,
            Time::Hours(n) => n as u64 * 3_600_000,
        }
    }
}

fn parse_unit(unit: &str, n: u32) -> (r: Option<Time>)
    ensures
        r == unit_of(unit@, n),
{
    if same(unit, "milliseconds") {
        Some(Time::MilliSeconds(n))
    } else if same(unit, "seconds") {
        Some(Time::Seconds(n))
    } else if same(unit, "minutes") {
        Some(Time::Minutes(n))
    } else if same(unit, "hours") {
        Some(Time::Hours(n))
    } else {
        None
    }
}

impl WaitCommand {
    /// Parses the tokens of a `wait` line; the first token is the verb and is not read.
    pub fn parse(words: &Vec<&str>) -> (r: Option<WaitCommand>)
        ensures
            r == wait_spec(views(words@)),
    {
        if words.len() < 2 || !same(words[1], "time") {
            return None;
        }
        if words.len() == 2 {
            Some(WaitCommand::Time(Time::MilliSeconds(0)))
        } else if words.len() == 3 {
            match parse_u32(words[2]) {
                Some(n) => Some(WaitCommand::Time(Time::Seconds(n))),
                None => None,
            }
        } else if words.len() == 4 {
            match parse_u32(words[2]) {
                Some(n) => match parse_unit(words[3], n) {
                    Some(t) => Some(WaitCommand::Time(t)),
                    None => None,
                },
                None => None,
            }
        } else {
            None
        }
    }
}

} // verus!
