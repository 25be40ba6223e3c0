//! The commands that a caller can give, and the check on the season's year.

use vstd::prelude::*;
use vstd::string::StringExecFns;
use crate::text::{decimal, parse_i32, parsed_i32, push_decimal};

verus! {

/// The first season that the timing service holds.
pub const FIRST_SEASON: i32 = 2018;

/// What one session command is asked for.
#[derive(Debug, Clone, PartialEq, Eq)]
pub struct SessionArgs {
    /// The season.
    pub year: i32,
    /// Part of the meeting's name, in any case.
    pub gp: String,
    /// Part of the session's name, in any case.
    pub session: String,
    /// JSON in place of a table.
    pub json: bool,
}

/// The feeds of a session that can be asked for.
#[derive(Debug, Clone, PartialEq, Eq)]
pub enum SessionCommands {
    Info(SessionArgs),
    Status(SessionArgs),
    Radios(SessionArgs),
    Drivers(SessionArgs),
}

/// Commands about drivers.
#[derive(Debug, Clone, PartialEq, Eq)]
pub enum DriverCommands {
    Info { year: i32 },
}

/// The command groups.
#[derive(Debug, Clone, PartialEq, Eq)]
pub enum Commands {
    Session { command: SessionCommands },
}

/// A parsed command line.
#[derive(Debug, Clone, PartialEq, Eq)]
pub struct Cli {
    pub command: Commands,
}

/// The outcome of a year check as a mathematical value.
pub open spec fn year_outcome(r: Result<i32, String>) -> Result<int, Seq<char>> {
    match r {
        Ok(year) => Ok(year as int),
        Err(message) => Err(message@),
    }
}

/// The check on a year given as text, in a given current year: the text
/// must stand for an `i32`, and that number must lie between the first
/// season and the current year, both included.
pub open spec fn year_check(text: Seq<char>, current_year: int) -> Result<int, Seq<char>> {
    match parsed_i32(text) {
        None => Err("Year must be a number"@),
        Some(year) => if FIRST_SEASON <= year <= current_year {
            Ok(year)
        } else {
            Err("Year must be between 2018 and "@ + decimal(current_year))
        },
    }
}

/// Calls `chrono::Utc::now` and takes the year of that moment, which
/// depends on the clock: nothing is claimed of it. `now` panics where the
/// system clock stands before 1970.
#[verifier::external_body]
fn current_year() -> i32 {
    chrono::Datelike::year(&chrono::Utc::now())
}

/// Checks a year given as text against a given current year.
pub fn check_year(text: &str, current_year: i32) -> (r: Result<i32, String>)
    ensures
        year_outcome(r) == year_check(text@, current_year as int),
{
    match parse_i32(text) {
        None => Err(String::from_str("Year must be a number")),
        Some(year) => {
            if FIRST_SEASON <= year && year <= current_year {
                Ok(year)
            } else {
                let mut message = String::from_str("Year must be between 2018 and ");
                push_decimal(&mut message, current_year as i64);
                Err(message)
            }
        },
    }
}

/// Checks a year given as text against the year that the clock shows.
pub fn year_validator(s: &str) -> (r: Result<i32, String>)
    ensures
        exists|current_year: i32| year_outcome(r) == year_check(s@, current_year as int),
        parsed_i32(s@).is_none() ==> year_outcome(r) == Err::<int, Seq<char>>(
            "Year must be a number"@,
        ),
        r is Ok ==> parsed_i32(s@) == Some(r->Ok_0 as int) && r->Ok_0 >= FIRST_SEASON,
{
    let current = current_year();
    check_year(s, current)
}

} // verus!
