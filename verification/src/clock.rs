//! Wall-clock access, injected as an explicit dependency so deterministic
//! substitutes can drive tests.

use vstd::prelude::*;

use chrono::Datelike;
use chrono::Timelike;

use crate::config::TimeOfDay;
use crate::config::Weekday;

verus! {

/// A source for the current weekday and time of day in a named timezone.
pub trait Clock {
    /// The current weekday and time of day in the named timezone.
    /// An unknown timezone name must not fail: implementations fall back
    /// to UTC.
    fn day_time(&mut self, timezone: &str) -> (r: (Weekday, TimeOfDay))
        ensures
            r.1.valid(),
    ;
}

/// The system wall clock.
pub struct SystemClock;

impl Clock for SystemClock {
    fn day_time(&mut self, timezone: &str) -> (r: (Weekday, TimeOfDay)) {
        let (day, hour, minute, second) = now_in_zone(timezone);
        (weekday_from_number(day), TimeOfDay { hour, minute, second })
    }
}

/// Relies on `chrono_tz::Tz::from_str` (with `Tz::UTC` as fallback for an
/// unknown name), `chrono::Utc::now`, `DateTime::with_timezone`, and the
/// `Datelike`/`Timelike` accessors: the current weekday (numbered from
/// Monday as 1) and time of day in the named zone.
#[verifier::external_body]
fn now_in_zone(timezone: &str) -> (r: (u32, u8, u8, u8))
    ensures
        1 <= r.0 <= 7,
        r.1 < 24,
        r.2 < 60,
        r.3 < 60,
{
    let tz: chrono_tz::Tz = timezone.parse().unwrap_or(chrono_tz::Tz::UTC);
    let now = chrono::Utc::now().with_timezone(&tz);
    (now.weekday().number_from_monday(), now.hour() as u8, now.minute() as u8, now.second() as u8)
}

/// The weekday for a number counted from Monday as 1.
pub open spec fn weekday_of_number(n: u32) -> Weekday {
    if n == 1 {
        Weekday::Mon
    } else if n == 2 {
        Weekday::Tue
    } else if n == 3 {
        Weekday::Wed
    } else if n == 4 {
        Weekday::Thu
    } else if n == 5 {
        Weekday::Fri
    } else if n == 6 {
        Weekday::Sat
    } else {
        Weekday::Sun
    }
}

fn weekday_from_number(n: u32) -> (r: Weekday)
    ensures
        r == weekday_of_number(n),
{
    if n == 1 {
        Weekday::Mon
    } else if n == 2 {
        Weekday::Tue
    } else if n == 3 {
        Weekday::Wed
    } else if n == 4 {
        Weekday::Thu
    } else if n == 5 {
        Weekday::Fri
    } else if n == 6 {
        Weekday::Sat
    } else {
        Weekday::Sun
    }
}

} // verus!
