//! Decomposition of millisecond values into display digit groups:
//! time-of-day reduction, 24-hour and 12-hour clock fields, and the
//! sub-second digit. The drawing layer reads these to place digits.

use vstd::prelude::*;

verus! {

/// Milliseconds in one day.
pub const MS_PER_DAY: u64 = 86400000;

/// Reduce a point on the timeline to its time of day.
pub fn time_of_day_millis(millis: u64) -> (r: u64)
    ensures
        r == millis % MS_PER_DAY,
        r < MS_PER_DAY,
{
    millis % MS_PER_DAY
}

/// The hour on the 24-hour clock.
pub fn hours_mod(millis: u64) -> (r: u64)
    ensures
        r == (millis / 3600000) % 24,
        r < 24,
{
    (millis / 3600000) % 24
}

/// The hour on the 12-hour clock: midnight and noon show as 12.
pub open spec fn hours_mod_12_spec(millis: u64) -> u64 {
    if ((millis / 3600000) % 24) % 12 == 0 {
        12
    } else {
        (((millis / 3600000) % 24) % 12) as u64
    }
}

pub fn hours_mod_12(millis: u64) -> (r: u64)
    ensures
        r == hours_mod_12_spec(millis),
        1 <= r <= 12,
{
    let h = (millis / 3600000) % 24;
    if h % 12 == 0 {
        12
    } else {
        h % 12
    }
}

/// Whether the time of day falls in the second half of the day (PM).
pub fn is_pm(millis: u64) -> (r: bool)
    ensures
        r == ((millis / 3600000) % 24 >= 12),
{
    (millis / 3600000) % 24 >= 12
}

/// The minute within the hour.
pub fn minutes_mod(millis: u64) -> (r: u64)
    ensures
        r == (millis / 60000) % 60,
        r < 60,
{
    (millis / 60000) % 60
}

/// The second within the minute.
pub fn seconds_mod(millis: u64) -> (r: u64)
    ensures
        r == (millis / 1000) % 60,
        r < 60,
{
    (millis / 1000) % 60
}

/// The tenth of a second, for the sub-second display mode.
pub fn decis_mod(millis: u64) -> (r: u64)
    ensures
        r == (millis / 100) % 10,
        r < 10,
{
    (millis / 100) % 10
}

} // verus!
