//! A plain-value model of a wall-clock reading.  The clock itself is an
//! external collaborator; everything the formatter reads from it is carried
//! in this record of integers.

use vstd::prelude::*;

verus! {

/// One reading of the local wall clock, broken into the calendar and time
/// fields the formatter needs, plus the epoch second count used to measure
/// the process's running duration.
#[derive(Clone, Copy, Debug)]
pub struct Timestamp {
    /// Proleptic Gregorian year; may be negative.
    pub year: i32,
    /// Month number, `1 ..= 12`.
    pub month: u32,
    /// Day of month, `1 ..= 31`.
    pub day: u32,
    /// Hour, `0 ..= 23`.
    pub hour: u32,
    /// Minute, `0 ..= 59`.
    pub minute: u32,
    /// Second, `0 ..= 59`.
    pub second: u32,
    /// Microseconds past the second; values of one million and above
    /// represent a leap second.
    pub micros: u32,
    /// Non-leap seconds since the Unix epoch; negative before 1970.
    pub epoch_seconds: i64,
}

impl Timestamp {
    /// Field ranges that every clock reading satisfies: calendar fields in
    /// range, and the epoch second count bounded by the clock's supported
    /// year span.
    pub open spec fn wf(self) -> bool {
        &&& -262143 <= self.year <= 262142
        &&& 1 <= self.month <= 12
        &&& 1 <= self.day <= 31
        &&& self.hour <= 23
        &&& self.minute <= 59
        &&& self.second <= 59
        &&& self.micros <= 1_999_999
        &&& -10_000_000_000_000 <= self.epoch_seconds <= 10_000_000_000_000
    }
}

/// Relies on `chrono::Local::now` and its `Datelike`/`Timelike` accessors:
/// the month is `1..=12`, the day `1..=31`, the hour `0..=23`, minute and
/// second `0..=59` (a leap second shows up only in the sub-second field,
/// which stays below two million microseconds), the year within chrono's
/// supported span of about plus or minus 262,000 years, and the epoch
/// second count bounded accordingly.  The value read depends on the clock,
/// so nothing is promised about which moment comes back.
#[verifier::external_body]
pub fn now_timestamp() -> (ts: Timestamp)
    ensures
        ts.wf(),
{
    let now = chrono::Local::now();
    Timestamp {
        year: chrono::Datelike::year(&now),
        month: chrono::Datelike::month(&now),
        day: chrono::Datelike::day(&now),
        hour: chrono::Timelike::hour(&now),
        minute: chrono::Timelike::minute(&now),
        second: chrono::Timelike::second(&now),
        micros: now.timestamp_subsec_micros(),
        epoch_seconds: now.timestamp(),
    }
}

} // verus!
