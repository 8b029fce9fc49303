//! The local wall clock, broken into plain calendar fields that the
//! backup name format can carry.

use vstd::prelude::*;
use chrono::Datelike;
use chrono::Timelike;

verus! {

/// A wall-clock timestamp as plain calendar fields.
#[derive(Clone, Copy, PartialEq, Eq, Structural, Debug)]
pub struct Timestamp {
    pub year: u32,
    pub month: u32,
    pub day: u32,
    pub hour: u32,
    pub minute: u32,
    pub second: u32,
}

impl Timestamp {
    /// The fields describe a time the `YYYY-MM-DD_HH-MM-SS` format renders
    /// with fixed widths: four digits of year, two of everything else.
    pub open spec fn wf(self) -> bool {
        &&& self.year <= 9999
        &&& 1 <= self.month <= 12
        &&& 1 <= self.day <= 31
        &&& self.hour <= 23
        &&& self.minute <= 59
        &&& self.second <= 59
    }
}

/// Relies on `chrono::Local::now` and chrono's `Datelike`/`Timelike`
/// accessors for the calendar fields of the current local time: `month`
/// is 1..=12, `day` is 1..=31, `hour` is 0..=23, `minute` and `second`
/// are 0..=59; the year is whatever the local clock shows.
#[verifier::external_body]
fn local_now_fields() -> (r: (i32, u32, u32, u32, u32, u32))
    ensures
        1 <= r.1 <= 12,
        1 <= r.2 <= 31,
        r.3 <= 23,
        r.4 <= 59,
        r.5 <= 59,
{
    let now = chrono::Local::now();
    (now.year(), now.month(), now.day(), now.hour(), now.minute(), now.second())
}

/// Packs raw clock fields into a timestamp: `Some` exactly when the year
/// fits the four digits of the backup name format, carrying every field
/// unchanged.
pub fn timestamp_from_fields(
    year: i32,
    month: u32,
    day: u32,
    hour: u32,
    minute: u32,
    second: u32,
) -> (r: Option<Timestamp>)
    ensures
        r is Some <==> 0 <= year <= 9999,
        r matches Some(t) ==> t.year == year as u32 && t.month == month && t.day == day
            && t.hour == hour && t.minute == minute && t.second == second,
{
    if 0 <= year && year <= 9999 {
        Some(Timestamp { year: year as u32, month, day, hour, minute, second })
    } else {
        None
    }
}

/// The local time now. `None` when the clock reports a year outside
/// 0..=9999, which the fixed-width backup name format cannot carry.
pub fn current_timestamp() -> (r: Option<Timestamp>)
    ensures
        r matches Some(t) ==> t.wf(),
{
    let (year, month, day, hour, minute, second) = local_now_fields();
    timestamp_from_fields(year, month, day, hour, minute, second)
}

} // verus!
