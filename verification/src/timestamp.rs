//! The nine-byte timestamp of a log record, and the clock it is read from.

use crate::wire::be16;
use chrono::{DateTime, Datelike, Timelike};
use std::time::{Duration, SystemTime, UNIX_EPOCH};
use vstd::prelude::*;

verus! {

/// A reading of the UTC wall clock, field by field, as the clock hands it out.
#[derive(Clone, Copy, Debug, PartialEq, Eq, Structural)]
pub struct ClockReading {
    pub year: i32,
    pub month: u32,
    pub day: u32,
    pub hour: u32,
    pub minute: u32,
    pub second: u32,
    pub millisecond: u32,
}

impl ClockReading {
    /// The ranges within which a calendar keeps its fields. The millisecond
    /// passes 999 only where a leap second is written as a long last
    /// second of a minute.
    pub open spec fn in_calendar_range(self) -> bool {
        &&& 1 <= self.month <= 12
        &&& 1 <= self.day <= 31
        &&& self.hour <= 23
        &&& self.minute <= 59
        &&& self.second <= 59
        &&& self.millisecond <= 1999
    }
}

/// The moment a record was logged, in UTC, as it travels in a record frame.
#[derive(Clone, Copy, Debug, PartialEq, Eq, Structural)]
pub struct Timestamp {
    pub year: u16,
    pub month: u8,
    pub day: u8,
    pub hour: u8,
    pub minute: u8,
    pub second: u8,
    pub millisecond: u16,
}

impl Timestamp {
    /// The wire form: year (2 bytes), month, day, hour, minute, second
    /// (1 byte each), millisecond (2 bytes); the wide fields most significant
    /// byte first.
    pub open spec fn wire(self) -> Seq<u8> {
        be16(self.year) + seq![self.month, self.day, self.hour, self.minute, self.second] + be16(
            self.millisecond,
        )
    }

    /// The timestamp that stands for a clock reading: each field cut down to
    /// the width it has on the wire, keeping its low bits.
    pub open spec fn of_clock(reading: ClockReading) -> Timestamp {
        Timestamp {
            year: reading.year as u16,
            month: reading.month as u8,
            day: reading.day as u8,
            hour: reading.hour as u8,
            minute: reading.minute as u8,
            second: reading.second as u8,
            millisecond: reading.millisecond as u16,
        }
    }

    /// Holds of the timestamps that name a moment of a calendar day.
    pub open spec fn in_calendar_range(self) -> bool {
        &&& 1 <= self.month <= 12
        &&& 1 <= self.day <= 31
        &&& self.hour <= 23
        &&& self.minute <= 59
        &&& self.second <= 59
        &&& self.millisecond <= 999
    }

    /// The first moment that the clock can name: the start of 1970.
    pub open spec fn epoch() -> Timestamp {
        Timestamp { year: 1970, month: 1, day: 1, hour: 0, minute: 0, second: 0, millisecond: 0 }
    }

    /// The timestamp that a record carries for what the clock gave: the
    /// reading cut down to the wire widths, or the epoch where the clock
    /// gave no reading.
    pub open spec fn of_reading(reading: Option<ClockReading>) -> Timestamp {
        match reading {
            Some(reading) => Self::of_clock(reading),
            None => Self::epoch(),
        }
    }

    /// Chooses the timestamp that a record carries for what the clock gave.
    pub fn from_reading(reading: Option<ClockReading>) -> (t: Timestamp)
        ensures
            t == Self::of_reading(reading),
    {
        match reading {
            Some(reading) => Self::from_clock(reading),
            None => Timestamp {
                year: 1970,
                month: 1,
                day: 1,
                hour: 0,
                minute: 0,
                second: 0,
                millisecond: 0,
            },
        }
    }

    /// Cuts a clock reading down to the widths of the wire form.
    pub fn from_clock(reading: ClockReading) -> (t: Timestamp)
        ensures
            t == Self::of_clock(reading),
    {
        Timestamp {
            year: #[verifier::truncate]
            (reading.year as u16),
            month: #[verifier::truncate]
            (reading.month as u8),
            day: #[verifier::truncate]
            (reading.day as u8),
            hour: #[verifier::truncate]
            (reading.hour as u8),
            minute: #[verifier::truncate]
            (reading.minute as u8),
            second: #[verifier::truncate]
            (reading.second as u8),
            millisecond: #[verifier::truncate]
            (reading.millisecond as u16),
        }
    }

    /// Lays the timestamp out in its nine-byte wire form.
    pub fn to_bytes(&self) -> (bytes: [u8; 9])
        ensures
            bytes@ == self.wire(),
    {
        let bytes = [
            (self.year / 0x100) as u8,
            (self.year % 0x100) as u8,
            self.month,
            self.day,
            self.hour,
            self.minute,
            self.second,
            (self.millisecond / 0x100) as u8,
            (self.millisecond % 0x100) as u8,
        ];
        assert(bytes@ =~= self.wire());
        bytes
    }
}

/// A reading whose fields are in calendar range, and whose year lies between
/// 0 and 65535, keeps every field's value when it is cut down to a timestamp.
pub proof fn lemma_of_clock_keeps_values(reading: ClockReading)
    requires
        reading.in_calendar_range(),
        0 <= reading.year <= 0xffff,
    ensures
        Timestamp::of_clock(reading).year == reading.year,
        Timestamp::of_clock(reading).month == reading.month,
        Timestamp::of_clock(reading).day == reading.day,
        Timestamp::of_clock(reading).hour == reading.hour,
        Timestamp::of_clock(reading).minute == reading.minute,
        Timestamp::of_clock(reading).second == reading.second,
        Timestamp::of_clock(reading).millisecond == reading.millisecond,
        reading.millisecond <= 999 ==> Timestamp::of_clock(reading).in_calendar_range(),
{
}

/// `std::time::SystemTime`: a reading of the system clock, carried from
/// the call that takes it to the call that measures it, and never opened.
#[verifier::external_type_specification]
#[verifier::external_body]
pub struct ExSystemTime(SystemTime);

/// `std::time::SystemTime::now`: the system clock's present reading.
/// Nothing is claimed of it.
#[verifier::external_body]
fn system_time_now() -> SystemTime {
    SystemTime::now()
}

/// `std::time::SystemTime::duration_since`, measured from `UNIX_EPOCH`: the
/// time that has passed since the start of 1970, or `None` where `at` lies
/// before it. Nothing is claimed of the result.
#[verifier::external_body]
fn since_unix_epoch(at: &SystemTime) -> Option<Duration> {
    at.duration_since(UNIX_EPOCH).ok()
}

/// `std::time::Duration::as_secs`: the whole seconds of a duration. Nothing
/// is claimed of the result.
#[verifier::external_body]
fn whole_seconds(elapsed: &Duration) -> u64 {
    elapsed.as_secs()
}

/// `std::time::Duration::subsec_nanos`: what a duration holds beyond its
/// whole seconds, in nanoseconds.
///
/// Not proved: that this is less than one second, as std documents.
#[verifier::external_body]
fn subsecond_nanos(elapsed: &Duration) -> (nanos: u32)
    ensures
        nanos < 1_000_000_000,
{
    elapsed.subsec_nanos()
}

/// The calendar fields, in UTC, of the moment that lies `secs` seconds and
/// `nsecs` nanoseconds after the start of 1970, as chrono computes them; or
/// `None` where chrono has no such moment.
pub uninterp spec fn calendar_of(secs: i64, nsecs: u32) -> Option<ClockReading>;

/// `chrono::DateTime::from_timestamp`, taken apart with the accessors
/// `year`, `month`, `day`, `hour`, `minute`, `second` and
/// `timestamp_subsec_millis` of the `DateTime<Utc>` that it returns.
///
/// Not proved: that the fields depend on the two numbers alone, which is
/// what the name `calendar_of` claims; that they lie in the ranges that
/// chrono documents for these accessors; and that the millisecond is the
/// nanosecond part divided by a million, the nanosecond part being kept as
/// it was given.
#[verifier::external_body]
fn calendar_reading(secs: i64, nsecs: u32) -> (reading: Option<ClockReading>)
    ensures
        reading == calendar_of(secs, nsecs),
        reading matches Some(r) ==> r.in_calendar_range() && r.millisecond == nsecs / 1_000_000,
{
    match DateTime::from_timestamp(secs, nsecs) {
        Some(at) => Some(ClockReading {
            year: at.year(),
            month: at.month(),
            day: at.day(),
            hour: at.hour(),
            minute: at.minute(),
            second: at.second(),
            millisecond: at.timestamp_subsec_millis(),
        }),
        None => None,
    }
}

/// The calendar reading for a time after the start of 1970, given in whole
/// seconds and nanoseconds beyond them; `None` where the seconds are more
/// than the calendar can count.
pub open spec fn reading_at(secs: u64, nanos: u32) -> Option<ClockReading> {
    if secs > i64::MAX {
        None
    } else {
        calendar_of(secs as i64, nanos)
    }
}

/// Turns a time after the start of 1970 into a calendar reading.
pub fn clock_reading_at(secs: u64, nanos: u32) -> (reading: Option<ClockReading>)
    ensures
        reading == reading_at(secs, nanos),
        reading matches Some(r) ==> r.in_calendar_range() && r.millisecond == nanos / 1_000_000,
{
    if secs > i64::MAX as u64 {
        None
    } else {
        calendar_reading(secs as i64, nanos)
    }
}

/// Reads the UTC wall clock. There is no reading where the system clock
/// stands before the start of 1970 or beyond what the calendar can count.
/// Which moment is read is the clock's affair; whatever it is, the fields
/// are in calendar range and the millisecond is below 1000.
pub fn read_utc_clock() -> (reading: Option<ClockReading>)
    ensures
        reading matches Some(r) ==> r.in_calendar_range() && r.millisecond <= 999,
{
    let now = system_time_now();
    match since_unix_epoch(&now) {
        Some(elapsed) => clock_reading_at(whole_seconds(&elapsed), subsecond_nanos(&elapsed)),
        None => None,
    }
}

/// The current UTC time as a timestamp, or the epoch where the clock gave
/// no reading. Either way it names a moment of a calendar day.
pub fn current_timestamp() -> (t: Timestamp)
    ensures
        t.in_calendar_range(),
{
    Timestamp::from_reading(read_utc_clock())
}

/// The current UTC time in the nine-byte wire form.
pub fn get_timestamp_bytes() -> (bytes: [u8; 9])
    ensures
        exists|t: Timestamp| t.in_calendar_range() && bytes@ == #[trigger] t.wire(),
{
    let t = current_timestamp();
    t.to_bytes()
}

} // verus!
