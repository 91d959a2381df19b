use vstd::prelude::*;

use embedded_sdmmc::Timestamp;
use pcf8563::DateTime;

verus! {

// Both are plain structs of public `u8` fields, declared here as they are.
#[verifier::external_type_specification]
pub struct ExTimestamp(embedded_sdmmc::Timestamp);

#[verifier::external_type_specification]
pub struct ExDateTime(pcf8563::DateTime);

/// 1 January 1970, midnight: what the clock shows when the real-time clock
/// cannot be read.
pub open spec fn zero_timestamp() -> Timestamp {
    Timestamp {
        year_since_1970: 0,
        zero_indexed_month: 0,
        zero_indexed_day: 0,
        hours: 0,
        minutes: 0,
        seconds: 0,
    }
}

/// A reading of the real-time clock (years counted from 2000, months and
/// days from 1) as a file system timestamp (years counted from 1970, months
/// and days from 0).
pub open spec fn timestamp_of(time: DateTime) -> Timestamp
    recommends
        time.month >= 1,
        time.day >= 1,
{
    Timestamp {
        year_since_1970: (time.year + 30) as u8,
        zero_indexed_month: (time.month - 1) as u8,
        zero_indexed_day: (time.day - 1) as u8,
        hours: time.hours,
        minutes: time.minutes,
        seconds: time.seconds,
    }
}

/// Converts a real-time clock reading into a file system timestamp.
pub fn pcf8563_date_time_to_timestamp(time: DateTime) -> (r: Timestamp)
    requires
        time.month >= 1,
        time.day >= 1,
    ensures
        r == timestamp_of(time),
{
    Timestamp {
        year_since_1970: ((time.year as u32) + 2000 - 1970) as u8,
        zero_indexed_month: time.month - 1,
        zero_indexed_day: time.day - 1,
        hours: time.hours,
        minutes: time.minutes,
        seconds: time.seconds,
    }
}

/// The time last read from the real-time clock, with the day of the week.
pub struct ClockData {
    timestamp: Timestamp,
    day_of_week: u8,
}

impl View for ClockData {
    /// The timestamp and the day of the week.
    type V = (Timestamp, u8);

    closed spec fn view(&self) -> (Timestamp, u8) {
        (self.timestamp, self.day_of_week)
    }
}

impl ClockData {
    /// Calendar month and day both fit a `u8` once counted from 1.
    #[verifier::type_invariant]
    spec fn counts_from_one_fit(&self) -> bool {
        self.timestamp.zero_indexed_month < 255 && self.timestamp.zero_indexed_day < 255
    }

    /// Takes the time from a real-time clock reading.
    pub fn set_from_pcf8563(&mut self, time: DateTime)
        requires
            time.month >= 1,
            time.day >= 1,
        ensures
            final(self)@ == (timestamp_of(time), time.weekday),
    {
        self.timestamp = pcf8563_date_time_to_timestamp(time);
        self.day_of_week = time.weekday;
    }

    /// Goes back to midnight of 1 January 1970, day of the week 0.
    pub fn reset_to_default(&mut self)
        ensures
            final(self)@ == (zero_timestamp(), 0u8),
    {
        self.timestamp = Timestamp {
            year_since_1970: 0,
            zero_indexed_month: 0,
            zero_indexed_day: 0,
            hours: 0,
            minutes: 0,
            seconds: 0,
        };
        self.day_of_week = 0;
    }

    /// The timestamp that files written now are stamped with.
    pub fn get_timestamp(&self) -> (r: Timestamp)
        ensures
            r == self@.0,
    {
        self.timestamp
    }

    /// The calendar year.
    pub fn year(&self) -> (r: u16)
        ensures
            r == self@.0.year_since_1970 + 1970,
    {
        self.timestamp.year_since_1970 as u16 + 1970
    }

    /// The month, from 1.
    pub fn month(&self) -> (r: u8)
        ensures
            r == self@.0.zero_indexed_month + 1,
    {
        proof {
            use_type_invariant(self);
        }
        self.timestamp.zero_indexed_month + 1
    }

    /// The day of the month, from 1.
    pub fn day(&self) -> (r: u8)
        ensures
            r == self@.0.zero_indexed_day + 1,
    {
        proof {
            use_type_invariant(self);
        }
        self.timestamp.zero_indexed_day + 1
    }

    /// The day of the week, as the real-time clock counts it.
    pub fn week_day(&self) -> (r: u8)
        ensures
            r == self@.1,
    {
        self.day_of_week
    }

    /// Hours past midnight.
    pub fn hours(&self) -> (r: u8)
        ensures
            r == self@.0.hours,
    {
        self.timestamp.hours
    }

    /// Minutes past the hour.
    pub fn minutes(&self) -> (r: u8)
        ensures
            r == self@.0.minutes,
    {
        self.timestamp.minutes
    }

    /// Seconds past the minute.
    pub fn seconds(&self) -> (r: u8)
        ensures
            r == self@.0.seconds,
    {
        self.timestamp.seconds
    }
}

impl Default for ClockData {
    /// Midnight of 1 January 1970, day of the week 0.
    fn default() -> (r: Self)
        ensures
            r@ == (zero_timestamp(), 0u8),
    {
        ClockData {
            timestamp: Timestamp {
                year_since_1970: 0,
                zero_indexed_month: 0,
                zero_indexed_day: 0,
                hours: 0,
                minutes: 0,
                seconds: 0,
            },
            day_of_week: 0,
        }
    }
}

} // verus!
