//! The kernel's raw clock record and its conversion to and from calendar values.
use vstd::prelude::*;

use crate::calendar::{date_exists, time_exists, CalendarTime, ConversionError};

verus! {

/// Base year of the raw record: a raw year of `118` stands for 2018.
pub const YEAR_EPOCH: i32 = 1900;

/// Magic byte of the kernel's clock control calls.
pub const RTC_IOC_MAGIC: u8 = 0x70;

/// Command number of the control call that reads the clock.
pub const RTC_RD_TIME_NR: u8 = 0x09;

/// Command number of the control call that sets the clock.
pub const RTC_SET_TIME_NR: u8 = 0x0a;

/// The kernel's `struct rtc_time`: nine 32-bit fields in this order.
///
/// Its resolution is one second and the clock is taken to run on UTC. The
/// last three fields are not used and are zero in every value built from a
/// calendar value.
#[derive(Debug, Clone, Copy, PartialEq, Eq, Structural)]
pub struct RtcTime {
    /// Seconds (0-59).
    pub tm_sec: i32,
    /// Minutes (0-59).
    pub tm_min: i32,
    /// Hours (0-23).
    pub tm_hour: i32,
    /// Day of the month (1-31).
    pub tm_mday: i32,
    /// Months since January (0-11).
    pub tm_mon: i32,
    /// Years since `YEAR_EPOCH`.
    pub tm_year: i32,
    /// Not used; zero.
    pub tm_wday: i32,
    /// Not used; zero.
    pub tm_yday: i32,
    /// Not used; zero.
    pub tm_isdst: i32,
}

impl Default for RtcTime {
    /// The all-zero record, the buffer that a read starts from.
    fn default() -> (r: RtcTime)
        ensures
            r == RtcTime::zeroed(),
    {
        RtcTime {
            tm_sec: 0,
            tm_min: 0,
            tm_hour: 0,
            tm_mday: 0,
            tm_mon: 0,
            tm_year: 0,
            tm_wday: 0,
            tm_yday: 0,
            tm_isdst: 0,
        }
    }
}

impl RtcTime {
    /// The record with every field zero.
    pub open spec fn zeroed() -> RtcTime {
        RtcTime {
            tm_sec: 0,
            tm_min: 0,
            tm_hour: 0,
            tm_mday: 0,
            tm_mon: 0,
            tm_year: 0,
            tm_wday: 0,
            tm_yday: 0,
            tm_isdst: 0,
        }
    }

    /// The three unused fields are zero.
    pub open spec fn unused_zero(self) -> bool {
        self.tm_wday == 0 && self.tm_yday == 0 && self.tm_isdst == 0
    }

    /// The calendar year that the record stands for.
    pub open spec fn calendar_year(self) -> int {
        self.tm_year + YEAR_EPOCH
    }

    /// The one-based calendar month that the record stands for.
    pub open spec fn calendar_month(self) -> int {
        self.tm_mon + 1
    }

    /// The date fields name a day that exists.
    pub open spec fn date_valid(self) -> bool {
        date_exists(self.calendar_year(), self.calendar_month(), self.tm_mday as int)
    }

    /// The time fields name a whole second of a day.
    pub open spec fn time_valid(self) -> bool {
        time_exists(self.tm_hour as int, self.tm_min as int, self.tm_sec as int, 0)
    }

    /// The calendar value that a valid record stands for.
    pub open spec fn calendar(self) -> CalendarTime {
        CalendarTime {
            year: self.calendar_year() as i32,
            month: self.calendar_month() as u32,
            day: self.tm_mday as u32,
            hour: self.tm_hour as u32,
            minute: self.tm_min as u32,
            second: self.tm_sec as u32,
            nanosecond: 0,
        }
    }

    /// The record that stands for a calendar value, the fraction of its second
    /// dropped.
    pub open spec fn of_calendar(c: CalendarTime) -> RtcTime {
        RtcTime {
            tm_sec: c.second as i32,
            tm_min: c.minute as i32,
            tm_hour: c.hour as i32,
            tm_mday: c.day as i32,
            tm_mon: (c.month - 1) as i32,
            tm_year: (c.year - YEAR_EPOCH) as i32,
            tm_wday: 0,
            tm_yday: 0,
            tm_isdst: 0,
        }
    }

    /// Converts the record to a calendar value. The unused fields are ignored.
    pub fn to_calendar(&self) -> (r: Result<CalendarTime, ConversionError>)
        ensures
            !self.date_valid() ==> r == Err::<CalendarTime, ConversionError>(
                ConversionError::InvalidDate,
            ),
            self.date_valid() && !self.time_valid() ==> r == Err::<
                CalendarTime,
                ConversionError,
            >(ConversionError::InvalidTime),
            self.date_valid() && self.time_valid() ==> r == Ok::<
                CalendarTime,
                ConversionError,
            >(self.calendar()),
            r matches Ok(c) ==> c.wf(),
    {
        if self.tm_year > i32::MAX - YEAR_EPOCH || self.tm_mon < 0 || self.tm_mon > 11
            || self.tm_mday < 1 {
            return Err(ConversionError::InvalidDate);
        }
        let year: i32 = self.tm_year + YEAR_EPOCH;
        let month: u32 = (self.tm_mon + 1) as u32;
        let day: u32 = self.tm_mday as u32;
        if chrono::NaiveDate::from_ymd_opt(year, month, day).is_none() {
            return Err(ConversionError::InvalidDate);
        }
        if self.tm_hour < 0 || self.tm_min < 0 || self.tm_sec < 0 {
            return Err(ConversionError::InvalidTime);
        }
        let hour: u32 = self.tm_hour as u32;
        let minute: u32 = self.tm_min as u32;
        let second: u32 = self.tm_sec as u32;
        if chrono::NaiveTime::from_hms_nano_opt(hour, minute, second, 0).is_none() {
            return Err(ConversionError::InvalidTime);
        }
        Ok(CalendarTime { year, month, day, hour, minute, second, nanosecond: 0 })
    }

    /// Converts a calendar value to a record: the fraction of a second is
    /// dropped, not rounded, and the unused fields are zero.
    pub fn from_calendar(c: &CalendarTime) -> (r: RtcTime)
        requires
            c.wf(),
        ensures
            r == RtcTime::of_calendar(*c),
            r.tm_sec == c.second,
            r.tm_min == c.minute,
            r.tm_hour == c.hour,
            r.tm_mday == c.day,
            r.tm_mon == c.month - 1,
            r.tm_year == c.year - YEAR_EPOCH,
            r.unused_zero(),
    {
        RtcTime {
            tm_sec: c.second as i32,
            tm_min: c.minute as i32,
            tm_hour: c.hour as i32,
            tm_mday: c.day as i32,
            tm_mon: (c.month - 1) as i32,
            tm_year: c.year - YEAR_EPOCH,
            tm_wday: 0,
            tm_yday: 0,
            tm_isdst: 0,
        }
    }

    /// The second, as an unsigned number.
    pub fn second(&self) -> (r: u32)
        ensures
            r == self.tm_sec as u32,
    {
        self.tm_sec as u32
    }

    /// The minute, as an unsigned number.
    pub fn minute(&self) -> (r: u32)
        ensures
            r == self.tm_min as u32,
    {
        self.tm_min as u32
    }

    /// The hour, as an unsigned number.
    pub fn hour(&self) -> (r: u32)
        ensures
            r == self.tm_hour as u32,
    {
        self.tm_hour as u32
    }

    /// The record holds no fraction of a second.
    pub fn nanosecond(&self) -> (r: u32)
        ensures
            r == 0,
    {
        0
    }

    /// The record with its hour replaced; `None` unless `hour < 24`.
    pub fn with_hour(&self, hour: u32) -> (r: Option<RtcTime>)
        ensures
            hour < 24 ==> r == Some(RtcTime { tm_hour: hour as i32, ..*self }),
            hour >= 24 ==> r is None,
    {
        if hour < 24 {
            Some(RtcTime { tm_hour: hour as i32, ..*self })
        } else {
            None
        }
    }

    /// The record with its minute replaced; `None` unless `minute < 60`.
    pub fn with_minute(&self, minute: u32) -> (r: Option<RtcTime>)
        ensures
            minute < 60 ==> r == Some(RtcTime { tm_min: minute as i32, ..*self }),
            minute >= 60 ==> r is None,
    {
        if minute < 60 {
            Some(RtcTime { tm_min: minute as i32, ..*self })
        } else {
            None
        }
    }

    /// The record with its second replaced; `None` unless `second < 60`.
    pub fn with_second(&self, second: u32) -> (r: Option<RtcTime>)
        ensures
            second < 60 ==> r == Some(RtcTime { tm_sec: second as i32, ..*self }),
            second >= 60 ==> r is None,
    {
        if second < 60 {
            Some(RtcTime { tm_sec: second as i32, ..*self })
        } else {
            None
        }
    }

    /// The record holds no fraction of a second, so any is dropped and the
    /// record comes back unchanged.
    pub fn with_nanosecond(&self, _nanosecond: u32) -> (r: Option<RtcTime>)
        ensures
            r == Some(*self),
    {
        Some(*self)
    }
}

/// A record whose unused fields are zero and whose fields name an existing date
/// and time comes back unchanged from a conversion to a calendar value and back.
pub proof fn lemma_record_round_trip(r: RtcTime)
    requires
        r.unused_zero(),
        r.date_valid(),
        r.time_valid(),
    ensures
        r.calendar().wf(),
        RtcTime::of_calendar(r.calendar()) == r,
{
}

/// A well-formed calendar value converted to a record and back loses only the
/// fraction of its second.
pub proof fn lemma_calendar_round_trip(c: CalendarTime)
    requires
        c.wf(),
    ensures
        RtcTime::of_calendar(c).date_valid(),
        RtcTime::of_calendar(c).time_valid(),
        RtcTime::of_calendar(c).calendar() == c.truncated(),
{
}

} // verus!
