//! Calendar dates and times of day, validated the way `chrono` validates them.
use vstd::prelude::*;

verus! {

/// The earliest year that `chrono::NaiveDate` can represent.
pub const MIN_YEAR: i32 = -262143;

/// The latest year that `chrono::NaiveDate` can represent.
pub const MAX_YEAR: i32 = 262142;

/// Leap years of the proleptic Gregorian calendar.
pub open spec fn is_leap_year(year: int) -> bool {
    year % 4 == 0 && (year % 100 != 0 || year % 400 == 0)
}

/// Number of days in a (one-based) month of a given year.
pub open spec fn days_in_month(year: int, month: int) -> int {
    if month == 2 {
        if is_leap_year(year) { 29 } else { 28 }
    } else if month == 4 || month == 6 || month == 9 || month == 11 {
        30
    } else {
        31
    }
}

/// A calendar date (one-based month and day) exists and lies in the range of years
/// that can be represented.
pub open spec fn date_exists(year: int, month: int, day: int) -> bool {
    &&& MIN_YEAR <= year <= MAX_YEAR
    &&& 1 <= month <= 12
    &&& 1 <= day <= days_in_month(year, month)
}

/// A time of day exists. A nanosecond part of one second or more marks a leap
/// second, which only the 59th second of a minute may carry.
pub open spec fn time_exists(hour: int, minute: int, second: int, nanosecond: int) -> bool {
    &&& 0 <= hour < 24
    &&& 0 <= minute < 60
    &&& 0 <= second < 60
    &&& 0 <= nanosecond < 2_000_000_000
    &&& (nanosecond >= 1_000_000_000 ==> second == 59)
}

#[verifier::external_type_specification]
#[verifier::external_body]
pub struct ExNaiveDate(chrono::NaiveDate);

#[verifier::external_type_specification]
#[verifier::external_body]
pub struct ExNaiveTime(chrono::NaiveTime);

/// Relies on `chrono::NaiveDate::from_ymd_opt`: it returns `None` exactly when the
/// month or day is invalid, the day does not exist in that month, or the year is
/// outside `NaiveDate::MIN ..= NaiveDate::MAX`.
pub assume_specification[ chrono::NaiveDate::from_ymd_opt ](year: i32, month: u32, day: u32) -> (r:
    Option<chrono::NaiveDate>)
    ensures
        r is Some <==> date_exists(year as int, month as int, day as int),
;

/// Relies on `chrono::NaiveTime::from_hms_nano_opt`: it returns `None` exactly when
/// the hour, minute, second or nanosecond is out of range, or a leap-second
/// nanosecond part is given to a second other than 59.
pub assume_specification[ chrono::NaiveTime::from_hms_nano_opt ](
    hour: u32,
    min: u32,
    sec: u32,
    nano: u32,
) -> (r: Option<chrono::NaiveTime>)
    ensures
        r is Some <==> time_exists(hour as int, min as int, sec as int, nano as int),
;

/// Why a set of fields does not form a calendar date and time.
#[derive(Debug, Clone, Copy, PartialEq, Eq, Structural)]
pub enum ConversionError {
    /// The year, month and day do not name a representable day.
    InvalidDate,
    /// The hour, minute, second and fraction do not name a time of day.
    InvalidTime,
}

/// A date and time of day without time zone, down to the nanosecond.
///
/// `month` and `day` are one-based. A value is well formed when `wf` holds; the
/// constructor only makes well-formed values.
#[derive(Debug, Clone, Copy, PartialEq, Eq, Structural)]
pub struct CalendarTime {
    pub year: i32,
    pub month: u32,
    pub day: u32,
    pub hour: u32,
    pub minute: u32,
    pub second: u32,
    pub nanosecond: u32,
}

impl CalendarTime {
    /// The fields name an existing date and time of day.
    pub open spec fn wf(self) -> bool {
        &&& date_exists(self.year as int, self.month as int, self.day as int)
        &&& time_exists(
            self.hour as int,
            self.minute as int,
            self.second as int,
            self.nanosecond as int,
        )
    }

    /// The same instant with the fraction of a second dropped.
    pub open spec fn truncated(self) -> CalendarTime {
        CalendarTime { nanosecond: 0, ..self }
    }

    /// Builds a date and time from its fields; the date is checked before the time.
    pub fn new(
        year: i32,
        month: u32,
        day: u32,
        hour: u32,
        minute: u32,
        second: u32,
        nanosecond: u32,
    ) -> (r: Result<CalendarTime, ConversionError>)
        ensures
            !date_exists(year as int, month as int, day as int) ==> r == Err::<
                CalendarTime,
                ConversionError,
            >(ConversionError::InvalidDate),
            date_exists(year as int, month as int, day as int) && !time_exists(
                hour as int,
                minute as int,
                second as int,
                nanosecond as int,
            ) ==> r == Err::<CalendarTime, ConversionError>(ConversionError::InvalidTime),
            date_exists(year as int, month as int, day as int) && time_exists(
                hour as int,
                minute as int,
                second as int,
                nanosecond as int,
            ) ==> r == Ok::<CalendarTime, ConversionError>(
                CalendarTime { year, month, day, hour, minute, second, nanosecond },
            ),
    {
        if chrono::NaiveDate::from_ymd_opt(year, month, day).is_none() {
            return Err(ConversionError::InvalidDate);
        }
        if chrono::NaiveTime::from_hms_nano_opt(hour, minute, second, nanosecond).is_none() {
            return Err(ConversionError::InvalidTime);
        }
        Ok(CalendarTime { year, month, day, hour, minute, second, nanosecond })
    }
}

} // verus!
