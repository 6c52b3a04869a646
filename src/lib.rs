//! Access to a hardware real-time clock: the kernel's raw clock record and its
//! conversion to and from a calendar date and time of day.
pub mod calendar;
pub mod rtc;

pub use calendar::{CalendarTime, ConversionError};
pub use rtc::{RtcTime, RTC_IOC_MAGIC, RTC_RD_TIME_NR, RTC_SET_TIME_NR, YEAR_EPOCH};
