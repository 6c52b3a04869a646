use hwclock::{RtcTime, RTC_IOC_MAGIC, RTC_RD_TIME_NR, RTC_SET_TIME_NR};

fn sample() -> RtcTime {
    RtcTime {
        tm_sec: 1,
        tm_min: 6,
        tm_hour: 14,
        tm_mday: 19,
        tm_mon: 1,
        tm_year: 118,
        tm_wday: 0,
        tm_yday: 0,
        tm_isdst: 0,
    }
}

#[test]
fn default_record_is_all_zero() {
    let z = RtcTime::default();
    assert_eq!(
        z,
        RtcTime {
            tm_sec: 0,
            tm_min: 0,
            tm_hour: 0,
            tm_mday: 0,
            tm_mon: 0,
            tm_year: 0,
            tm_wday: 0,
            tm_yday: 0,
            tm_isdst: 0,
        }
    );
}

#[test]
fn control_call_constants() {
    assert_eq!(RTC_IOC_MAGIC, b'p');
    assert_eq!(RTC_RD_TIME_NR, 0x09);
    assert_eq!(RTC_SET_TIME_NR, 0x0a);
}

#[test]
fn time_of_day_accessors() {
    let r = sample();
    assert_eq!((r.hour(), r.minute(), r.second(), r.nanosecond()), (14, 6, 1, 0));
}

#[test]
fn with_hour_checks_range() {
    let r = sample();
    assert_eq!(r.with_hour(23), Some(RtcTime { tm_hour: 23, ..r }));
    assert_eq!(r.with_hour(24), None);
}

#[test]
fn with_minute_checks_range() {
    let r = sample();
    assert_eq!(r.with_minute(0), Some(RtcTime { tm_min: 0, ..r }));
    assert_eq!(r.with_minute(60), None);
}

#[test]
fn with_second_checks_range() {
    let r = sample();
    assert_eq!(r.with_second(59), Some(RtcTime { tm_sec: 59, ..r }));
    assert_eq!(r.with_second(60), None);
}

#[test]
fn with_nanosecond_keeps_record() {
    let r = sample();
    assert_eq!(r.with_nanosecond(123), Some(r));
}
