use dropblog::text::{fmt_pad2, fmt_pad4, fmt_u64, fmt_usize};
use dropblog::timestamp::{fmt_datetime, fmt_year, Timestamp};

#[test]
fn test_decimal_rendering() {
    assert_eq!(fmt_u64(0), "0");
    assert_eq!(fmt_u64(7), "7");
    assert_eq!(fmt_u64(12345), "12345");
    assert_eq!(fmt_usize(10), "10");
}

#[test]
fn test_zero_padding() {
    assert_eq!(fmt_pad2(5), "05");
    assert_eq!(fmt_pad2(59), "59");
    assert_eq!(fmt_pad4(5), "0005");
    assert_eq!(fmt_pad4(987), "0987");
    assert_eq!(fmt_pad4(2020), "2020");
    assert_eq!(fmt_pad4(12345), "12345");
}

#[test]
fn test_year_rendering() {
    assert_eq!(fmt_year(2020), "2020");
    assert_eq!(fmt_year(800), "0800");
    assert_eq!(fmt_year(-5), "-0005");
    assert_eq!(fmt_year(12345), "+12345");
}

#[test]
fn test_datetime_rendering() {
    let t = Timestamp { year: 2020, month: 6, day: 1, hour: 10, minute: 0 };
    assert_eq!(fmt_datetime(&t), "2020-06-01 10:00");
    let t2 = Timestamp { year: 1999, month: 12, day: 31, hour: 23, minute: 59 };
    assert_eq!(fmt_datetime(&t2), "1999-12-31 23:59");
}
