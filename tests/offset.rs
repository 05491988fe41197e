use datetime::offset::Error;
use datetime::{DatePiece, TimePiece, Duration, LocalDate, LocalDateTime, LocalTime, Month, Offset, Weekday};

#[test]
fn fixed_seconds() {
    assert!(Offset::of_seconds(1234).is_ok());
}

#[test]
fn fixed_seconds_panic() {
    assert!(Offset::of_seconds(100_000).is_err());
}

#[test]
fn fixed_hm() {
    assert!(Offset::of_hours_and_minutes(5, 30).is_ok());
}

#[test]
fn fixed_hm_negative() {
    assert!(Offset::of_hours_and_minutes(-3, -45).is_ok());
}

#[test]
fn fixed_hm_err() {
    assert!(Offset::of_hours_and_minutes(8, 60).is_err());
}

#[test]
fn fixed_hm_signs() {
    assert!(Offset::of_hours_and_minutes(-4, 30).is_err());
}

#[test]
fn fixed_hm_signs_zero() {
    assert!(Offset::of_hours_and_minutes(4, 0).is_ok());
}

#[test]
fn of_seconds_boundaries() {
    assert!(Offset::of_seconds(86400).is_ok());
    assert!(Offset::of_seconds(-86400).is_ok());
    assert_eq!(Offset::of_seconds(86401), Err(Error::OutOfRange));
    assert_eq!(Offset::of_seconds(-86401), Err(Error::OutOfRange));
    assert!(Offset::of_seconds(0).is_ok());
}

#[test]
fn hours_and_minutes_errors_are_distinct() {
    assert_eq!(Offset::of_hours_and_minutes(8, 60), Err(Error::OutOfRange));
    assert_eq!(Offset::of_hours_and_minutes(-4, 30), Err(Error::SignMismatch));
    assert_eq!(Offset::of_hours_and_minutes(4, -30), Err(Error::SignMismatch));
    assert_eq!(Offset::of_hours_and_minutes(24, 0), Err(Error::OutOfRange));
    assert_eq!(Offset::of_hours_and_minutes(-24, 0), Err(Error::OutOfRange));
    assert_eq!(Offset::of_hours_and_minutes(0, -60), Err(Error::OutOfRange));
    assert!(Offset::of_hours_and_minutes(0, -30).is_ok());
}

#[test]
fn hours_and_minutes_convert_to_seconds() {
    // 5:30 east is 19800 seconds: the same offset as built from seconds.
    assert_eq!(Offset::of_hours_and_minutes(5, 30), Offset::of_seconds(19800));
    assert_eq!(Offset::of_hours_and_minutes(-3, -45), Offset::of_seconds(-13500));
    assert_eq!(Offset::of_hours_and_minutes(23, 59), Offset::of_seconds(86340));
}

#[test]
fn error_descriptions_and_causes() {
    assert_eq!(Error::OutOfRange.description(), "offset field out of range");
    assert_eq!(Error::SignMismatch.description(), "sign mismatch");
    let inner = datetime::DateTimeError::OutOfRange(datetime::Field::Day);
    assert_eq!(Error::Date(inner).description(), "datetime field out of range");
    assert_eq!(Error::Date(inner).cause(), Some(inner));
    assert_eq!(Error::SignMismatch.cause(), None);
}

fn sample_local() -> LocalDateTime {
    let date = LocalDate::ymd(2015, Month::December, 31).unwrap();
    let time = LocalTime::hms_ms(22, 30, 15, 250).unwrap();
    LocalDateTime::new(date, time)
}

#[test]
fn utc_leaves_fields_alone() {
    let t = sample_local();
    let odt = Offset::utc().transform_date(t);
    assert_eq!(odt.year(), 2015);
    assert_eq!(odt.month(), Month::December);
    assert_eq!(odt.day(), 31);
    assert_eq!(odt.yearday(), 365);
    assert_eq!(odt.weekday(), Weekday::Thursday);
    assert_eq!(odt.hour(), 22);
    assert_eq!(odt.minute(), 30);
    assert_eq!(odt.second(), 15);
    assert_eq!(odt.millisecond(), 250);
}

#[test]
fn offset_moves_fields_across_year_end() {
    let t = sample_local();
    let o = Offset::of_hours_and_minutes(2, 0).unwrap();
    let odt = o.transform_date(t);
    assert_eq!(odt.local(), t);
    assert_eq!(odt.year(), 2016);
    assert_eq!(odt.month(), Month::January);
    assert_eq!(odt.day(), 1);
    assert_eq!(odt.yearday(), 1);
    assert_eq!(odt.weekday(), Weekday::Friday);
    assert_eq!(odt.hour(), 0);
    assert_eq!(odt.minute(), 30);
    assert_eq!(odt.second(), 15);
    assert_eq!(odt.millisecond(), 250);
    let moved = t.plus(&Duration::of(7200));
    assert_eq!(odt.year(), moved.year());
    assert_eq!(odt.month(), moved.month());
    assert_eq!(odt.day(), moved.day());
    assert_eq!(odt.hour(), moved.hour());
    assert_eq!(t.year(), 2015);
}

#[test]
fn negative_offset_moves_back() {
    let date = LocalDate::ymd(2000, Month::March, 1).unwrap();
    let t = LocalDateTime::new(date, LocalTime::hms(0, 10, 0).unwrap());
    let odt = Offset::of_seconds(-3600).unwrap().transform_date(t);
    assert_eq!(odt.month(), Month::February);
    assert_eq!(odt.day(), 29);
    assert_eq!(odt.hour(), 23);
    assert_eq!(odt.minute(), 10);
}

#[test]
fn repeated_field_access_is_stable() {
    let odt = Offset::of_seconds(-1234).unwrap().transform_date(sample_local());
    let first = (odt.year(), odt.month(), odt.day(), odt.hour(), odt.minute(), odt.second());
    for _ in 0..5 {
        let again = (odt.year(), odt.month(), odt.day(), odt.hour(), odt.minute(), odt.second());
        assert_eq!(first, again);
    }
    assert_eq!(odt.local(), sample_local());
}

#[test]
fn equal_inputs_give_equal_values() {
    assert_eq!(Offset::utc(), Offset::utc());
    assert_eq!(Offset::of_hours_and_minutes(0, -30), Offset::of_seconds(-1800));
    let t = sample_local();
    let o = Offset::of_seconds(3600).unwrap();
    assert_eq!(o.transform_date(t), o.transform_date(t));
    assert_ne!(o.transform_date(t), Offset::utc().transform_date(t));
}
