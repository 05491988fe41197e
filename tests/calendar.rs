use datetime::calendar::{days_from_ymd, days_in_month, is_leap, ymd_from_days};
use datetime::{DatePiece, TimePiece, DateTimeError, Duration, Field, LocalDate, LocalDateTime, LocalTime, Month, Weekday};

#[test]
fn leap_year_boundaries() {
    assert!(LocalDate::ymd(2000, Month::February, 29).is_ok());
    assert!(LocalDate::ymd(2400, Month::February, 29).is_ok());
    assert_eq!(
        LocalDate::ymd(1900, Month::February, 29),
        Err(DateTimeError::OutOfRange(Field::Day))
    );
    assert_eq!(
        LocalDate::ymd(2100, Month::February, 29),
        Err(DateTimeError::OutOfRange(Field::Day))
    );
    assert!(LocalDate::ymd(2024, Month::February, 29).is_ok());
    assert_eq!(
        LocalDate::ymd(2023, Month::February, 29),
        Err(DateTimeError::OutOfRange(Field::Day))
    );
    assert!(is_leap(2000) && is_leap(2024) && is_leap(-4) && is_leap(0));
    assert!(!is_leap(1900) && !is_leap(2023) && !is_leap(-100));
}

#[test]
fn month_lengths() {
    assert_eq!(days_in_month(2023, 2), 28);
    assert_eq!(days_in_month(2024, 2), 29);
    assert_eq!(days_in_month(2024, 4), 30);
    assert_eq!(days_in_month(2024, 12), 31);
}

#[test]
fn day_counts_of_known_dates() {
    assert_eq!(days_from_ymd(1970, 1, 1), 0);
    assert_eq!(days_from_ymd(1969, 12, 31), -1);
    assert_eq!(days_from_ymd(2000, 3, 1), 11017);
    assert_eq!(days_from_ymd(0, 1, 1), -719528);
    assert_eq!(ymd_from_days(0), (1970, 1, 1));
    assert_eq!(ymd_from_days(-1), (1969, 12, 31));
    assert_eq!(ymd_from_days(11016), (2000, 2, 29));
    assert_eq!(ymd_from_days(-719529), (-1, 12, 31));
}

#[test]
fn day_count_round_trip() {
    let dates = [
        (2024, 2, 29),
        (1600, 12, 31),
        (-44, 3, 15),
        (99_999_999, 6, 1),
        (-99_999_999, 1, 1),
        (2100, 3, 1),
    ];
    for (y, m, d) in dates {
        assert_eq!(ymd_from_days(days_from_ymd(y, m, d)), (y, m, d));
    }
    let mut n: i64 = -800_000;
    while n < 800_000 {
        let (y, m, d) = ymd_from_days(n);
        assert_eq!(days_from_ymd(y, m, d), n);
        n += 997;
    }
}

#[test]
fn weekday_repeats_every_seven_days() {
    let start = LocalDateTime::at_ms(-123_456_789);
    let week = Duration::of(7 * 86400);
    let mut t = start;
    for _ in 0..10 {
        let next = t.plus(&week);
        assert_eq!(next.weekday(), t.weekday());
        t = next;
    }
    assert_eq!(LocalDateTime::at_ms(0).weekday(), Weekday::Thursday);
    assert_eq!(LocalDateTime::at_ms(-1).weekday(), Weekday::Wednesday);
}

#[test]
fn local_date_fields() {
    let date = LocalDate::ymd(2024, Month::December, 31).unwrap();
    assert_eq!(date.year(), 2024);
    assert_eq!(date.month(), Month::December);
    assert_eq!(date.day(), 31);
    assert_eq!(date.yearday(), 366);
    assert_eq!(date.weekday(), Weekday::Tuesday);
    assert_eq!(date.days_since_epoch(), 20088);
    assert_eq!(
        LocalDate::ymd(300_000_001, Month::January, 1),
        Err(DateTimeError::OutOfRange(Field::Year))
    );
    assert_eq!(
        LocalDate::ymd(2024, Month::April, 31),
        Err(DateTimeError::OutOfRange(Field::Day))
    );
    assert_eq!(
        LocalDate::ymd(2024, Month::April, 0),
        Err(DateTimeError::OutOfRange(Field::Day))
    );
}

#[test]
fn local_time_validation() {
    assert_eq!(LocalTime::hms(24, 0, 0), Err(DateTimeError::OutOfRange(Field::Hour)));
    assert_eq!(LocalTime::hms(23, 60, 0), Err(DateTimeError::OutOfRange(Field::Minute)));
    assert_eq!(LocalTime::hms(23, 59, 60), Err(DateTimeError::OutOfRange(Field::Second)));
    assert_eq!(
        LocalTime::hms_ms(23, 59, 59, 1000),
        Err(DateTimeError::OutOfRange(Field::Millisecond))
    );
    let t = LocalTime::hms_ms(23, 59, 59, 999).unwrap();
    assert_eq!(t.to_millis_of_day(), 86_399_999);
    assert_eq!(LocalTime::midnight().to_millis_of_day(), 0);
    assert_eq!((t.hour(), t.minute(), t.second(), t.millisecond()), (23, 59, 59, 999));
}

#[test]
fn local_date_time_fields_and_rollover() {
    let date = LocalDate::ymd(1999, Month::December, 31).unwrap();
    let t = LocalDateTime::new(date, LocalTime::hms_ms(23, 59, 59, 500).unwrap());
    assert_eq!(t.instant_ms(), 946_684_799_500);
    assert_eq!(t.yearday(), 365);
    let later = t.plus(&Duration::of_ms(0, 600));
    assert_eq!(later.year(), 2000);
    assert_eq!(later.month(), Month::January);
    assert_eq!(later.day(), 1);
    assert_eq!(later.hour(), 0);
    assert_eq!(later.second(), 0);
    assert_eq!(later.millisecond(), 100);
    let before = LocalDateTime::at(-1);
    assert_eq!((before.year(), before.month(), before.day()), (1969, Month::December, 31));
    assert_eq!((before.hour(), before.minute(), before.second()), (23, 59, 59));
    let far = LocalDateTime::at_ms(i64::MAX);
    assert_eq!(far.year(), 292_278_994);
    let far_back = LocalDateTime::at_ms(i64::MIN);
    assert_eq!(far_back.year(), -292_275_055);
}

#[test]
fn duration_arithmetic_normalizes() {
    assert_eq!(Duration::of_ms(1, 1500).lengths(), (2, 500));
    assert_eq!(Duration::of_ms(1, -1500).lengths(), (0, -500));
    assert_eq!(Duration::of_ms(-1, 200).lengths(), (0, -800));
    assert_eq!(Duration::of(3).minus(&Duration::of_ms(0, 3500)).lengths(), (0, -500));
    assert_eq!(Duration::of_ms(2, 250).times(-3).lengths(), (-6, -750));
    assert_eq!(Duration::of_ms(2, 600).plus(&Duration::of_ms(1, 700)).lengths(), (4, 300));
    assert_eq!(Duration::zero().total_milliseconds(), 0);
    assert_eq!(Duration::of(5).total_milliseconds(), 5000);
}

#[test]
fn month_and_weekday_ordinals() {
    assert_eq!(Month::from_one(2), Ok(Month::February));
    assert_eq!(Month::from_one(13), Err(DateTimeError::OutOfRange(Field::Month)));
    assert_eq!(Month::October.number(), 10);
    assert_eq!(Weekday::from_zero(6), Ok(Weekday::Saturday));
    assert_eq!(Weekday::from_zero(7), Err(DateTimeError::OutOfRange(Field::Weekday)));
    assert_eq!(Weekday::Monday.days_from_sunday(), 1);
}

#[test]
fn every_instant_rebuilds_from_its_fields() {
    let instants = [i64::MAX, i64::MIN, 0, -1, 951_782_400_123, -62_135_596_800_001];
    for ms in instants {
        let t = LocalDateTime::at_ms(ms);
        let date = LocalDate::ymd(t.year(), t.month(), t.day()).unwrap();
        let time = LocalTime::hms_ms(t.hour(), t.minute(), t.second(), t.millisecond()).unwrap();
        assert_eq!(LocalDateTime::new(date, time), t);
        assert_eq!(date.yearday(), t.yearday());
        assert_eq!(date.weekday(), t.weekday());
    }
    assert!(LocalDate::ymd(300_000_000, Month::December, 31).is_ok());
    assert!(LocalDate::ymd(-300_000_000, Month::January, 1).is_ok());
}
