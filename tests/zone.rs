use datetime::{DatePiece, TimePiece, LocalDate, LocalDateTime, LocalTime, Month, Offset, TimeZone, Weekday};

fn at(y: i64, m: Month, d: i8, h: i8, min: i8) -> LocalDateTime {
    LocalDateTime::new(LocalDate::ymd(y, m, d).unwrap(), LocalTime::hms(h, min, 0).unwrap())
}

fn summer_zone() -> TimeZone {
    let mut zone = TimeZone::fixed(Offset::of_hours_and_minutes(1, 0).unwrap());
    let start = at(2024, Month::March, 31, 1, 0).instant_ms();
    let end = at(2024, Month::October, 27, 1, 0).instant_ms();
    assert!(zone.add_transition(start, Offset::of_hours_and_minutes(2, 0).unwrap()));
    assert!(zone.add_transition(end, Offset::of_hours_and_minutes(1, 0).unwrap()));
    zone
}

#[test]
fn zone_offset_follows_transitions() {
    let zone = summer_zone();
    let winter = at(2024, Month::January, 10, 12, 0);
    let summer = at(2024, Month::July, 10, 12, 0);
    let autumn = at(2024, Month::November, 10, 12, 0);
    assert_eq!(zone.offset_at(winter.instant_ms()), Offset::of_seconds(3600).unwrap());
    assert_eq!(zone.offset_at(summer.instant_ms()), Offset::of_seconds(7200).unwrap());
    assert_eq!(zone.offset_at(autumn.instant_ms()), Offset::of_seconds(3600).unwrap());
    assert_eq!(zone.to_zoned(summer).hour(), 14);
    assert_eq!(zone.to_zoned(winter).hour(), 13);
}

#[test]
fn zone_rejects_transitions_out_of_order() {
    let mut zone = summer_zone();
    let early = at(2020, Month::May, 1, 0, 0).instant_ms();
    assert!(!zone.add_transition(early, Offset::utc()));
    assert_eq!(zone.offset_at(early), Offset::of_seconds(3600).unwrap());
}

#[test]
fn zoned_fields_cross_midnight() {
    let zone = summer_zone();
    let local = at(2024, Month::August, 31, 23, 15);
    let zoned = zone.to_zoned(local);
    assert_eq!(zoned.local(), local);
    assert_eq!(zoned.offset(), Offset::of_seconds(7200).unwrap());
    assert_eq!((zoned.year(), zoned.month(), zoned.day()), (2024, Month::September, 1));
    assert_eq!(zoned.yearday(), 245);
    assert_eq!(zoned.weekday(), Weekday::Sunday);
    assert_eq!((zoned.hour(), zoned.minute(), zoned.second(), zoned.millisecond()), (1, 15, 0, 0));
}

#[test]
fn fixed_zone_matches_its_offset() {
    let o = Offset::of_hours_and_minutes(-5, -30).unwrap();
    let zone = TimeZone::fixed(o);
    let local = at(2001, Month::January, 1, 3, 0);
    let zoned = zone.to_zoned(local);
    let fixed = o.transform_date(local);
    assert_eq!(zoned.year(), fixed.year());
    assert_eq!(zoned.month(), fixed.month());
    assert_eq!(zoned.day(), fixed.day());
    assert_eq!(zoned.hour(), fixed.hour());
    assert_eq!(zoned.minute(), fixed.minute());
    assert_eq!((zoned.year(), zoned.day(), zoned.hour(), zoned.minute()), (2000, 31, 21, 30));
}
