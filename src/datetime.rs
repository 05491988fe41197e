//! Calendar dates, times of day, and local date-times built on a linear
//! millisecond instant.
use vstd::prelude::*;
use crate::calendar::{
    civil_from_days_spec, day_of_year, days_from_civil, days_from_ymd, days_in_month,
    floor_div, floor_mod, is_valid_date, lemma_date_in_year, ymd_from_days, DAY_LIMIT,
    YEAR_LIMIT,
};
use crate::duration::Duration;

verus! {

/// Milliseconds in one day.
pub const MILLIS_PER_DAY: i64 = 86_400_000;

/// Largest year magnitude a `LocalDate` can be built with. Every year that a
/// `LocalDateTime` can show lies within it.
pub const MAX_YEAR: i64 = 300_000_000;

/// A month of the year.
#[derive(PartialEq, Eq, Structural, Debug, Clone, Copy)]
pub enum Month {
    January,
    February,
    March,
    April,
    May,
    June,
    July,
    August,
    September,
    October,
    November,
    December,
}

impl Month {
    /// One-based ordinal: January is 1.
    pub open spec fn number_spec(self) -> int {
        match self {
            Month::January => 1,
            Month::February => 2,
            Month::March => 3,
            Month::April => 4,
            Month::May => 5,
            Month::June => 6,
            Month::July => 7,
            Month::August => 8,
            Month::September => 9,
            Month::October => 10,
            Month::November => 11,
            Month::December => 12,
        }
    }

    /// One-based ordinal: January is 1.
    pub fn number(self) -> (r: i8)
        ensures
            r as int == self.number_spec(),
    {
        match self {
            Month::January => 1,
            Month::February => 2,
            Month::March => 3,
            Month::April => 4,
            Month::May => 5,
            Month::June => 6,
            Month::July => 7,
            Month::August => 8,
            Month::September => 9,
            Month::October => 10,
            Month::November => 11,
            Month::December => 12,
        }
    }

    /// The month with one-based ordinal `n`.
    pub fn from_one(n: i8) -> (r: Result<Month, DateTimeError>)
        ensures
            (1 <= n <= 12) <==> r is Ok,
            r matches Ok(m) ==> m.number_spec() == n,
            r matches Err(e) ==> e == DateTimeError::OutOfRange(Field::Month),
    {
        match n {
            1 => Ok(Month::January),
            2 => Ok(Month::February),
            3 => Ok(Month::March),
            4 => Ok(Month::April),
            5 => Ok(Month::May),
            6 => Ok(Month::June),
            7 => Ok(Month::July),
            8 => Ok(Month::August),
            9 => Ok(Month::September),
            10 => Ok(Month::October),
            11 => Ok(Month::November),
            12 => Ok(Month::December),
            _ => Err(DateTimeError::OutOfRange(Field::Month)),
        }
    }
}

/// A day of the week.
#[derive(PartialEq, Eq, Structural, Debug, Clone, Copy)]
pub enum Weekday {
    Sunday,
    Monday,
    Tuesday,
    Wednesday,
    Thursday,
    Friday,
    Saturday,
}

impl Weekday {
    /// Position in the week counted from Sunday, which is 0.
    pub open spec fn days_from_sunday_spec(self) -> int {
        match self {
            Weekday::Sunday => 0,
            Weekday::Monday => 1,
            Weekday::Tuesday => 2,
            Weekday::Wednesday => 3,
            Weekday::Thursday => 4,
            Weekday::Friday => 5,
            Weekday::Saturday => 6,
        }
    }

    /// Position in the week counted from Sunday, which is 0.
    pub fn days_from_sunday(self) -> (r: i8)
        ensures
            r as int == self.days_from_sunday_spec(),
    {
        match self {
            Weekday::Sunday => 0,
            Weekday::Monday => 1,
            Weekday::Tuesday => 2,
            Weekday::Wednesday => 3,
            Weekday::Thursday => 4,
            Weekday::Friday => 5,
            Weekday::Saturday => 6,
        }
    }

    /// The weekday `n` days after Sunday, for `n` in 0..7.
    pub fn from_zero(n: i8) -> (r: Result<Weekday, DateTimeError>)
        ensures
            (0 <= n <= 6) <==> r is Ok,
            r matches Ok(w) ==> w.days_from_sunday_spec() == n,
            r matches Err(e) ==> e == DateTimeError::OutOfRange(Field::Weekday),
    {
        match n {
            0 => Ok(Weekday::Sunday),
            1 => Ok(Weekday::Monday),
            2 => Ok(Weekday::Tuesday),
            3 => Ok(Weekday::Wednesday),
            4 => Ok(Weekday::Thursday),
            5 => Ok(Weekday::Friday),
            6 => Ok(Weekday::Saturday),
            _ => Err(DateTimeError::OutOfRange(Field::Weekday)),
        }
    }
}

/// The calendar or clock field that failed validation.
#[derive(PartialEq, Eq, Structural, Debug, Clone, Copy)]
pub enum Field {
    Year,
    Month,
    Day,
    Weekday,
    Hour,
    Minute,
    Second,
    Millisecond,
}

/// A calendar or clock field outside its admissible range.
#[derive(PartialEq, Eq, Structural, Debug, Clone, Copy)]
pub enum DateTimeError {
    OutOfRange(Field),
}

/// Day count of the day holding instant `ms` (milliseconds since
/// 1970-01-01T00:00).
pub open spec fn day_number(ms: int) -> int {
    ms / (MILLIS_PER_DAY as int)
}

/// Milliseconds elapsed since the start of the day holding instant `ms`.
pub open spec fn millis_of_day(ms: int) -> int {
    ms % (MILLIS_PER_DAY as int)
}

pub open spec fn year_at(ms: int) -> int {
    civil_from_days_spec(day_number(ms)).0
}

pub open spec fn month_at(ms: int) -> int {
    civil_from_days_spec(day_number(ms)).1
}

pub open spec fn day_at(ms: int) -> int {
    civil_from_days_spec(day_number(ms)).2
}

pub open spec fn yearday_at(ms: int) -> int {
    let t = civil_from_days_spec(day_number(ms));
    day_of_year(t.0, t.1, t.2)
}

/// Weekday of a day count, counted from Sunday; day zero was a Thursday.
pub open spec fn weekday_of_days(days: int) -> int {
    (days + 4) % 7
}

pub open spec fn weekday_at(ms: int) -> int {
    weekday_of_days(day_number(ms))
}

pub open spec fn hour_at(ms: int) -> int {
    millis_of_day(ms) / 3_600_000
}

pub open spec fn minute_at(ms: int) -> int {
    millis_of_day(ms) / 60_000 % 60
}

pub open spec fn second_at(ms: int) -> int {
    millis_of_day(ms) / 1000 % 60
}

pub open spec fn millisecond_at(ms: int) -> int {
    millis_of_day(ms) % 1000
}

/// The calendar fields of a value that shows some instant.
pub trait DatePiece {
    /// The instant, in milliseconds since 1970-01-01T00:00, whose calendar
    /// fields this value shows.
    spec fn calendar_instant(&self) -> int;

    fn year(&self) -> (r: i64)
        ensures
            r as int == year_at(self.calendar_instant()),
    ;

    fn month(&self) -> (r: Month)
        ensures
            r.number_spec() == month_at(self.calendar_instant()),
    ;

    fn day(&self) -> (r: i8)
        ensures
            r as int == day_at(self.calendar_instant()),
    ;

    fn yearday(&self) -> (r: i16)
        ensures
            r as int == yearday_at(self.calendar_instant()),
    ;

    fn weekday(&self) -> (r: Weekday)
        ensures
            r.days_from_sunday_spec() == weekday_at(self.calendar_instant()),
    ;
}

/// The clock fields of a value that shows some instant.
pub trait TimePiece {
    /// The instant, in milliseconds since 1970-01-01T00:00, whose clock
    /// fields this value shows.
    spec fn clock_instant(&self) -> int;

    fn hour(&self) -> (r: i8)
        ensures
            r as int == hour_at(self.clock_instant()),
    ;

    fn minute(&self) -> (r: i8)
        ensures
            r as int == minute_at(self.clock_instant()),
    ;

    fn second(&self) -> (r: i8)
        ensures
            r as int == second_at(self.clock_instant()),
    ;

    fn millisecond(&self) -> (r: i16)
        ensures
            r as int == millisecond_at(self.clock_instant()),
    ;
}

/// Day count and time of day of instant `ms + shift`, for a shift of at most
/// one day.
pub(crate) fn split_instant(ms: i64, shift: i64) -> (r: (i64, i64))
    requires
        -MILLIS_PER_DAY <= shift <= MILLIS_PER_DAY,
    ensures
        r.0 as int == day_number(ms + shift),
        r.1 as int == millis_of_day(ms + shift),
        -DAY_LIMIT <= r.0 <= DAY_LIMIT,
{
    let days = floor_div(ms, MILLIS_PER_DAY);
    let rest = floor_mod(ms, MILLIS_PER_DAY);
    let carry = floor_div(rest + shift, MILLIS_PER_DAY);
    let within = floor_mod(rest + shift, MILLIS_PER_DAY);
    (days + carry, within)
}

fn month_of_number(n: u8) -> (r: Month)
    requires
        1 <= n <= 12,
    ensures
        r.number_spec() == n,
{
    match Month::from_one(n as i8) {
        Ok(m) => m,
        Err(_) => Month::January,
    }
}

/// Year of instant `ms + shift`.
pub(crate) fn year_shifted(ms: i64, shift: i64) -> (r: i64)
    requires
        -MILLIS_PER_DAY <= shift <= MILLIS_PER_DAY,
    ensures
        r as int == year_at(ms + shift),
{
    let (days, _) = split_instant(ms, shift);
    ymd_from_days(days).0
}

/// Month of instant `ms + shift`.
pub(crate) fn month_shifted(ms: i64, shift: i64) -> (r: Month)
    requires
        -MILLIS_PER_DAY <= shift <= MILLIS_PER_DAY,
    ensures
        r.number_spec() == month_at(ms + shift),
{
    let (days, _) = split_instant(ms, shift);
    month_of_number(ymd_from_days(days).1)
}

/// Day of the month of instant `ms + shift`.
pub(crate) fn day_shifted(ms: i64, shift: i64) -> (r: i8)
    requires
        -MILLIS_PER_DAY <= shift <= MILLIS_PER_DAY,
    ensures
        r as int == day_at(ms + shift),
{
    let (days, _) = split_instant(ms, shift);
    ymd_from_days(days).2 as i8
}

/// Day of the year (1 = January 1st) of instant `ms + shift`.
pub(crate) fn yearday_shifted(ms: i64, shift: i64) -> (r: i16)
    requires
        -MILLIS_PER_DAY <= shift <= MILLIS_PER_DAY,
    ensures
        r as int == yearday_at(ms + shift),
{
    let (days, _) = split_instant(ms, shift);
    let (y, m, d) = ymd_from_days(days);
    proof {
        lemma_date_in_year(y as int, m as int, d as int);
    }
    (days - days_from_ymd(y, 1, 1) + 1) as i16
}

/// Weekday of instant `ms + shift`.
pub(crate) fn weekday_shifted(ms: i64, shift: i64) -> (r: Weekday)
    requires
        -MILLIS_PER_DAY <= shift <= MILLIS_PER_DAY,
    ensures
        r.days_from_sunday_spec() == weekday_at(ms + shift),
{
    let (days, _) = split_instant(ms, shift);
    match Weekday::from_zero(floor_mod(days + 4, 7) as i8) {
        Ok(w) => w,
        Err(_) => Weekday::Sunday,
    }
}

/// Hour of instant `ms + shift`.
pub(crate) fn hour_shifted(ms: i64, shift: i64) -> (r: i8)
    requires
        -MILLIS_PER_DAY <= shift <= MILLIS_PER_DAY,
    ensures
        r as int == hour_at(ms + shift),
{
    let (_, within) = split_instant(ms, shift);
    (within / 3_600_000) as i8
}

/// Minute of instant `ms + shift`.
pub(crate) fn minute_shifted(ms: i64, shift: i64) -> (r: i8)
    requires
        -MILLIS_PER_DAY <= shift <= MILLIS_PER_DAY,
    ensures
        r as int == minute_at(ms + shift),
{
    let (_, within) = split_instant(ms, shift);
    (within / 60_000 % 60) as i8
}

/// Second of instant `ms + shift`.
pub(crate) fn second_shifted(ms: i64, shift: i64) -> (r: i8)
    requires
        -MILLIS_PER_DAY <= shift <= MILLIS_PER_DAY,
    ensures
        r as int == second_at(ms + shift),
{
    let (_, within) = split_instant(ms, shift);
    (within / 1000 % 60) as i8
}

/// Millisecond of instant `ms + shift`.
pub(crate) fn millisecond_shifted(ms: i64, shift: i64) -> (r: i16)
    requires
        -MILLIS_PER_DAY <= shift <= MILLIS_PER_DAY,
    ensures
        r as int == millisecond_at(ms + shift),
{
    let (_, within) = split_instant(ms, shift);
    (within % 1000) as i16
}

/// A calendar date with no time of day.
#[derive(PartialEq, Eq, Structural, Debug, Clone, Copy)]
pub struct LocalDate {
    year: i64,
    month: Month,
    day: i8,
}

impl View for LocalDate {
    type V = (int, int, int);

    /// Year, one-based month and day of the month.
    closed spec fn view(&self) -> (int, int, int) {
        (self.year as int, self.month.number_spec(), self.day as int)
    }
}

impl LocalDate {
    #[verifier::type_invariant]
    closed spec fn wf(&self) -> bool {
        &&& -MAX_YEAR <= self.year <= MAX_YEAR
        &&& is_valid_date(self.year as int, self.month.number_spec(), self.day as int)
    }

    /// The date `day` `month` `year`, when the day exists in that month and
    /// the year is within `MAX_YEAR` of year zero.
    pub fn ymd(year: i64, month: Month, day: i8) -> (r: Result<LocalDate, DateTimeError>)
        ensures
            !(-MAX_YEAR <= year <= MAX_YEAR) <==> r == Err::<LocalDate, DateTimeError>(
                DateTimeError::OutOfRange(Field::Year),
            ),
            (-MAX_YEAR <= year <= MAX_YEAR && !is_valid_date(
                year as int,
                month.number_spec(),
                day as int,
            )) <==> r == Err::<LocalDate, DateTimeError>(DateTimeError::OutOfRange(Field::Day)),
            (-MAX_YEAR <= year <= MAX_YEAR && is_valid_date(year as int, month.number_spec(), day as int))
                <==> r is Ok,
            r matches Ok(date) ==> date@ == (year as int, month.number_spec(), day as int),
    {
        if year < -MAX_YEAR || year > MAX_YEAR {
            return Err(DateTimeError::OutOfRange(Field::Year));
        }
        let m = month.number() as u8;
        if day < 1 || day as u8 > days_in_month(year, m) {
            return Err(DateTimeError::OutOfRange(Field::Day));
        }
        Ok(LocalDate { year, month, day })
    }

    pub fn year(&self) -> (r: i64)
        ensures
            r as int == self@.0,
    {
        self.year
    }

    pub fn month(&self) -> (r: Month)
        ensures
            r.number_spec() == self@.1,
    {
        self.month
    }

    pub fn day(&self) -> (r: i8)
        ensures
            r as int == self@.2,
    {
        self.day
    }

    /// Day count of this date; 1970-01-01 is day zero.
    pub fn days_since_epoch(&self) -> (r: i64)
        ensures
            r as int == days_from_civil(self@.0, self@.1, self@.2),
            -DAY_LIMIT <= r <= DAY_LIMIT,
    {
        proof {
            use_type_invariant(self);
            crate::calendar::lemma_year_position(self.year as int);
            lemma_date_in_year(self.year as int, self.month.number_spec(), self.day as int);
        }
        days_from_ymd(self.year, self.month.number() as u8, self.day as u8)
    }

    /// One-based position of this date within its year.
    pub fn yearday(&self) -> (r: i16)
        ensures
            r as int == day_of_year(self@.0, self@.1, self@.2),
    {
        proof {
            use_type_invariant(self);
            lemma_date_in_year(self.year as int, self.month.number_spec(), self.day as int);
        }
        let days = self.days_since_epoch();
        (days - days_from_ymd(self.year, 1, 1) + 1) as i16
    }

    pub fn weekday(&self) -> (r: Weekday)
        ensures
            r.days_from_sunday_spec() == weekday_of_days(days_from_civil(self@.0, self@.1, self@.2)),
    {
        let days = self.days_since_epoch();
        match Weekday::from_zero(floor_mod(days + 4, 7) as i8) {
            Ok(w) => w,
            Err(_) => Weekday::Sunday,
        }
    }
}

/// A time of day with millisecond precision and no date.
#[derive(PartialEq, Eq, Structural, Debug, Clone, Copy)]
pub struct LocalTime {
    hour: i8,
    minute: i8,
    second: i8,
    millisecond: i16,
}

/// Milliseconds from midnight to the given clock reading.
pub open spec fn clock_millis(hour: int, minute: int, second: int, millisecond: int) -> int {
    ((hour * 60 + minute) * 60 + second) * 1000 + millisecond
}

impl View for LocalTime {
    type V = (int, int, int, int);

    /// Hour, minute, second and millisecond.
    closed spec fn view(&self) -> (int, int, int, int) {
        (self.hour as int, self.minute as int, self.second as int, self.millisecond as int)
    }
}

impl LocalTime {
    #[verifier::type_invariant]
    closed spec fn wf(&self) -> bool {
        &&& 0 <= self.hour <= 23
        &&& 0 <= self.minute <= 59
        &&& 0 <= self.second <= 59
        &&& 0 <= self.millisecond <= 999
    }

    /// Midnight, the start of the day.
    pub fn midnight() -> (r: LocalTime)
        ensures
            r@ == (0int, 0int, 0int, 0int),
    {
        LocalTime { hour: 0, minute: 0, second: 0, millisecond: 0 }
    }

    /// The given hour, minute and second, at the start of the second.
    pub fn hms(hour: i8, minute: i8, second: i8) -> (r: Result<LocalTime, DateTimeError>)
        ensures
            r == LocalTime::hms_ms_spec(hour as int, minute as int, second as int, 0),
            !(0 <= hour <= 23) <==> r == Err::<LocalTime, DateTimeError>(
                DateTimeError::OutOfRange(Field::Hour),
            ),
            (0 <= hour <= 23 && !(0 <= minute <= 59)) <==> r == Err::<LocalTime, DateTimeError>(
                DateTimeError::OutOfRange(Field::Minute),
            ),
            (0 <= hour <= 23 && 0 <= minute <= 59 && !(0 <= second <= 59)) <==> r == Err::<
                LocalTime,
                DateTimeError,
            >(DateTimeError::OutOfRange(Field::Second)),
            (0 <= hour <= 23 && 0 <= minute <= 59 && 0 <= second <= 59) <==> r is Ok,
            r matches Ok(t) ==> t@ == (hour as int, minute as int, second as int, 0int),
    {
        LocalTime::hms_ms(hour, minute, second, 0)
    }

    /// What `hms_ms` returns: the first field out of range, checked from the
    /// hour down, or the clock reading.
    pub closed spec fn hms_ms_spec(hour: int, minute: int, second: int, millisecond: int) -> Result<
        LocalTime,
        DateTimeError,
    > {
        if !(0 <= hour <= 23) {
            Err(DateTimeError::OutOfRange(Field::Hour))
        } else if !(0 <= minute <= 59) {
            Err(DateTimeError::OutOfRange(Field::Minute))
        } else if !(0 <= second <= 59) {
            Err(DateTimeError::OutOfRange(Field::Second))
        } else if !(0 <= millisecond <= 999) {
            Err(DateTimeError::OutOfRange(Field::Millisecond))
        } else {
            Ok(
                LocalTime {
                    hour: hour as i8,
                    minute: minute as i8,
                    second: second as i8,
                    millisecond: millisecond as i16,
                },
            )
        }
    }

    /// The given clock reading, when every field is within its range.
    pub fn hms_ms(hour: i8, minute: i8, second: i8, millisecond: i16) -> (r: Result<
        LocalTime,
        DateTimeError,
    >)
        ensures
            r == LocalTime::hms_ms_spec(hour as int, minute as int, second as int, millisecond as int),
            !(0 <= hour <= 23) <==> r == Err::<LocalTime, DateTimeError>(
                DateTimeError::OutOfRange(Field::Hour),
            ),
            (0 <= hour <= 23 && !(0 <= minute <= 59)) <==> r == Err::<LocalTime, DateTimeError>(
                DateTimeError::OutOfRange(Field::Minute),
            ),
            (0 <= hour <= 23 && 0 <= minute <= 59 && !(0 <= second <= 59)) <==> r == Err::<
                LocalTime,
                DateTimeError,
            >(DateTimeError::OutOfRange(Field::Second)),
            (0 <= hour <= 23 && 0 <= minute <= 59 && 0 <= second <= 59 && !(0 <= millisecond
                <= 999)) <==> r == Err::<LocalTime, DateTimeError>(
                DateTimeError::OutOfRange(Field::Millisecond),
            ),
            (0 <= hour <= 23 && 0 <= minute <= 59 && 0 <= second <= 59 && 0 <= millisecond <= 999)
                <==> r is Ok,
            r matches Ok(t) ==> t@ == (hour as int, minute as int, second as int, millisecond as int),
    {
        if hour < 0 || hour > 23 {
            Err(DateTimeError::OutOfRange(Field::Hour))
        } else if minute < 0 || minute > 59 {
            Err(DateTimeError::OutOfRange(Field::Minute))
        } else if second < 0 || second > 59 {
            Err(DateTimeError::OutOfRange(Field::Second))
        } else if millisecond < 0 || millisecond > 999 {
            Err(DateTimeError::OutOfRange(Field::Millisecond))
        } else {
            Ok(LocalTime { hour, minute, second, millisecond })
        }
    }

    pub fn hour(&self) -> (r: i8)
        ensures
            r as int == self@.0,
            0 <= r <= 23,
    {
        proof {
            use_type_invariant(self);
        }
        self.hour
    }

    pub fn minute(&self) -> (r: i8)
        ensures
            r as int == self@.1,
            0 <= r <= 59,
    {
        proof {
            use_type_invariant(self);
        }
        self.minute
    }

    pub fn second(&self) -> (r: i8)
        ensures
            r as int == self@.2,
            0 <= r <= 59,
    {
        proof {
            use_type_invariant(self);
        }
        self.second
    }

    pub fn millisecond(&self) -> (r: i16)
        ensures
            r as int == self@.3,
            0 <= r <= 999,
    {
        proof {
            use_type_invariant(self);
        }
        self.millisecond
    }

    /// Milliseconds since midnight.
    pub fn to_millis_of_day(&self) -> (r: i64)
        ensures
            r as int == clock_millis(self@.0, self@.1, self@.2, self@.3),
            0 <= r < MILLIS_PER_DAY,
    {
        proof {
            use_type_invariant(self);
        }
        ((self.hour as i64 * 60 + self.minute as i64) * 60 + self.second as i64) * 1000
            + self.millisecond as i64
    }
}

/// A date and time of day with no association to UTC, held as a single
/// linear instant: milliseconds since 1970-01-01T00:00.
#[derive(PartialEq, Eq, Structural, Debug, Clone, Copy)]
pub struct LocalDateTime {
    instant: i64,
}

impl View for LocalDateTime {
    type V = int;

    /// Milliseconds since 1970-01-01T00:00.
    closed spec fn view(&self) -> int {
        self.instant as int
    }
}

impl LocalDateTime {
    /// The instant `ms` milliseconds after 1970-01-01T00:00.
    pub fn at_ms(ms: i64) -> (r: LocalDateTime)
        ensures
            r@ == ms,
    {
        LocalDateTime { instant: ms }
    }

    /// The instant `seconds` seconds after 1970-01-01T00:00.
    pub fn at(seconds: i64) -> (r: LocalDateTime)
        requires
            i64::MIN <= seconds * 1000 <= i64::MAX,
        ensures
            r@ == seconds * 1000,
    {
        LocalDateTime { instant: seconds * 1000 }
    }

    /// The given time of day on the given date; an instant beyond the range of
    /// a signed 64-bit millisecond count is a caller error.
    pub fn new(date: LocalDate, time: LocalTime) -> (r: LocalDateTime)
        requires
            i64::MIN <= days_from_civil(date@.0, date@.1, date@.2) * MILLIS_PER_DAY + clock_millis(
                time@.0,
                time@.1,
                time@.2,
                time@.3,
            ) <= i64::MAX,
        ensures
            r@ == days_from_civil(date@.0, date@.1, date@.2) * MILLIS_PER_DAY + clock_millis(
                time@.0,
                time@.1,
                time@.2,
                time@.3,
            ),
    {
        let days = date.days_since_epoch();
        let within = time.to_millis_of_day();
        proof {
            assert(-DAY_LIMIT * MILLIS_PER_DAY <= days * MILLIS_PER_DAY <= DAY_LIMIT
                * MILLIS_PER_DAY) by (nonlinear_arith)
                requires
                    -DAY_LIMIT <= days <= DAY_LIMIT,
            ;
        }
        let total: i128 = days as i128 * MILLIS_PER_DAY as i128 + within as i128;
        LocalDateTime { instant: total as i64 }
    }

    /// Milliseconds since 1970-01-01T00:00.
    pub fn instant_ms(&self) -> (r: i64)
        ensures
            r == self@,
    {
        self.instant
    }

    /// This instant moved by `d`; overflowing the instant range is a
    /// caller error.
    pub fn plus(&self, d: &Duration) -> (r: LocalDateTime)
        requires
            i64::MIN <= self@ + d@ <= i64::MAX,
        ensures
            r@ == self@ + d@,
    {
        let total = self.instant as i128 + d.total_milliseconds();
        LocalDateTime { instant: total as i64 }
    }
}

impl DatePiece for LocalDateTime {
    open spec fn calendar_instant(&self) -> int {
        self@
    }

    fn year(&self) -> (r: i64) {
        year_shifted(self.instant, 0)
    }

    fn month(&self) -> (r: Month) {
        month_shifted(self.instant, 0)
    }

    fn day(&self) -> (r: i8) {
        day_shifted(self.instant, 0)
    }

    fn yearday(&self) -> (r: i16) {
        yearday_shifted(self.instant, 0)
    }

    fn weekday(&self) -> (r: Weekday) {
        weekday_shifted(self.instant, 0)
    }
}

impl TimePiece for LocalDateTime {
    open spec fn clock_instant(&self) -> int {
        self@
    }

    fn hour(&self) -> (r: i8) {
        hour_shifted(self.instant, 0)
    }

    fn minute(&self) -> (r: i8) {
        minute_shifted(self.instant, 0)
    }

    fn second(&self) -> (r: i8) {
        second_shifted(self.instant, 0)
    }

    fn millisecond(&self) -> (r: i16) {
        millisecond_shifted(self.instant, 0)
    }
}

/// Advancing an instant by exactly seven days never changes its weekday.
pub proof fn lemma_weekday_period(ms: int)
    ensures
        weekday_at(ms + 7 * MILLIS_PER_DAY) == weekday_at(ms),
{
    assert(day_number(ms + 7 * MILLIS_PER_DAY) == day_number(ms) + 7);
}

/// The fields of every instant form a valid date and a valid clock reading
/// that together rebuild the instant, and the year of any signed 64-bit
/// millisecond instant lies within `MAX_YEAR`.
pub proof fn lemma_instant_fields(ms: int)
    ensures
        is_valid_date(year_at(ms), month_at(ms), day_at(ms)),
        0 <= hour_at(ms) <= 23,
        0 <= minute_at(ms) <= 59,
        0 <= second_at(ms) <= 59,
        0 <= millisecond_at(ms) <= 999,
        days_from_civil(year_at(ms), month_at(ms), day_at(ms)) * MILLIS_PER_DAY + clock_millis(
            hour_at(ms),
            minute_at(ms),
            second_at(ms),
            millisecond_at(ms),
        ) == ms,
        i64::MIN <= ms <= i64::MAX ==> -MAX_YEAR <= year_at(ms) <= MAX_YEAR,
{
    let n = day_number(ms);
    crate::calendar::lemma_days_to_civil(n);
    let t = civil_from_days_spec(n);
    lemma_date_in_year(t.0, t.1, t.2);
    crate::calendar::lemma_year_position(t.0);
    let within = millis_of_day(ms);
    assert(ms == n * MILLIS_PER_DAY + within);
    assert(((within / 3_600_000 * 60 + within / 60_000 % 60) * 60 + within / 1000 % 60) * 1000
        + within % 1000 == within);
}

/// Every local date-time's instant is a signed 64-bit millisecond count.
pub proof fn lemma_instant_range(t: LocalDateTime)
    ensures
        i64::MIN <= t@ <= i64::MAX,
{
}

/// Two local date-times at the same instant are the same value.
pub proof fn lemma_local_date_time_eq(a: LocalDateTime, b: LocalDateTime)
    requires
        a@ == b@,
    ensures
        a == b,
{
}

/// Two dates with the same year, month and day are the same value.
pub proof fn lemma_local_date_eq(a: LocalDate, b: LocalDate)
    requires
        a@ == b@,
    ensures
        a == b,
{
}

/// Two times of day with the same fields are the same value.
pub proof fn lemma_local_time_eq(a: LocalTime, b: LocalTime)
    requires
        a@ == b@,
    ensures
        a == b,
{
}

/// The calendar fields of an instant that lies on a valid date are that
/// date's fields, and its clock fields are its time of day.
pub proof fn lemma_fields_of_date_time(y: int, m: int, d: int, ms_of_day: int)
    requires
        is_valid_date(y, m, d),
        0 <= ms_of_day < MILLIS_PER_DAY,
    ensures
        ({
            let ms = days_from_civil(y, m, d) * MILLIS_PER_DAY + ms_of_day;
            &&& year_at(ms) == y
            &&& month_at(ms) == m
            &&& day_at(ms) == d
            &&& yearday_at(ms) == day_of_year(y, m, d)
            &&& millis_of_day(ms) == ms_of_day
        }),
{
    let ms = days_from_civil(y, m, d) * MILLIS_PER_DAY + ms_of_day;
    assert(day_number(ms) == days_from_civil(y, m, d)) by (nonlinear_arith)
        requires
            ms == days_from_civil(y, m, d) * MILLIS_PER_DAY + ms_of_day,
            0 <= ms_of_day < MILLIS_PER_DAY,
            day_number(ms) == ms / (MILLIS_PER_DAY as int),
    ;
    crate::calendar::lemma_civil_round_trip(y, m, d);
}

} // verus!
