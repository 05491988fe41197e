//! Fixed displacements from UTC, and date-times read through one.
use vstd::prelude::*;
use crate::datetime::{
    day_at, day_shifted, hour_at, hour_shifted, millisecond_at, millisecond_shifted, minute_at,
    minute_shifted, month_at, month_shifted, second_at, second_shifted, weekday_at,
    weekday_shifted, year_at, year_shifted, yearday_at, yearday_shifted, DateTimeError,
    DatePiece, LocalDateTime, Month, TimePiece, Weekday,
};

verus! {

/// Largest admissible offset magnitude, in seconds: one full day.
pub const MAX_OFFSET_SECONDS: i32 = 86400;

/// A displacement from UTC: none at all, or a signed number of seconds east
/// of UTC within one day either way.
#[derive(PartialEq, Eq, Structural, Debug, Clone, Copy)]
pub struct Offset {
    offset_seconds: Option<i32>,
}

impl View for Offset {
    type V = Option<int>;

    /// `None` for UTC, else the displacement in seconds.
    closed spec fn view(&self) -> Option<int> {
        match self.offset_seconds {
            Some(s) => Some(s as int),
            None => None,
        }
    }
}

impl Offset {
    #[verifier::type_invariant]
    closed spec fn wf(&self) -> bool {
        self.offset_seconds matches Some(s) ==> -MAX_OFFSET_SECONDS <= s <= MAX_OFFSET_SECONDS
    }

    /// The displacement in milliseconds that reading a local time through
    /// this offset adds; zero for UTC.
    pub open spec fn shift_spec(&self) -> int {
        match self@ {
            Some(s) => s * 1000,
            None => 0,
        }
    }

    /// Whether hours and minutes carry strictly opposite signs.
    pub open spec fn signs_mismatch(hours: int, minutes: int) -> bool {
        (hours > 0 && minutes < 0) || (hours < 0 && minutes > 0)
    }

    /// The displacement applied to a local reading, in milliseconds.
    fn adjust(&self) -> (r: i64)
        ensures
            r == self.shift_spec(),
            -86_400_000 <= r <= 86_400_000,
    {
        proof {
            use_type_invariant(self);
        }
        match self.offset_seconds {
            Some(s) => s as i64 * 1000,
            None => 0,
        }
    }

    /// No displacement at all.
    pub fn utc() -> (r: Offset)
        ensures
            r@ == None::<int>,
    {
        Offset { offset_seconds: None }
    }

    /// A displacement of `seconds` east of UTC, accepted within one day
    /// either way, both ends included.
    pub fn of_seconds(seconds: i32) -> (r: Result<Offset, Error>)
        ensures
            (-MAX_OFFSET_SECONDS <= seconds <= MAX_OFFSET_SECONDS) <==> r is Ok,
            r matches Ok(o) ==> o@ == Some(seconds as int),
            r matches Err(e) ==> e == Error::OutOfRange,
    {
        if -MAX_OFFSET_SECONDS <= seconds && seconds <= MAX_OFFSET_SECONDS {
            Ok(Offset { offset_seconds: Some(seconds) })
        } else {
            Err(Error::OutOfRange)
        }
    }

    /// A displacement of `hours` hours and `minutes` minutes. The two must
    /// not carry opposite signs, hours must lie strictly between -24 and 24,
    /// and minutes strictly between -60 and 60.
    pub fn of_hours_and_minutes(hours: i8, minutes: i8) -> (r: Result<Offset, Error>)
        ensures
            Offset::signs_mismatch(hours as int, minutes as int) <==> r == Err::<Offset, Error>(
                Error::SignMismatch,
            ),
            (!Offset::signs_mismatch(hours as int, minutes as int) && !(-24 < hours < 24 && -60
                < minutes < 60)) <==> r == Err::<Offset, Error>(Error::OutOfRange),
            (!Offset::signs_mismatch(hours as int, minutes as int) && -24 < hours < 24 && -60
                < minutes < 60) <==> r is Ok,
            r matches Ok(o) ==> o@ == Some(hours as int * 3600 + minutes as int * 60),
    {
        if (hours > 0 && minutes < 0) || (hours < 0 && minutes > 0) {
            Err(Error::SignMismatch)
        } else if hours <= -24 || hours >= 24 {
            Err(Error::OutOfRange)
        } else if minutes <= -60 || minutes >= 60 {
            Err(Error::OutOfRange)
        } else {
            let hours = hours as i32;
            let minutes = minutes as i32;
            Offset::of_seconds(hours * 3600 + minutes * 60)
        }
    }

    /// Pairs `local` with this offset; nothing is checked, as the offset
    /// was checked when it was built.
    pub fn transform_date(&self, local: LocalDateTime) -> (r: OffsetDateTime)
        ensures
            r.local_spec() == local,
            r.offset_spec() == *self,
    {
        OffsetDateTime { local: local, offset: self.clone() }
    }
}

/// Why an offset could not be built.
#[derive(PartialEq, Eq, Structural, Debug, Clone, Copy)]
pub enum Error {
    OutOfRange,
    SignMismatch,
    Date(DateTimeError),
}

impl Error {
    /// A short description of the failure.
    pub fn description(&self) -> (r: &'static str)
        ensures
            (*self == Error::OutOfRange) ==> r@ == "offset field out of range"@,
            (*self == Error::SignMismatch) ==> r@ == "sign mismatch"@,
            (*self is Date) ==> r@ == "datetime field out of range"@,
    {
        match *self {
            Error::OutOfRange => "offset field out of range",
            Error::SignMismatch => "sign mismatch",
            Error::Date(_) => "datetime field out of range",
        }
    }

    /// The calendar-field failure underneath, if there is one.
    pub fn cause(&self) -> (r: Option<DateTimeError>)
        ensures
            r == (match *self {
                Error::Date(e) => Some(e),
                _ => None,
            }),
    {
        match *self {
            Error::Date(e) => Some(e),
            _ => None,
        }
    }
}

/// A local date-time read through a fixed offset. The local reading is kept
/// as given; every field is derived afresh from it and the offset.
#[derive(PartialEq, Eq, Structural, Debug, Clone, Copy)]
pub struct OffsetDateTime {
    local: LocalDateTime,
    offset: Offset,
}

impl OffsetDateTime {
    pub closed spec fn local_spec(&self) -> LocalDateTime {
        self.local
    }

    pub closed spec fn offset_spec(&self) -> Offset {
        self.offset
    }

    /// The instant whose fields this date-time shows.
    pub open spec fn shifted_spec(&self) -> int {
        self.local_spec()@ + self.offset_spec().shift_spec()
    }

    /// The local reading as given.
    pub fn local(&self) -> (r: LocalDateTime)
        ensures
            r == self.local_spec(),
    {
        self.local
    }

    pub fn offset(&self) -> (r: Offset)
        ensures
            r == self.offset_spec(),
    {
        self.offset
    }
}

impl DatePiece for OffsetDateTime {
    open spec fn calendar_instant(&self) -> int {
        self.shifted_spec()
    }

    fn year(&self) -> (r: i64) {
        year_shifted(self.local.instant_ms(), self.offset.adjust())
    }

    fn month(&self) -> (r: Month) {
        month_shifted(self.local.instant_ms(), self.offset.adjust())
    }

    fn day(&self) -> (r: i8) {
        day_shifted(self.local.instant_ms(), self.offset.adjust())
    }

    fn yearday(&self) -> (r: i16) {
        yearday_shifted(self.local.instant_ms(), self.offset.adjust())
    }

    fn weekday(&self) -> (r: Weekday) {
        weekday_shifted(self.local.instant_ms(), self.offset.adjust())
    }
}

impl TimePiece for OffsetDateTime {
    open spec fn clock_instant(&self) -> int {
        self.shifted_spec()
    }

    fn hour(&self) -> (r: i8) {
        hour_shifted(self.local.instant_ms(), self.offset.adjust())
    }

    fn minute(&self) -> (r: i8) {
        minute_shifted(self.local.instant_ms(), self.offset.adjust())
    }

    fn second(&self) -> (r: i8) {
        second_shifted(self.local.instant_ms(), self.offset.adjust())
    }

    fn millisecond(&self) -> (r: i16) {
        millisecond_shifted(self.local.instant_ms(), self.offset.adjust())
    }
}

/// Two offsets with the same displacement (or both UTC) are the same value.
pub proof fn lemma_offset_view_eq(a: Offset, b: Offset)
    requires
        a@ == b@,
    ensures
        a == b,
{
}

/// Two offset date-times pairing the same local reading with the same
/// offset are the same value.
pub proof fn lemma_offset_date_time_eq(a: OffsetDateTime, b: OffsetDateTime)
    requires
        a.local_spec() == b.local_spec(),
        a.offset_spec() == b.offset_spec(),
    ensures
        a == b,
{
}

/// Reading `t` through offset `o` shows the fields of `t` moved by the
/// offset's seconds (what `t.plus(&Duration::of(seconds))` holds), and `t`'s
/// own fields when `o` is UTC; the pair keeps `t` itself as given.
pub proof fn lemma_offset_fields_of_moved_local(
    t: LocalDateTime,
    o: Offset,
    odt: OffsetDateTime,
    moved: LocalDateTime,
)
    requires
        odt.local_spec() == t,
        odt.offset_spec() == o,
        moved@ == (match o@ {
            Some(s) => t@ + s * 1000,
            None => t@,
        }),
    ensures
        odt.local_spec()@ == t@,
        year_at(odt.shifted_spec()) == year_at(moved@),
        month_at(odt.shifted_spec()) == month_at(moved@),
        day_at(odt.shifted_spec()) == day_at(moved@),
        yearday_at(odt.shifted_spec()) == yearday_at(moved@),
        weekday_at(odt.shifted_spec()) == weekday_at(moved@),
        hour_at(odt.shifted_spec()) == hour_at(moved@),
        minute_at(odt.shifted_spec()) == minute_at(moved@),
        second_at(odt.shifted_spec()) == second_at(moved@),
        millisecond_at(odt.shifted_spec()) == millisecond_at(moved@),
{
    assert(odt.shifted_spec() == moved@);
}

} // verus!
