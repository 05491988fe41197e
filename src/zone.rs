//! Zones whose offset from UTC changes at given instants, and date-times read
//! through such a zone.
use vstd::prelude::*;
use crate::datetime::{DatePiece, LocalDateTime, Month, TimePiece, Weekday};
use crate::offset::Offset;

verus! {

/// The offset in force at instant `ms`: that of the latest transition at or
/// before `ms`, or `base` when there is none.
pub open spec fn offset_in_force(base: Offset, transitions: Seq<(i64, Offset)>, ms: int) -> Offset
    decreases transitions.len(),
{
    if transitions.len() == 0 {
        base
    } else if transitions.last().0 <= ms {
        transitions.last().1
    } else {
        offset_in_force(base, transitions.drop_last(), ms)
    }
}

/// Transition instants that strictly increase.
pub open spec fn increasing(transitions: Seq<(i64, Offset)>) -> bool {
    forall|i: int, j: int| 0 <= i < j < transitions.len() ==> transitions[i].0 < transitions[j].0
}

/// A zone's rules: the offset in force before its first transition, and each
/// later change of offset with the instant it takes effect.
#[derive(Debug, Clone)]
pub struct TimeZone {
    base: Offset,
    transitions: Vec<(i64, Offset)>,
}

impl TimeZone {
    pub closed spec fn base_spec(&self) -> Offset {
        self.base
    }

    pub closed spec fn transitions_spec(&self) -> Seq<(i64, Offset)> {
        self.transitions@
    }

    /// The offset in force at instant `ms`.
    pub open spec fn offset_at_spec(&self, ms: int) -> Offset {
        offset_in_force(self.base_spec(), self.transitions_spec(), ms)
    }

    /// A zone that keeps `base` at every instant.
    pub fn fixed(base: Offset) -> (r: TimeZone)
        ensures
            r.base_spec() == base,
            r.transitions_spec() == Seq::<(i64, Offset)>::empty(),
    {
        TimeZone { base, transitions: Vec::new() }
    }

    /// Adds a change to `offset` taking effect at instant `at`. It is
    /// accepted only after every transition already present.
    pub fn add_transition(&mut self, at: i64, offset: Offset) -> (added: bool)
        ensures
            added == (old(self).transitions_spec().len() == 0 || old(
                self,
            ).transitions_spec().last().0 < at),
            final(self).base_spec() == old(self).base_spec(),
            added ==> final(self).transitions_spec() == old(self).transitions_spec().push(
                (at, offset),
            ),
            !added ==> final(self).transitions_spec() == old(self).transitions_spec(),
            increasing(old(self).transitions_spec()) ==> increasing(final(self).transitions_spec()),
    {
        let n = self.transitions.len();
        if n > 0 && self.transitions[n - 1].0 >= at {
            return false;
        }
        self.transitions.push((at, offset));
        true
    }

    /// The offset in force at instant `ms`.
    pub fn offset_at(&self, ms: i64) -> (r: Offset)
        ensures
            r == self.offset_at_spec(ms as int),
    {
        let mut i: usize = self.transitions.len();
        assert(self.transitions@.subrange(0, i as int) =~= self.transitions@);
        while i > 0
            invariant
                i <= self.transitions@.len(),
                offset_in_force(self.base, self.transitions@, ms as int) == offset_in_force(
                    self.base,
                    self.transitions@.subrange(0, i as int),
                    ms as int,
                ),
            decreases i,
        {
            let ghost prefix = self.transitions@.subrange(0, i as int);
            assert(prefix.drop_last() == self.transitions@.subrange(0, i - 1));
            if self.transitions[i - 1].0 <= ms {
                return self.transitions[i - 1].1;
            }
            i = i - 1;
        }
        self.base
    }

    /// Reads `local` through this zone.
    pub fn to_zoned<'a>(&'a self, local: LocalDateTime) -> (r: ZonedDateTime<'a>)
        ensures
            r.local_spec() == local,
            r.zone_spec() == self,
    {
        ZonedDateTime { local, zone: self }
    }
}

/// A local date-time read through a zone: fields show the local reading moved
/// by the offset the zone has in force at that reading.
#[derive(Debug, Clone, Copy)]
pub struct ZonedDateTime<'a> {
    local: LocalDateTime,
    zone: &'a TimeZone,
}

impl<'a> ZonedDateTime<'a> {
    pub closed spec fn local_spec(&self) -> LocalDateTime {
        self.local
    }

    pub closed spec fn zone_spec(&self) -> &'a TimeZone {
        self.zone
    }

    /// The instant whose fields this date-time shows.
    pub open spec fn shifted_spec(&self) -> int {
        self.local_spec()@ + self.zone_spec().offset_at_spec(self.local_spec()@).shift_spec()
    }

    /// The offset the zone has in force at the local reading.
    pub fn offset(&self) -> (r: Offset)
        ensures
            r == self.zone_spec().offset_at_spec(self.local_spec()@),
    {
        self.zone.offset_at(self.local.instant_ms())
    }

    pub fn local(&self) -> (r: LocalDateTime)
        ensures
            r == self.local_spec(),
    {
        self.local
    }
}

impl<'a> DatePiece for ZonedDateTime<'a> {
    open spec fn calendar_instant(&self) -> int {
        self.shifted_spec()
    }

    fn year(&self) -> (r: i64) {
        self.offset().transform_date(self.local).year()
    }

    fn month(&self) -> (r: Month) {
        self.offset().transform_date(self.local).month()
    }

    fn day(&self) -> (r: i8) {
        self.offset().transform_date(self.local).day()
    }

    fn yearday(&self) -> (r: i16) {
        self.offset().transform_date(self.local).yearday()
    }

    fn weekday(&self) -> (r: Weekday) {
        self.offset().transform_date(self.local).weekday()
    }
}

impl<'a> TimePiece for ZonedDateTime<'a> {
    open spec fn clock_instant(&self) -> int {
        self.shifted_spec()
    }

    fn hour(&self) -> (r: i8) {
        self.offset().transform_date(self.local).hour()
    }

    fn minute(&self) -> (r: i8) {
        self.offset().transform_date(self.local).minute()
    }

    fn second(&self) -> (r: i8) {
        self.offset().transform_date(self.local).second()
    }

    fn millisecond(&self) -> (r: i16) {
        self.offset().transform_date(self.local).millisecond()
    }
}

} // verus!
