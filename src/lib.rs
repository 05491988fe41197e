//! Calendar and civil-time arithmetic: the mapping between linear instants and
//! calendar fields, durations, and fixed UTC offsets.
pub mod calendar;
pub mod duration;
pub mod datetime;
pub mod offset;
pub mod zone;

pub use datetime::{
    DatePiece, DateTimeError, Field, LocalDate, LocalDateTime, LocalTime, Month, TimePiece, Weekday,
};
pub use duration::Duration;
pub use offset::{Offset, OffsetDateTime};
pub use zone::{TimeZone, ZonedDateTime};
