//! Timezone-aware instants, held as plain integers, and their text forms.
use chrono::{DateTime, FixedOffset};
use vstd::prelude::*;

verus! {

/// Earliest second (UTC, Unix epoch) accepted: one day after 0001-01-01T00:00:00Z,
/// so that the local date stays in year 1 or later under any offset.
pub const MIN_SECONDS: i64 = -62135510400;

/// Latest second accepted: one day before 9999-12-31T23:59:59Z, so that the
/// local date keeps four digits under any offset.
pub const MAX_SECONDS: i64 = 253402214399;

/// An instant with a fixed UTC offset.
#[derive(Clone, Copy, Debug, PartialEq, Eq)]
pub struct Timestamp {
    /// Seconds since 1970-01-01T00:00:00Z.
    pub seconds: i64,
    /// Sub-second part, in nanoseconds.
    pub nanos: u32,
    /// Offset of the local time from UTC, in seconds (east positive).
    pub offset_seconds: i32,
}

impl Timestamp {
    /// The instant lies in the years 1 to 9999 and the offset is under a day.
    pub open spec fn wf(&self) -> bool {
        &&& MIN_SECONDS <= self.seconds <= MAX_SECONDS
        &&& self.nanos < 1_000_000_000
        &&& -86_400 < self.offset_seconds < 86_400
    }

    /// Builds a timestamp, or `None` when the parts are out of range.
    pub fn new(seconds: i64, nanos: u32, offset_seconds: i32) -> (r: Option<Timestamp>)
        ensures
            r is Some <==> (Timestamp { seconds, nanos, offset_seconds }).wf(),
            r is Some ==> r->0 == (Timestamp { seconds, nanos, offset_seconds }),
    {
        let t = Timestamp { seconds, nanos, offset_seconds };
        if MIN_SECONDS <= seconds && seconds <= MAX_SECONDS && nanos < 1_000_000_000
            && -86_400 < offset_seconds && offset_seconds < 86_400 {
            Some(t)
        } else {
            None
        }
    }
}

/// What chrono's `DateTime::to_rfc2822` renders for this instant.
pub uninterp spec fn rfc2822_text(seconds: int, nanos: int, offset: int) -> Seq<char>;

/// What chrono's `Display` for `DateTime<FixedOffset>` renders for this instant.
pub uninterp spec fn display_text(seconds: int, nanos: int, offset: int) -> Seq<char>;

pub open spec fn rfc2822_of(t: Timestamp) -> Seq<char> {
    rfc2822_text(t.seconds as int, t.nanos as int, t.offset_seconds as int)
}

pub open spec fn display_of(t: Timestamp) -> Seq<char> {
    display_text(t.seconds as int, t.nanos as int, t.offset_seconds as int)
}

/// Relies on chrono's `DateTime::to_rfc2822`, which depends on the instant and
/// the offset alone; it does not panic for years 0 to 9999.
#[verifier::external_body]
pub(crate) fn to_rfc2822(t: &Timestamp) -> (r: String)
    requires
        t.wf(),
    ensures
        r@ == rfc2822_text(t.seconds as int, t.nanos as int, t.offset_seconds as int),
{
    let offset = FixedOffset::east_opt(t.offset_seconds).unwrap();
    DateTime::from_timestamp(t.seconds, t.nanos).unwrap().with_timezone(&offset).to_rfc2822()
}

/// Relies on chrono's `Display` for `DateTime<FixedOffset>`
/// (such as `2024-01-01 00:00:00 +00:00`), which depends on the instant and the
/// offset alone.
#[verifier::external_body]
pub(crate) fn to_display_text(t: &Timestamp) -> (r: String)
    requires
        t.wf(),
    ensures
        r@ == display_text(t.seconds as int, t.nanos as int, t.offset_seconds as int),
{
    let offset = FixedOffset::east_opt(t.offset_seconds).unwrap();
    DateTime::from_timestamp(t.seconds, t.nanos).unwrap().with_timezone(&offset).to_string()
}

} // verus!
