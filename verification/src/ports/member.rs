//! Data and error shapes of the member directory, and the calendar values the
//! core reads from a UTC timestamp.

use vstd::prelude::*;

verus! {

/// The calendar components of a UTC timestamp that the month arithmetic
/// reads: the year and the month number. The day of the month is not
/// considered.
#[derive(Debug, PartialEq, Eq, Structural, Clone, Copy)]
pub struct UtcDate {
    pub year: i32,
    pub month: u32,
}

impl UtcDate {
    /// A calendar value a UTC timestamp can yield: the month number runs from
    /// 1 to 12, and the year stays within the range a timestamp can carry.
    pub open spec fn wf(self) -> bool {
        &&& 1 <= self.month <= 12
        &&& -262143 <= self.year <= 262142
    }

    pub fn new(year: i32, month: u32) -> (d: Self)
        requires
            1 <= month <= 12,
            -262143 <= year <= 262142,
        ensures
            d == (UtcDate { year, month }),
            d.wf(),
    {
        UtcDate { year, month }
    }
}

/// The directory record of a member: a read-only input to the core.
#[derive(Debug)]
pub struct Member {
    pub member_id: u128,
    pub active_member: bool,
    pub membership_since: UtcDate,
}

/// Errors the member directory can raise.
#[derive(Debug)]
pub enum Error {
    /// Domain-level error when a member does not exist.
    MemberDoesNotExist(u128),
    /// Concrete adapter errors.
    ///
    /// This could represent any errors from a concrete adapter that is not
    /// part of the domain model, such as connectivity, configuration, or
    /// permission errors. The cause crosses the boundary as an opaque,
    /// string-describable value.
    Adapter(String),
}

/// The calendar components of the current UTC time, for hosts that do not
/// supply their own current-UTC source.
///
/// Relies on chrono's `Utc::now` for the clock reading, read through the
/// `Datelike` year and month accessors: chrono documents the month number to
/// range from 1 to 12, and bounds the year of any timestamp to the range
/// below. Nothing more can be promised of a clock reading.
#[verifier::external_body]
pub fn now_utc() -> (d: UtcDate)
    ensures
        d.wf(),
{
    let now = chrono::Utc::now();
    UtcDate { year: chrono::Datelike::year(&now), month: chrono::Datelike::month(&now) }
}

} // verus!
