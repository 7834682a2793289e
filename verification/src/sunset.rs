//! The one rule of the sun calculator that is about whole numbers: which
//! time zones it takes.

use vstd::prelude::*;

verus! {

/// The westernmost time zone, in hours from Greenwich.
pub const MIN_TZ_HOURS: i32 = -12;

/// The easternmost time zone, in hours from Greenwich.
pub const MAX_TZ_HOURS: i32 = 14;

/// The offset that the calculator works with for a time zone given in
/// whole hours: the hours themselves from -12 to 14, and 0 for anything
/// else.
pub open spec fn tz_offset(tz: i32) -> i32 {
    if MIN_TZ_HOURS <= tz <= MAX_TZ_HOURS {
        tz
    } else {
        0
    }
}

/// The offset that the calculator works with for a time zone given in
/// whole hours.
pub fn tz_offset_hours(tz: i32) -> (offset: i32)
    ensures
        offset == tz_offset(tz),
        MIN_TZ_HOURS <= offset <= MAX_TZ_HOURS,
{
    if MIN_TZ_HOURS <= tz && tz <= MAX_TZ_HOURS {
        tz
    } else {
        0
    }
}

} // verus!
