//! The two numerals of a clock: hours and minutes as one, seconds as another.

use vstd::prelude::*;
use crate::digits::in_range;

verus! {

/// A time of day as a clock shows it.
#[derive(Clone, Copy, Debug, PartialEq, Eq, Structural)]
pub struct TimeOfDay {
    pub hour: u32,
    pub minute: u32,
    pub second: u32,
}

impl TimeOfDay {
    /// An hour up to 23, a minute and a second up to 59.
    pub open spec fn valid(&self) -> bool {
        self.hour <= 23 && self.minute <= 59 && self.second <= 59
    }
}

/// The numeral of the hours and minutes: the hour in the hundreds and
/// thousands, the minute in the tens and units.
pub open spec fn hours_minutes_of(t: TimeOfDay) -> int {
    t.hour * 100 + t.minute
}

/// The two numerals that show `t`: hour times 100 plus minute, and the second.
/// Both can be rendered whenever `t` is a time of day.
pub fn clock_numerals(t: &TimeOfDay) -> (r: (i64, i64))
    ensures
        r.0 == hours_minutes_of(*t),
        r.1 == t.second,
        t.valid() ==> in_range(r.0 as int) && in_range(r.1 as int),
{
    (t.hour as i64 * 100 + t.minute as i64, t.second as i64)
}

} // verus!
