//! Splitting a numeral into its four decimal digit positions.

use vstd::prelude::*;
use crate::error::RenderError;

verus! {

/// The largest value a single glyph can show.
pub const MAX_VALUE: i64 = 9999;

/// The decimal digits of a numeral, with the number of positions in use.
#[derive(Clone, Copy, Debug, PartialEq, Eq, Structural)]
pub struct Digits {
    pub units: u8,
    pub tens: u8,
    pub hundreds: u8,
    pub thousands: u8,
    /// 1 for a value up to 9, 2 up to 99, 3 up to 999, else 4.
    pub magnitude: u8,
}

/// Whether `value` can be shown as one glyph.
pub open spec fn in_range(value: int) -> bool {
    0 <= value <= 9999
}

/// The number of digit positions that `value` occupies.
pub open spec fn magnitude_of(value: int) -> int {
    if value <= 9 {
        1
    } else if value <= 99 {
        2
    } else if value <= 999 {
        3
    } else {
        4
    }
}

/// The digits of `value`, position by position.
pub open spec fn digits_of(value: int) -> Digits {
    Digits {
        units: (value % 10) as u8,
        tens: ((value % 100) / 10) as u8,
        hundreds: ((value % 1000) / 100) as u8,
        thousands: ((value % 10000) / 1000) as u8,
        magnitude: magnitude_of(value) as u8,
    }
}

impl Digits {
    /// Every digit is at most 9 and the magnitude lies between 1 and 4.
    pub open spec fn wf(&self) -> bool {
        &&& self.units <= 9
        &&& self.tens <= 9
        &&& self.hundreds <= 9
        &&& self.thousands <= 9
        &&& 1 <= self.magnitude <= 4
    }

    /// The number that these digits spell.
    pub open spec fn value(&self) -> int {
        self.thousands * 1000 + self.hundreds * 100 + self.tens * 10 + self.units
    }
}

/// The digits of a value from 0 to 9999 spell that value again: thousands
/// times 1000, hundreds times 100, tens times 10 and units add up to it.
/// Each digit is at most 9, the magnitude is that of the value, and the
/// positions above the magnitude are zero.
pub proof fn lemma_digits_spell_value(value: int)
    requires
        in_range(value),
    ensures
        digits_of(value).wf(),
        digits_of(value).value() == value,
        digits_of(value).thousands * 1000 + digits_of(value).hundreds * 100 + digits_of(
            value,
        ).tens * 10 + digits_of(value).units == value,
        digits_of(value).magnitude == magnitude_of(value),
        digits_of(value).magnitude < 2 ==> digits_of(value).tens == 0,
        digits_of(value).magnitude < 3 ==> digits_of(value).hundreds == 0,
        digits_of(value).magnitude < 4 ==> digits_of(value).thousands == 0,
{
}

/// Splits `value` into its digits, or rejects it when it lies outside 0..=9999.
pub fn decompose(value: i64) -> (r: Result<Digits, RenderError>)
    ensures
        in_range(value as int) ==> r == Ok::<Digits, RenderError>(digits_of(value as int)),
        !in_range(value as int) ==> r == Err::<Digits, RenderError>(RenderError::OutOfRange),
        r matches Ok(d) ==> d.wf() && d.value() == value && d.magnitude == magnitude_of(
            d.value(),
        ),
        r matches Ok(d) ==> (d.magnitude < 2 ==> d.tens == 0) && (d.magnitude < 3 ==> d.hundreds
            == 0) && (d.magnitude < 4 ==> d.thousands == 0),
{
    if value < 0 || value > MAX_VALUE {
        return Err(RenderError::OutOfRange);
    }
    let v: u32 = value as u32;
    let magnitude: u8 = if v <= 9 {
        1
    } else if v <= 99 {
        2
    } else if v <= 999 {
        3
    } else {
        4
    };
    let digits = Digits {
        units: (v % 10) as u8,
        tens: ((v % 100) / 10) as u8,
        hundreds: ((v % 1000) / 100) as u8,
        thousands: ((v % 10000) / 1000) as u8,
        magnitude,
    };
    proof {
        lemma_digits_spell_value(value as int);
        assert(digits == digits_of(value as int));
    }
    Ok(digits)
}

} // verus!
