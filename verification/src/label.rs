//! The plain base-10 label that may stand beside a glyph.

use vstd::prelude::*;
use crate::digits::{magnitude_of, Digits};

verus! {

/// The character that writes the digit `d`.
pub open spec fn digit_char(d: int) -> char {
    if d == 1 {
        '1'
    } else if d == 2 {
        '2'
    } else if d == 3 {
        '3'
    } else if d == 4 {
        '4'
    } else if d == 5 {
        '5'
    } else if d == 6 {
        '6'
    } else if d == 7 {
        '7'
    } else if d == 8 {
        '8'
    } else if d == 9 {
        '9'
    } else {
        '0'
    }
}

/// The label of a numeral: as many digits as its magnitude says, and a comma
/// after the thousands where there are any. Where the magnitude is that of
/// the number which the digits spell, this is the number without leading
/// zeros.
pub open spec fn label_of(d: Digits) -> Seq<char> {
    if d.magnitude == 1 {
        seq![digit_char(d.units as int)]
    } else if d.magnitude == 2 {
        seq![digit_char(d.tens as int), digit_char(d.units as int)]
    } else if d.magnitude == 3 {
        seq![digit_char(d.hundreds as int), digit_char(d.tens as int), digit_char(d.units as int)]
    } else {
        seq![
            digit_char(d.thousands as int),
            ',',
            digit_char(d.hundreds as int),
            digit_char(d.tens as int),
            digit_char(d.units as int),
        ]
    }
}

/// The character that writes the digit `d`.
pub fn digit_to_char(d: u8) -> (c: char)
    requires
        d <= 9,
    ensures
        c == digit_char(d as int),
{
    match d {
        1 => '1',
        2 => '2',
        3 => '3',
        4 => '4',
        5 => '5',
        6 => '6',
        7 => '7',
        8 => '8',
        9 => '9',
        _ => '0',
    }
}

/// `String::push` of std: the string afterwards is the string before with
/// `c` added at its end.
#[verifier::external_body]
fn push_char(text: &mut String, c: char)
    ensures
        final(text)@ == old(text)@.push(c),
{
    text.push(c);
}

/// Writes the label of the numeral that `d` spells. The magnitude of `d`
/// has to be that of the number, as `decompose` gives it.
pub fn numeral_label(d: &Digits) -> (text: String)
    requires
        d.wf(),
        d.magnitude == magnitude_of(d.value()),
    ensures
        text@ == label_of(*d),
{
    let mut text = String::new();
    if d.magnitude >= 4 {
        push_char(&mut text, digit_to_char(d.thousands));
        push_char(&mut text, ',');
    }
    if d.magnitude >= 3 {
        push_char(&mut text, digit_to_char(d.hundreds));
    }
    if d.magnitude >= 2 {
        push_char(&mut text, digit_to_char(d.tens));
    }
    push_char(&mut text, digit_to_char(d.units));
    assert(text@ =~= label_of(*d));
    text
}

} // verus!
