use cistercian_clock::clock::{clock_numerals, TimeOfDay};
use cistercian_clock::geometry::Point;
use cistercian_clock::glyph::render;
use cistercian_clock::palette::Palette;
use cistercian_clock::surface::Surface;

fn at(hour: u32, minute: u32, second: u32) -> TimeOfDay {
    TimeOfDay { hour, minute, second }
}

#[test]
fn midnight_is_zero_and_zero() {
    assert_eq!(clock_numerals(&at(0, 0, 0)), (0, 0));
}

#[test]
fn hours_and_minutes_share_one_numeral() {
    assert_eq!(clock_numerals(&at(9, 5, 30)), (905, 30));
    assert_eq!(clock_numerals(&at(12, 34, 56)), (1234, 56));
    assert_eq!(clock_numerals(&at(23, 59, 59)), (2359, 59));
}

#[test]
fn clock_numerals_do_not_overflow() {
    assert_eq!(
        clock_numerals(&at(u32::MAX, u32::MAX, u32::MAX)),
        (u32::MAX as i64 * 100 + u32::MAX as i64, u32::MAX as i64)
    );
}

#[test]
fn every_time_of_day_can_be_rendered() {
    let palette = Palette::dark();
    for hour in 0..24u32 {
        for minute in 0..60u32 {
            let (hm, s) = clock_numerals(&at(hour, minute, minute));
            let mut surface = Surface::new();
            assert_eq!(render(&mut surface, Point { x: 0, y: 0 }, 4, &palette, hm, false), Ok(()));
            assert_eq!(render(&mut surface, Point { x: 0, y: 0 }, 4, &palette, s, false), Ok(()));
        }
    }
}
