//! Colours: `#` followed by six hexadecimal digits, red, green, blue.

use vstd::prelude::*;
use vstd::string::StrSliceExecFns;
use crate::ui::frontend::errors::UiError;
use crate::ui::frontend::rough::str_is;
use crate::ui::frontend::RGBColor;

verus! {

pub open spec fn is_hex(c: char) -> bool {
    ||| '0' as u32 <= c as u32 <= '9' as u32
    ||| 'a' as u32 <= c as u32 <= 'f' as u32
    ||| 'A' as u32 <= c as u32 <= 'F' as u32
}

/// Value of a hexadecimal digit.
pub open spec fn hex_value(c: char) -> int {
    if '0' as u32 <= c as u32 <= '9' as u32 {
        c as u32 - '0' as u32
    } else if 'a' as u32 <= c as u32 <= 'f' as u32 {
        c as u32 - 'a' as u32 + 10
    } else {
        c as u32 - 'A' as u32 + 10
    }
}

/// Value of two hexadecimal digits.
pub open spec fn hex_pair(high: char, low: char) -> int {
    hex_value(high) * 16 + hex_value(low)
}

/// The colour that `d` denotes. `#fff` and `#000` are short for white and
/// black. Otherwise `d` must begin with `#` and six hexadecimal digits; what
/// follows them is ignored.
pub open spec fn color_of(d: Seq<char>) -> Option<RGBColor> {
    if d == "#fff"@ {
        Some(RGBColor { red: 255, green: 255, blue: 255 })
    } else if d == "#000"@ {
        Some(RGBColor { red: 0, green: 0, blue: 0 })
    } else if d.len() >= 7 && d[0] == '#' && is_hex(d[1]) && is_hex(d[2]) && is_hex(d[3])
        && is_hex(d[4]) && is_hex(d[5]) && is_hex(d[6]) {
        Some(
            RGBColor {
                red: hex_pair(d[1], d[2]) as u8,
                green: hex_pair(d[3], d[4]) as u8,
                blue: hex_pair(d[5], d[6]) as u8,
            },
        )
    } else {
        None
    }
}

pub fn is_hex_digit(c: char) -> (hex: bool)
    ensures
        hex == is_hex(c),
{
    let code: u32 = c as u32;
    (48 <= code && code <= 57) || (97 <= code && code <= 102) || (65 <= code && code <= 70)
}

/// Value of two hexadecimal digits.
fn hex_byte(high: char, low: char) -> (value: u8)
    requires
        is_hex(high),
        is_hex(low),
    ensures
        value == hex_pair(high, low),
{
    hex_digit(high) * 16 + hex_digit(low)
}

fn hex_digit(c: char) -> (value: u8)
    requires
        is_hex(c),
    ensures
        value == hex_value(c),
        value < 16,
{
    let code: u32 = c as u32;
    if 48 <= code && code <= 57 {
        (code - 48) as u8
    } else if 97 <= code && code <= 102 {
        (code - 97 + 10) as u8
    } else {
        (code - 65 + 10) as u8
    }
}

/// Reads a colour.
pub fn hex_color(input: &str) -> (color: Result<RGBColor, UiError>)
    ensures
        color == match color_of(input@) {
            Some(expected) => Ok::<RGBColor, UiError>(expected),
            None => Err::<RGBColor, UiError>(UiError::HexColorNotValid),
        },
{
    if str_is(input, "#fff") {
        return Ok(RGBColor { red: 255, green: 255, blue: 255 });
    }
    if str_is(input, "#000") {
        return Ok(RGBColor { red: 0, green: 0, blue: 0 });
    }
    let len: usize = input.unicode_len();
    if len < 7 || input.get_char(0) != '#' {
        return Err(UiError::HexColorNotValid);
    }
    let r1: char = input.get_char(1);
    let r2: char = input.get_char(2);
    let g1: char = input.get_char(3);
    let g2: char = input.get_char(4);
    let b1: char = input.get_char(5);
    let b2: char = input.get_char(6);
    if is_hex_digit(r1) && is_hex_digit(r2) && is_hex_digit(g1) && is_hex_digit(g2) && is_hex_digit(
        b1,
    ) && is_hex_digit(b2) {
        Ok(RGBColor { red: hex_byte(r1, r2), green: hex_byte(g1, g2), blue: hex_byte(b1, b2) })
    } else {
        Err(UiError::HexColorNotValid)
    }
}

} // verus!
