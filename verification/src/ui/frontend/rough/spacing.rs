//! Lengths: a whole number followed by a unit, `px`, `%w` or `%h`.

use vstd::prelude::*;
use vstd::string::StrSliceExecFns;
use crate::ui::frontend::errors::UiError;
use crate::ui::frontend::SpacingUnit;

verus! {

pub open spec fn is_digit(c: char) -> bool {
    '0' as u32 <= c as u32 <= '9' as u32
}

pub open spec fn digit_value(c: char) -> nat {
    (c as u32 - '0' as u32) as nat
}

/// The number a run of decimal digits stands for; nothing when a character
/// is not a digit. The empty run stands for zero.
pub open spec fn digits_value(s: Seq<char>) -> Option<nat>
    decreases s.len(),
{
    if s.len() == 0 {
        Some(0)
    } else {
        match digits_value(s.drop_last()) {
            Some(front) => if is_digit(s.last()) {
                Some(front * 10 + digit_value(s.last()))
            } else {
                None
            },
            None => None,
        }
    }
}

/// The `i32` that `s` denotes in decimal: an optional sign, then at least
/// one digit, the value within the range of `i32`.
pub open spec fn decimal_i32(s: Seq<char>) -> Option<i32> {
    if s.len() == 0 {
        None
    } else {
        let negative = s[0] == '-';
        let digits = if s[0] == '-' || s[0] == '+' {
            s.drop_first()
        } else {
            s
        };
        if digits.len() == 0 {
            None
        } else {
            match digits_value(digits) {
                Some(value) => if negative {
                    if value <= 0x8000_0000 {
                        Some((0 - value) as i32)
                    } else {
                        None
                    }
                } else {
                    if value <= 0x7fff_ffff {
                        Some(value as i32)
                    } else {
                        None
                    }
                },
                None => None,
            }
        }
    }
}

/// Position of the first `first` that is directly followed by `second`, at
/// or behind `from`; the length of `s` when there is none.
pub open spec fn scan_pair(s: Seq<char>, from: int, first: char, second: char) -> int
    decreases s.len() - from,
{
    if from < 0 || from + 1 >= s.len() {
        s.len() as int
    } else if s[from] == first && s[from + 1] == second {
        from
    } else {
        scan_pair(s, from + 1, first, second)
    }
}

/// The length that `d` denotes. The unit is the first of `px`, `%w`, `%h`
/// that occurs in `d`, tried in this order; the number is what stands before
/// its first occurrence. What follows the unit is ignored.
pub open spec fn spacing_unit(d: Seq<char>) -> Option<SpacingUnit> {
    let px = scan_pair(d, 0, 'p', 'x');
    let width = scan_pair(d, 0, '%', 'w');
    let height = scan_pair(d, 0, '%', 'h');
    if px < d.len() {
        match decimal_i32(d.subrange(0, px)) {
            Some(n) => Some(SpacingUnit::Pixels(n)),
            None => None,
        }
    } else if width < d.len() {
        match decimal_i32(d.subrange(0, width)) {
            Some(n) => Some(SpacingUnit::PercentWidth(n)),
            None => None,
        }
    } else if height < d.len() {
        match decimal_i32(d.subrange(0, height)) {
            Some(n) => Some(SpacingUnit::PercentHeight(n)),
            None => None,
        }
    } else {
        None
    }
}

/// The digits of a prefix of a number are a number, and not a larger one.
proof fn lemma_digits_prefix(s: Seq<char>, k: int)
    requires
        0 <= k <= s.len(),
        digits_value(s).is_some(),
    ensures
        digits_value(s.take(k)).is_some(),
        digits_value(s.take(k)).unwrap() <= digits_value(s).unwrap(),
    decreases s.len(),
{
    if k == s.len() {
        assert(s.take(k) =~= s);
    } else {
        assert(s.drop_last().take(k) =~= s.take(k));
        lemma_digits_prefix(s.drop_last(), k);
    }
}

fn find_pair(text: &str, first: char, second: char) -> (at: usize)
    ensures
        at == scan_pair(text@, 0, first, second),
        at <= text@.len(),
        at < text@.len() ==> at + 1 < text@.len(),
{
    let len: usize = text.unicode_len();
    let mut i: usize = 0;
    while i < len && i + 1 < len
        invariant
            i <= len,
            len == text@.len(),
            scan_pair(text@, 0, first, second) == scan_pair(text@, i as int, first, second),
        decreases len - i,
    {
        if text.get_char(i) == first && text.get_char(i + 1) == second {
            return i;
        }
        i = i + 1;
    }
    len
}

/// Reads the decimal number that the first `end` characters of `text`
/// denote.
fn parse_decimal(text: &str, end: usize) -> (value: Option<i32>)
    requires
        end <= text@.len(),
    ensures
        value == decimal_i32(text@.subrange(0, end as int)),
{
    if end == 0 {
        return None;
    }
    let ghost s = text@.subrange(0, end as int);
    let sign: char = text.get_char(0);
    let negative: bool = sign == '-';
    let start: usize = if sign == '-' || sign == '+' {
        1
    } else {
        0
    };
    if start == end {
        return None;
    }
    let ghost digits = s.subrange(start as int, end as int);
    assert(digits =~= if s[0] == '-' || s[0] == '+' {
        s.drop_first()
    } else {
        s
    });
    let mut value: u64 = 0;
    let mut i: usize = start;
    while i < end
        invariant
            start <= i <= end,
            end <= text@.len(),
            s == text@.subrange(0, end as int),
            s.len() > 0,
            digits.len() == end - start,
            digits == s.subrange(start as int, end as int),
            digits == if s[0] == '-' || s[0] == '+' {
                s.drop_first()
            } else {
                s
            },
            digits_value(digits.take(i - start)) == Some(value as nat),
            value <= 0x8000_0000,
        decreases end - i,
    {
        let c: u32 = text.get_char(i) as u32;
        let ghost longer = digits.take(i - start + 1);
        proof {
            assert(longer.drop_last() =~= digits.take(i - start));
            assert(longer.last() == text@[i as int]);
        }
        if c < 48 || c > 57 {
            proof {
                if digits_value(digits).is_some() {
                    lemma_digits_prefix(digits, i - start + 1);
                }
            }
            return None;
        }
        value = value * 10 + (c - 48) as u64;
        if value > 0x8000_0000 {
            proof {
                if digits_value(digits).is_some() {
                    lemma_digits_prefix(digits, i - start + 1);
                }
            }
            return None;
        }
        i = i + 1;
    }
    assert(digits.take(end - start) =~= digits);
    if negative {
        let signed: i64 = 0 - (value as i64);
        Some(signed as i32)
    } else if value <= 0x7fff_ffff {
        Some(value as i32)
    } else {
        None
    }
}

/// Reads a length.
pub fn parse_spacing_units(input: &str) -> (unit: Result<SpacingUnit, UiError>)
    ensures
        unit == match spacing_unit(input@) {
            Some(expected) => Ok::<SpacingUnit, UiError>(expected),
            None => Err::<SpacingUnit, UiError>(UiError::FailedToParseUnit),
        },
{
    let len: usize = input.unicode_len();
    let px: usize = find_pair(input, 'p', 'x');
    if px < len {
        return match parse_decimal(input, px) {
            Some(n) => Ok(SpacingUnit::Pixels(n)),
            None => Err(UiError::FailedToParseUnit),
        };
    }
    let width: usize = find_pair(input, '%', 'w');
    if width < len {
        return match parse_decimal(input, width) {
            Some(n) => Ok(SpacingUnit::PercentWidth(n)),
            None => Err(UiError::FailedToParseUnit),
        };
    }
    let height: usize = find_pair(input, '%', 'h');
    if height < len {
        return match parse_decimal(input, height) {
            Some(n) => Ok(SpacingUnit::PercentHeight(n)),
            None => Err(UiError::FailedToParseUnit),
        };
    }
    Err(UiError::FailedToParseUnit)
}

} // verus!
