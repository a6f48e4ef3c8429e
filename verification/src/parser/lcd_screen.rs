use vstd::prelude::*;
use vstd::string::StrSliceExecFns;
use crate::parser::{digit, is_digit, month2, spec_month2, spec_year1, year1, Month, Year};

verus! {

/// The date code stamped on an LCD screen: year and month, as far as the
/// label gives them.
#[derive(Copy, Clone, Debug, PartialEq, Eq)]
pub struct LcdScreen {
    pub year: Option<Year>,
    pub month: Option<Month>,
}

/// The first LCD label form: anything ending in six digits, the second of
/// which is the year digit and the next two the month.
pub open spec fn spec_lcd_screen1(l: Seq<char>) -> Option<LcdScreen> {
    let n = l.len() as int;
    if n >= 6 && is_digit(l[n - 6]) && is_digit(l[n - 5]) && is_digit(l[n - 4]) && is_digit(
        l[n - 3],
    ) && is_digit(l[n - 2]) && is_digit(l[n - 1]) {
        match (spec_year1(l[n - 5]), spec_month2(l[n - 4], l[n - 3])) {
            (Some(y), Some(mo)) => Some(LcdScreen { year: Some(y), month: Some(mo) }),
            _ => None,
        }
    } else {
        None
    }
}

/// The second LCD label form: anything ending in five digits, the first of
/// which is the year digit and the next two the month.
pub open spec fn spec_lcd_screen2(l: Seq<char>) -> Option<LcdScreen> {
    let n = l.len() as int;
    if n >= 5 && is_digit(l[n - 5]) && is_digit(l[n - 4]) && is_digit(l[n - 3]) && is_digit(
        l[n - 2],
    ) && is_digit(l[n - 1]) {
        match (spec_year1(l[n - 5]), spec_month2(l[n - 4], l[n - 3])) {
            (Some(y), Some(mo)) => Some(LcdScreen { year: Some(y), month: Some(mo) }),
            _ => None,
        }
    } else {
        None
    }
}

/// Either form, the six-digit one tried first.
pub open spec fn spec_lcd_screen(l: Seq<char>) -> Option<LcdScreen> {
    match spec_lcd_screen1(l) {
        Some(s) => Some(s),
        None => spec_lcd_screen2(l),
    }
}

/// Parses the first LCD label form: a label ending in six digits.
pub fn lcd_screen1(label: &str) -> (r: Option<LcdScreen>)
    ensures
        r == spec_lcd_screen1(label@),
{
    let n = label.unicode_len();
    if n < 6 {
        return None;
    }
    if !(digit(label.get_char(n - 6)) && digit(label.get_char(n - 5)) && digit(
        label.get_char(n - 4),
    ) && digit(label.get_char(n - 3)) && digit(label.get_char(n - 2)) && digit(
        label.get_char(n - 1),
    )) {
        return None;
    }
    let year = year1(label.get_char(n - 5));
    let month = month2(label.get_char(n - 4), label.get_char(n - 3));
    match (year, month) {
        (Some(y), Some(mo)) => Some(LcdScreen { year: Some(y), month: Some(mo) }),
        _ => None,
    }
}

/// Parses the second LCD label form: a label ending in five digits.
pub fn lcd_screen2(label: &str) -> (r: Option<LcdScreen>)
    ensures
        r == spec_lcd_screen2(label@),
{
    let n = label.unicode_len();
    if n < 5 {
        return None;
    }
    if !(digit(label.get_char(n - 5)) && digit(label.get_char(n - 4)) && digit(
        label.get_char(n - 3),
    ) && digit(label.get_char(n - 2)) && digit(label.get_char(n - 1))) {
        return None;
    }
    let year = year1(label.get_char(n - 5));
    let month = month2(label.get_char(n - 4), label.get_char(n - 3));
    match (year, month) {
        (Some(y), Some(mo)) => Some(LcdScreen { year: Some(y), month: Some(mo) }),
        _ => None,
    }
}

/// Parses an LCD screen label, trying the six-digit form first.
pub fn lcd_screen(label: &str) -> (r: Option<LcdScreen>)
    ensures
        r == spec_lcd_screen(label@),
{
    match lcd_screen1(label) {
        Some(s) => Some(s),
        None => lcd_screen2(label),
    }
}

} // verus!
