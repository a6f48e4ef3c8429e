pub mod cgb_stamp;
pub mod lcd_screen;

use vstd::prelude::*;

verus! {

/// A date-code year: either a full four-digit year or only its final digit,
/// which is all that one-digit date codes carry.
#[derive(Copy, Clone, Debug, PartialEq, Eq)]
pub enum Year {
    Full(u16),
    Partial(u8),
}

#[derive(Copy, Clone, Debug, PartialEq, Eq)]
pub enum Month {
    January,
    February,
    March,
    April,
    May,
    June,
    July,
    August,
    September,
    October,
    November,
    December,
}

pub open spec fn is_digit(c: char) -> bool {
    '0' as u32 <= c as u32 && c as u32 <= '9' as u32
}

pub open spec fn digit_value(c: char) -> int {
    c as u32 - '0' as u32
}

/// True when the character is a decimal digit.
pub fn digit(c: char) -> (r: bool)
    ensures
        r == is_digit(c),
{
    let cu = c as u32;
    48 <= cu && cu <= 57
}

pub open spec fn spec_year1(c: char) -> Option<Year> {
    if is_digit(c) {
        Some(Year::Partial((c as u32 - '0' as u32) as u8))
    } else {
        None
    }
}

/// Parses a one-digit year of a date code: the digit is the year's last digit.
pub fn year1(c: char) -> (r: Option<Year>)
    ensures
        r == spec_year1(c),
{
    let cu = c as u32;
    if 48 <= cu && cu <= 57 {
        Some(Year::Partial((cu - 48) as u8))
    } else {
        None
    }
}

pub open spec fn month_of(n: int) -> Month {
    if n == 1 {
        Month::January
    } else if n == 2 {
        Month::February
    } else if n == 3 {
        Month::March
    } else if n == 4 {
        Month::April
    } else if n == 5 {
        Month::May
    } else if n == 6 {
        Month::June
    } else if n == 7 {
        Month::July
    } else if n == 8 {
        Month::August
    } else if n == 9 {
        Month::September
    } else if n == 10 {
        Month::October
    } else if n == 11 {
        Month::November
    } else {
        Month::December
    }
}

pub open spec fn spec_month2(t: char, o: char) -> Option<Month> {
    if is_digit(t) && is_digit(o) {
        let n = 10 * digit_value(t) + digit_value(o);
        if 1 <= n <= 12 {
            Some(month_of(n))
        } else {
            None
        }
    } else {
        None
    }
}

/// Parses a two-digit month of a date code; only 01 through 12 are months.
pub fn month2(t: char, o: char) -> (r: Option<Month>)
    ensures
        r == spec_month2(t, o),
{
    let tu = t as u32;
    let ou = o as u32;
    if !(48 <= tu && tu <= 57 && 48 <= ou && ou <= 57) {
        return None;
    }
    let n = 10 * (tu - 48) + (ou - 48);
    if n == 1 {
        Some(Month::January)
    } else if n == 2 {
        Some(Month::February)
    } else if n == 3 {
        Some(Month::March)
    } else if n == 4 {
        Some(Month::April)
    } else if n == 5 {
        Some(Month::May)
    } else if n == 6 {
        Some(Month::June)
    } else if n == 7 {
        Some(Month::July)
    } else if n == 8 {
        Some(Month::August)
    } else if n == 9 {
        Some(Month::September)
    } else if n == 10 {
        Some(Month::October)
    } else if n == 11 {
        Some(Month::November)
    } else if n == 12 {
        Some(Month::December)
    } else {
        None
    }
}

pub open spec fn spec_week2(t: char, o: char) -> Option<u8> {
    if is_digit(t) && is_digit(o) {
        let n = 10 * digit_value(t) + digit_value(o);
        if 1 <= n <= 53 {
            Some(n as u8)
        } else {
            None
        }
    } else {
        None
    }
}

/// Parses a two-digit week of a date code; only 01 through 53 are weeks.
pub fn week2(t: char, o: char) -> (r: Option<u8>)
    ensures
        r == spec_week2(t, o),
{
    let tu = t as u32;
    let ou = o as u32;
    if !(48 <= tu && tu <= 57 && 48 <= ou && ou <= 57) {
        return None;
    }
    let n = 10 * (tu - 48) + (ou - 48);
    if 1 <= n && n <= 53 {
        Some(n as u8)
    } else {
        None
    }
}

} // verus!
