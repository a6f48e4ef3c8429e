use vstd::prelude::*;
use vstd::string::StrSliceExecFns;
use crate::parser::{digit, is_digit, spec_week2, spec_year1, week2, year1, Year};

verus! {

/// The date code stamped on a CGB cartridge: year digit and week, as far as
/// the stamp gives them.
#[derive(Copy, Clone, Debug, PartialEq, Eq)]
pub struct CgbStamp {
    pub year: Option<Year>,
    pub week: Option<u8>,
}

/// A separator a stamp may carry between its date part and its trailing lot
/// digits.
pub open spec fn is_sep(c: char) -> bool {
    c == '-' || c == ' ' || c == '.' || c == 'X'
}

pub open spec fn all_digits(s: Seq<char>) -> bool {
    forall|i: int| 0 <= i < s.len() ==> is_digit(s[i])
}

/// The stamp's tail after the three date digits: an optional separator, then
/// two to four lot digits, then an optional trailing `Y`.
pub open spec fn cgb_tail_ok(rest: Seq<char>) -> bool {
    let rest2 = if rest.len() > 0 && is_sep(rest[0]) {
        rest.drop_first()
    } else {
        rest
    };
    let digits = if rest2.len() > 0 && rest2.last() == 'Y' {
        rest2.drop_last()
    } else {
        rest2
    };
    2 <= digits.len() <= 4 && all_digits(digits)
}

/// The whole stamp form: a two-digit week, a year digit, then the tail. The
/// stamp parses only when the week and year are themselves valid.
pub open spec fn spec_parse_cgb_stamp(l: Seq<char>) -> Option<CgbStamp> {
    if l.len() >= 5 && is_digit(l[0]) && is_digit(l[1]) && is_digit(l[2]) && cgb_tail_ok(
        l.subrange(3, l.len() as int),
    ) {
        match (spec_week2(l[0], l[1]), spec_year1(l[2])) {
            (Some(w), Some(y)) => Some(CgbStamp { year: Some(y), week: Some(w) }),
            _ => None,
        }
    } else {
        None
    }
}

fn sep(c: char) -> (r: bool)
    ensures
        r == is_sep(c),
{
    c == '-' || c == ' ' || c == '.' || c == 'X'
}

/// Parses a CGB cartridge stamp.
pub fn parse_cgb_stamp(text: &str) -> (r: Option<CgbStamp>)
    ensures
        r == spec_parse_cgb_stamp(text@),
{
    let n = text.unicode_len();
    if n < 5 {
        return None;
    }
    if !(digit(text.get_char(0)) && digit(text.get_char(1)) && digit(text.get_char(2))) {
        return None;
    }
    let ghost rest = text@.subrange(3, text@.len() as int);
    let start: usize = if sep(text.get_char(3)) {
        4
    } else {
        3
    };
    proof {
        assert(rest[0] == text@[3]);
        assert(rest.len() > 0);
    }
    let end: usize = if text.get_char(n - 1) == 'Y' {
        n - 1
    } else {
        n
    };
    let ghost rest2 = if rest.len() > 0 && is_sep(rest[0]) {
        rest.drop_first()
    } else {
        rest
    };
    let ghost digits = if rest2.len() > 0 && rest2.last() == 'Y' {
        rest2.drop_last()
    } else {
        rest2
    };
    proof {
        assert(rest2 =~= text@.subrange(start as int, n as int));
        assert(rest2.len() > 0);
        assert(rest2.last() == text@[n - 1]);
        assert(digits =~= text@.subrange(start as int, end as int));
        assert(digits.len() == end - start);
    }
    if end - start < 2 || end - start > 4 {
        proof {
            assert(!cgb_tail_ok(rest));
        }
        return None;
    }
    proof {
        assert(cgb_tail_ok(rest) == all_digits(digits));
    }
    let mut i: usize = start;
    while i < end
        invariant
            start <= i <= end,
            end <= n,
            n == text@.len(),
            rest == text@.subrange(3, n as int),
            digits == text@.subrange(start as int, end as int),
            digits.len() == end - start,
            cgb_tail_ok(rest) == all_digits(digits),
            forall|j: int| start <= j < i ==> is_digit(text@[j]),
        decreases end - i,
    {
        if !digit(text.get_char(i)) {
            proof {
                assert(digits[i - start] == text@[i as int]);
                assert(!all_digits(digits));
            }
            return None;
        }
        i += 1;
    }
    proof {
        assert forall|j: int| 0 <= j < digits.len() implies is_digit(digits[j]) by {
            assert(digits[j] == text@[start + j]);
        }
        assert(cgb_tail_ok(rest));
    }
    let week = week2(text.get_char(0), text.get_char(1));
    let year = year1(text.get_char(2));
    match (week, year) {
        (Some(w), Some(y)) => Some(CgbStamp { year: Some(y), week: Some(w) }),
        _ => None,
    }
}

} // verus!
