use gbhwdb::parser::cgb_stamp::parse_cgb_stamp;
use gbhwdb::parser::lcd_screen::{lcd_screen, lcd_screen1, lcd_screen2};
use gbhwdb::parser::{month2, week2, year1, Month, Year};

#[test]
fn year_digit() {
    assert_eq!(year1('0'), Some(Year::Partial(0)));
    assert_eq!(year1('9'), Some(Year::Partial(9)));
    assert_eq!(year1('x'), None);
}

#[test]
fn month_two_digits() {
    assert_eq!(month2('0', '1'), Some(Month::January));
    assert_eq!(month2('1', '2'), Some(Month::December));
    assert_eq!(month2('0', '0'), None);
    assert_eq!(month2('1', '3'), None);
    assert_eq!(month2('9', '9'), None);
    assert_eq!(month2('a', '1'), None);
}

#[test]
fn week_two_digits() {
    assert_eq!(week2('0', '1'), Some(1));
    assert_eq!(week2('5', '3'), Some(53));
    assert_eq!(week2('0', '0'), None);
    assert_eq!(week2('5', '4'), None);
}

#[test]
fn lcd_screen_six_digit_form() {
    let s = lcd_screen1("S890220").expect("parses");
    assert_eq!(s.year, Some(Year::Partial(9)));
    assert_eq!(s.month, Some(Month::February));
    assert!(lcd_screen1("S89022").is_none());
    // Six trailing digits whose month part is out of range.
    assert!(lcd_screen1("A998899").is_none());
}

#[test]
fn lcd_screen_five_digit_form() {
    let s = lcd_screen2("T61102S T61104").expect("parses");
    assert_eq!(s.year, Some(Year::Partial(6)));
    assert_eq!(s.month, Some(Month::November));
    assert!(lcd_screen2("T611").is_none());
}

#[test]
fn lcd_screen_tries_both_forms() {
    let six = lcd_screen("S890220").expect("six-digit form");
    assert_eq!(six.year, Some(Year::Partial(9)));
    assert_eq!(six.month, Some(Month::February));
    let five = lcd_screen("T61104").expect("five-digit form");
    assert_eq!(five.year, Some(Year::Partial(6)));
    assert_eq!(five.month, Some(Month::November));
    assert!(lcd_screen("no digits").is_none());
}

#[test]
fn cgb_stamp_with_dash() {
    let s = parse_cgb_stamp("218-2221").expect("parses");
    assert_eq!(s.week, Some(21));
    assert_eq!(s.year, Some(Year::Partial(8)));
}

#[test]
fn cgb_stamp_separator_variants() {
    assert!(parse_cgb_stamp("21822").is_some());
    assert!(parse_cgb_stamp("218 2221").is_some());
    assert!(parse_cgb_stamp("218.22").is_some());
    assert!(parse_cgb_stamp("218X22").is_some());
    assert!(parse_cgb_stamp("218-22Y").is_some());
}

#[test]
fn cgb_stamp_rejects_bad_forms() {
    // Week 00 is no week.
    assert!(parse_cgb_stamp("00822").is_none());
    // Too few or too many lot digits.
    assert!(parse_cgb_stamp("218-2").is_none());
    assert!(parse_cgb_stamp("218-22212").is_none());
    // Non-digit where digits are required.
    assert!(parse_cgb_stamp("21a-2221").is_none());
    assert!(parse_cgb_stamp("218-22a1").is_none());
    assert!(parse_cgb_stamp("").is_none());
}
