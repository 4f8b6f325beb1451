//! The literal `YYYY-MM-DD` form of a date: formatting, parsing, and the
//! round trip between them.

use vstd::prelude::*;
use crate::date::Date;

verus! {

/// The decimal digit character for `v`.
pub open spec fn digit_char(v: int) -> char {
    if v == 0 {
        '0'
    } else if v == 1 {
        '1'
    } else if v == 2 {
        '2'
    } else if v == 3 {
        '3'
    } else if v == 4 {
        '4'
    } else if v == 5 {
        '5'
    } else if v == 6 {
        '6'
    } else if v == 7 {
        '7'
    } else if v == 8 {
        '8'
    } else {
        '9'
    }
}

/// Whether `c` is a decimal digit character.
pub open spec fn is_digit_char(c: char) -> bool {
    48 <= c as int <= 57
}

/// The numeric value of a digit character.
pub open spec fn digit_val(c: char) -> int {
    c as int - 48
}

/// The ten characters `YYYY-MM-DD` naming `d`.
pub open spec fn date_chars(d: Date) -> Seq<char> {
    seq![
        digit_char(d.year as int / 1000),
        digit_char((d.year as int / 100) % 10),
        digit_char((d.year as int / 10) % 10),
        digit_char(d.year as int % 10),
        '-',
        digit_char(d.month as int / 10),
        digit_char(d.month as int % 10),
        '-',
        digit_char(d.day as int / 10),
        digit_char(d.day as int % 10),
    ]
}

/// The date a ten-character `YYYY-MM-DD` text denotes, if it denotes one.
pub open spec fn parse_date_chars(s: Seq<char>) -> Option<Date> {
    if s.len() == 10 && is_digit_char(s[0]) && is_digit_char(s[1]) && is_digit_char(s[2])
        && is_digit_char(s[3]) && s[4] == '-' && is_digit_char(s[5]) && is_digit_char(s[6]) && s[7]
        == '-' && is_digit_char(s[8]) && is_digit_char(s[9]) {
        let d = Date {
            year: (digit_val(s[0]) * 1000 + digit_val(s[1]) * 100 + digit_val(s[2]) * 10
                + digit_val(s[3])) as u32,
            month: (digit_val(s[5]) * 10 + digit_val(s[6])) as u32,
            day: (digit_val(s[8]) * 10 + digit_val(s[9])) as u32,
        };
        if d.valid() {
            Some(d)
        } else {
            None
        }
    } else {
        None
    }
}

/// The one-character text for the digit `v`.
fn digit_str(v: u32) -> (r: &'static str)
    requires
        v < 10,
    ensures
        r@.len() == 1,
        r@[0] == digit_char(v as int),
{
    proof {
        reveal_strlit("0");
        reveal_strlit("1");
        reveal_strlit("2");
        reveal_strlit("3");
        reveal_strlit("4");
        reveal_strlit("5");
        reveal_strlit("6");
        reveal_strlit("7");
        reveal_strlit("8");
        reveal_strlit("9");
    }
    if v == 0 {
        "0"
    } else if v == 1 {
        "1"
    } else if v == 2 {
        "2"
    } else if v == 3 {
        "3"
    } else if v == 4 {
        "4"
    } else if v == 5 {
        "5"
    } else if v == 6 {
        "6"
    } else if v == 7 {
        "7"
    } else if v == 8 {
        "8"
    } else {
        "9"
    }
}

/// The `YYYY-MM-DD` text naming `d`.
pub fn date_string(d: &Date) -> (r: String)
    requires
        d.valid(),
    ensures
        r@ == date_chars(*d),
{
    proof {
        reveal_strlit("-");
        vstd::arithmetic::div_mod::lemma_fundamental_div_mod(d.year as int, 1000);
        vstd::arithmetic::div_mod::lemma_mod_pos_bound(d.year as int, 1000);
    }
    let mut s = String::new();
    s.append(digit_str(d.year / 1000));
    s.append(digit_str((d.year / 100) % 10));
    s.append(digit_str((d.year / 10) % 10));
    s.append(digit_str(d.year % 10));
    s.append("-");
    s.append(digit_str(d.month / 10));
    s.append(digit_str(d.month % 10));
    s.append("-");
    s.append(digit_str(d.day / 10));
    s.append(digit_str(d.day % 10));
    proof {
        assert(s@ =~= date_chars(*d));
    }
    s
}

/// Whether `c` is a decimal digit character.
fn is_digit(c: char) -> (r: bool)
    ensures
        r == is_digit_char(c),
{
    let v: u32 = c as u32;
    48 <= v && v <= 57
}

/// The numeric value of a digit character.
fn dval(c: char) -> (r: u32)
    requires
        is_digit_char(c),
    ensures
        r as int == digit_val(c),
        r <= 9,
{
    (c as u32) - 48
}

/// The date a `YYYY-MM-DD` text denotes, or `None` when the text has
/// another shape or denotes no calendar day.
pub fn parse_date(s: &str) -> (r: Option<Date>)
    ensures
        r == parse_date_chars(s@),
{
    if s.unicode_len() != 10 {
        return None;
    }
    let c0 = s.get_char(0);
    let c1 = s.get_char(1);
    let c2 = s.get_char(2);
    let c3 = s.get_char(3);
    let c4 = s.get_char(4);
    let c5 = s.get_char(5);
    let c6 = s.get_char(6);
    let c7 = s.get_char(7);
    let c8 = s.get_char(8);
    let c9 = s.get_char(9);
    if !(is_digit(c0) && is_digit(c1) && is_digit(c2) && is_digit(c3) && is_digit(c5) && is_digit(
        c6,
    ) && is_digit(c8) && is_digit(c9)) {
        return None;
    }
    if c4 != '-' || c7 != '-' {
        return None;
    }
    let year: u32 = dval(c0) * 1000 + dval(c1) * 100 + dval(c2) * 10 + dval(c3);
    let month: u32 = dval(c5) * 10 + dval(c6);
    let day: u32 = dval(c8) * 10 + dval(c9);
    let d = Date { year, month, day };
    if d.check_valid() {
        Some(d)
    } else {
        None
    }
}

/// A digit character round trip: formatting then reading a digit value
/// gives the value back.
proof fn lemma_digit_round(v: int)
    requires
        0 <= v <= 9,
    ensures
        is_digit_char(digit_char(v)),
        digit_val(digit_char(v)) == v,
{
}

/// The two decimal digits of a number below one hundred.
proof fn lemma_two_digits(x: int)
    requires
        0 <= x <= 99,
    ensures
        0 <= x / 10 <= 9,
        0 <= x % 10 <= 9,
        10 * (x / 10) + x % 10 == x,
{
    vstd::arithmetic::div_mod::lemma_fundamental_div_mod(x, 10);
    vstd::arithmetic::div_mod::lemma_mod_pos_bound(x, 10);
}

/// The four decimal digits of a number below ten thousand.
proof fn lemma_four_digits(y: int)
    requires
        0 <= y <= 9999,
    ensures
        0 <= y / 1000 <= 9,
        0 <= (y / 100) % 10 <= 9,
        0 <= (y / 10) % 10 <= 9,
        0 <= y % 10 <= 9,
        1000 * (y / 1000) + 100 * ((y / 100) % 10) + 10 * ((y / 10) % 10) + y % 10 == y,
{
    vstd::arithmetic::div_mod::lemma_fundamental_div_mod(y, 10);
    vstd::arithmetic::div_mod::lemma_mod_pos_bound(y, 10);
    vstd::arithmetic::div_mod::lemma_fundamental_div_mod(y / 10, 10);
    vstd::arithmetic::div_mod::lemma_mod_pos_bound(y / 10, 10);
    vstd::arithmetic::div_mod::lemma_fundamental_div_mod(y / 100, 10);
    vstd::arithmetic::div_mod::lemma_mod_pos_bound(y / 100, 10);
    vstd::arithmetic::div_mod::lemma_div_denominator(y, 10, 10);
    vstd::arithmetic::div_mod::lemma_div_denominator(y, 100, 10);
}

/// Law: parsing the formatted name of a valid date gives that date back.
pub proof fn lemma_format_parse_round_trip(d: Date)
    requires
        d.valid(),
    ensures
        parse_date_chars(date_chars(d)) == Some(d),
{
    let y = d.year as int;
    let m = d.month as int;
    let day = d.day as int;
    let s = date_chars(d);
    lemma_four_digits(y);
    lemma_two_digits(m);
    lemma_two_digits(day);
    lemma_digit_round(y / 1000);
    lemma_digit_round((y / 100) % 10);
    lemma_digit_round((y / 10) % 10);
    lemma_digit_round(y % 10);
    lemma_digit_round(m / 10);
    lemma_digit_round(m % 10);
    lemma_digit_round(day / 10);
    lemma_digit_round(day % 10);
    assert(digit_val(s[0]) * 1000 + digit_val(s[1]) * 100 + digit_val(s[2]) * 10 + digit_val(s[3])
        == y);
    assert(digit_val(s[5]) * 10 + digit_val(s[6]) == m);
    assert(digit_val(s[8]) * 10 + digit_val(s[9]) == day);
    assert(parse_date_chars(s) == Some(d));
}

} // verus!
