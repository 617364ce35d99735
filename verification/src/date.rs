//! Calendar dates, held as plain year, month and day values, with a
//! verified parser and renderer for the `YYYY-MM-DD` shape.
use vstd::prelude::*;
use vstd::string::*;

verus! {

/// An ASCII digit.
pub open spec fn is_digit(c: char) -> bool {
    48 <= c as u32 && c as u32 <= 57
}

/// The numeric value of an ASCII digit.
pub open spec fn digit_val(c: char) -> int {
    c as u32 - 48
}

/// The value of the two digits of `s` starting at `off`.
pub open spec fn two_digits(s: Seq<char>, off: int) -> int {
    digit_val(s[off]) * 10 + digit_val(s[off + 1])
}

/// The value of the four digits of `s` starting at `off`.
pub open spec fn four_digits(s: Seq<char>, off: int) -> int {
    digit_val(s[off]) * 1000 + digit_val(s[off + 1]) * 100 + digit_val(s[off + 2]) * 10
        + digit_val(s[off + 3])
}

/// The `YYYY-MM-DD` shape: ten characters, digits in the year, month and
/// day positions, dashes between them.
pub open spec fn date_str_shape(s: Seq<char>) -> bool {
    &&& s.len() == 10
    &&& is_digit(s[0]) && is_digit(s[1]) && is_digit(s[2]) && is_digit(s[3])
    &&& s[4] == '-'
    &&& is_digit(s[5]) && is_digit(s[6])
    &&& s[7] == '-'
    &&& is_digit(s[8]) && is_digit(s[9])
}

/// A calendar date. Values produced by [`Date::parse`] satisfy
/// [`Date::is_valid`]; the renderer asks for it.
#[derive(Debug, Clone, Copy, PartialEq, Eq, Structural)]
pub struct Date {
    pub year: u32,
    pub month: u8,
    pub day: u8,
}

/// A leap year of the proleptic Gregorian calendar.
pub open spec fn is_leap_year(y: u32) -> bool {
    (y % 4 == 0 && y % 100 != 0) || y % 400 == 0
}

/// How many days the given month of the given year has.
pub open spec fn spec_days_in_month(y: u32, m: u8) -> u8 {
    if m == 2 {
        if is_leap_year(y) {
            29
        } else {
            28
        }
    } else if m == 4 || m == 6 || m == 9 || m == 11 {
        30
    } else {
        31
    }
}

/// How many days the given month of the given year has.
pub fn days_in_month(y: u32, m: u8) -> (r: u8)
    requires
        1 <= m <= 12,
    ensures
        r == spec_days_in_month(y, m),
{
    if m == 2 {
        let leap = (y % 4 == 0 && y % 100 != 0) || y % 400 == 0;
        if leap {
            29
        } else {
            28
        }
    } else if m == 4 || m == 6 || m == 9 || m == 11 {
        30
    } else {
        31
    }
}

/// The date the digits of a `YYYY-MM-DD` string denote.
pub open spec fn date_of(s: Seq<char>) -> Date {
    Date {
        year: four_digits(s, 0) as u32,
        month: two_digits(s, 5) as u8,
        day: two_digits(s, 8) as u8,
    }
}

/// The digit of `s` at position `i`, if there is one.
fn digit_at(s: &str, i: usize) -> (r: Option<u8>)
    requires
        i < s@.len(),
    ensures
        r is Some <==> is_digit(s@[i as int]),
        r matches Some(d) ==> d == digit_val(s@[i as int]) && d < 10,
{
    let c = s.get_char(i);
    let u = c as u32;
    if 48 <= u && u <= 57 {
        Some((u - 48) as u8)
    } else {
        None
    }
}

impl Date {
    /// The date is one the calendar has, with a four-digit year.
    pub open spec fn is_valid(&self) -> bool {
        &&& self.year <= 9999
        &&& 1 <= self.month <= 12
        &&& 1 <= self.day <= spec_days_in_month(self.year, self.month)
    }

    /// Decide whether the date is one the calendar has.
    pub fn check_valid(&self) -> (r: bool)
        ensures
            r == self.is_valid(),
    {
        if self.year > 9999 || self.month < 1 || self.month > 12 {
            return false;
        }
        1 <= self.day && self.day <= days_in_month(self.year, self.month)
    }

    /// Parse a `YYYY-MM-DD` string. Succeeds exactly on strings of that
    /// shape that denote a date the calendar has, and returns that date.
    pub fn parse(s: &str) -> (r: Option<Date>)
        ensures
            r is Some <==> date_str_shape(s@) && date_of(s@).is_valid(),
            r matches Some(d) ==> d == date_of(s@),
    {
        if s.unicode_len() != 10 {
            return None;
        }
        let d0 = match digit_at(s, 0) {
            Some(d) => d,
            None => { return None; },
        };
        let d1 = match digit_at(s, 1) {
            Some(d) => d,
            None => { return None; },
        };
        let d2 = match digit_at(s, 2) {
            Some(d) => d,
            None => { return None; },
        };
        let d3 = match digit_at(s, 3) {
            Some(d) => d,
            None => { return None; },
        };
        if s.get_char(4) != '-' {
            return None;
        }
        let m0 = match digit_at(s, 5) {
            Some(d) => d,
            None => { return None; },
        };
        let m1 = match digit_at(s, 6) {
            Some(d) => d,
            None => { return None; },
        };
        if s.get_char(7) != '-' {
            return None;
        }
        let e0 = match digit_at(s, 8) {
            Some(d) => d,
            None => { return None; },
        };
        let e1 = match digit_at(s, 9) {
            Some(d) => d,
            None => { return None; },
        };
        let year: u32 = (d0 as u32) * 1000 + (d1 as u32) * 100 + (d2 as u32) * 10 + (d3 as u32);
        let month: u8 = m0 * 10 + m1;
        let day: u8 = e0 * 10 + e1;
        if month < 1 || month > 12 {
            return None;
        }
        if day < 1 || day > days_in_month(year, month) {
            return None;
        }
        Some(Date { year, month, day })
    }

    /// Render the date in the `YYYY-MM-DD` shape: the string has that
    /// shape and its digits denote this very date.
    pub fn format(&self) -> (r: String)
        requires
            self.is_valid(),
        ensures
            date_str_shape(r@),
            date_of(r@) == *self,
    {
        let y0: usize = (self.year / 1000) as usize;
        let y1: usize = ((self.year / 100) % 10) as usize;
        let y2: usize = ((self.year / 10) % 10) as usize;
        let y3: usize = (self.year % 10) as usize;
        let m0: usize = (self.month / 10) as usize;
        let m1: usize = (self.month % 10) as usize;
        let e0: usize = (self.day / 10) as usize;
        let e1: usize = (self.day % 10) as usize;
        assert(y0 * 1000 + y1 * 100 + y2 * 10 + y3 == self.year) by (nonlinear_arith)
            requires
                y0 == self.year / 1000,
                y1 == (self.year / 100) % 10,
                y2 == (self.year / 10) % 10,
                y3 == self.year % 10,
                self.year <= 9999,
        ;
        assert(m0 * 10 + m1 == self.month) by (nonlinear_arith)
            requires
                m0 == self.month / 10,
                m1 == self.month % 10,
        ;
        assert(e0 * 10 + e1 == self.day) by (nonlinear_arith)
            requires
                e0 == self.day / 10,
                e1 == self.day % 10,
        ;
        let mut s = String::new();
        push_digit(&mut s, y0);
        push_digit(&mut s, y1);
        push_digit(&mut s, y2);
        push_digit(&mut s, y3);
        push_dash(&mut s);
        push_digit(&mut s, m0);
        push_digit(&mut s, m1);
        push_dash(&mut s);
        push_digit(&mut s, e0);
        push_digit(&mut s, e1);
        s
    }
}

/// Append the digit character of value `d` to the string.
fn push_digit(s: &mut String, d: usize)
    requires
        d < 10,
    ensures
        final(s)@.len() == old(s)@.len() + 1,
        forall|i: int| 0 <= i < old(s)@.len() ==> final(s)@[i] == old(s)@[i],
        is_digit(final(s)@[old(s)@.len() as int]),
        digit_val(final(s)@[old(s)@.len() as int]) == d,
{
    let digits = "0123456789";
    proof {
        reveal_strlit("0123456789");
    }
    assert(digits@.len() == 10);
    let piece = digits.substring_char(d, d + 1);
    assert(is_digit(digits@[d as int]) && digit_val(digits@[d as int]) == d);
    s.append(piece);
}

/// Append a dash to the string.
fn push_dash(s: &mut String)
    ensures
        final(s)@.len() == old(s)@.len() + 1,
        forall|i: int| 0 <= i < old(s)@.len() ==> final(s)@[i] == old(s)@[i],
        final(s)@[old(s)@.len() as int] == '-',
{
    let piece = "-";
    proof {
        reveal_strlit("-");
    }
    s.append(piece);
}

} // verus!
