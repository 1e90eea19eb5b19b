//! Calendar dates as the protocol carries them: the token-expiry field
//! travels as `DDMonYYYY` (for example `05Jan2024`), two digits of day,
//! a three-letter month abbreviation and four digits of year.
use vstd::prelude::*;

use crate::text;

verus! {

/// A calendar date, held as plain year, month and day numbers.
#[derive(Clone, Copy, PartialEq, Eq, Structural, Debug)]
pub struct Date {
    pub year: u16,
    pub month: u8,
    pub day: u8,
}

impl Date {
    /// The bounds under which the `DDMonYYYY` rendering is defined.
    pub open spec fn wf(self) -> bool {
        1 <= self.month <= 12 && 1 <= self.day <= 31 && self.year <= 9999
    }

    /// Construct a date after checking the bounds.
    pub fn new(year: u16, month: u8, day: u8) -> (r: Option<Date>)
        ensures
            match r {
                Option::Some(d) => d.wf() && d.year == year && d.month == month && d.day == day,
                Option::None => !(Date { year, month, day }).wf(),
            },
    {
        if 1 <= month && month <= 12 && 1 <= day && day <= 31 && year <= 9999 {
            Some(Date { year, month, day })
        } else {
            None
        }
    }

    /// Render the date as `DDMonYYYY`.
    pub fn format(&self) -> (r: String)
        requires
            self.wf(),
        ensures
            r@ == spec_format(*self),
    {
        let mut out = String::new();
        append_two_digits(&mut out, self.day);
        out.append(month_abbrev_str(self.month));
        append_four_digits(&mut out, self.year);
        proof {
            assert(out@ =~= spec_format(*self));
        }
        out
    }
}

/// A number below one hundred, zero-padded to two digits.
pub open spec fn two_digits(n: int) -> Seq<char> {
    seq![text::dec_digit(n / 10), text::dec_digit(n % 10)]
}

/// A number below ten thousand, zero-padded to four digits.
pub open spec fn four_digits(n: int) -> Seq<char> {
    seq![
        text::dec_digit(n / 1000),
        text::dec_digit(n / 100 % 10),
        text::dec_digit(n / 10 % 10),
        text::dec_digit(n % 10),
    ]
}

/// The three-letter abbreviation of a month number.
pub open spec fn month_abbrev(m: int) -> Seq<char> {
    if m == 1 {
        "Jan"@
    } else if m == 2 {
        "Feb"@
    } else if m == 3 {
        "Mar"@
    } else if m == 4 {
        "Apr"@
    } else if m == 5 {
        "May"@
    } else if m == 6 {
        "Jun"@
    } else if m == 7 {
        "Jul"@
    } else if m == 8 {
        "Aug"@
    } else if m == 9 {
        "Sep"@
    } else if m == 10 {
        "Oct"@
    } else if m == 11 {
        "Nov"@
    } else {
        "Dec"@
    }
}

/// The `DDMonYYYY` rendering of a date.
pub open spec fn spec_format(d: Date) -> Seq<char> {
    two_digits(d.day as int) + month_abbrev(d.month as int) + four_digits(d.year as int)
}

fn month_abbrev_str(m: u8) -> (r: &'static str)
    requires
        1 <= m <= 12,
    ensures
        r@ == month_abbrev(m as int),
{
    if m == 1 {
        "Jan"
    } else if m == 2 {
        "Feb"
    } else if m == 3 {
        "Mar"
    } else if m == 4 {
        "Apr"
    } else if m == 5 {
        "May"
    } else if m == 6 {
        "Jun"
    } else if m == 7 {
        "Jul"
    } else if m == 8 {
        "Aug"
    } else if m == 9 {
        "Sep"
    } else if m == 10 {
        "Oct"
    } else {
        if m == 11 {
            "Nov"
        } else {
            "Dec"
        }
    }
}

fn append_two_digits(out: &mut String, n: u8)
    requires
        n < 100,
    ensures
        final(out)@ == old(out)@ + two_digits(n as int),
{
    let mut s = u8_digit_string(n / 10);
    out.append(s.as_str());
    s = u8_digit_string(n % 10);
    out.append(s.as_str());
    proof {
        assert(final(out)@ =~= old(out)@ + two_digits(n as int));
    }
}

fn append_four_digits(out: &mut String, n: u16)
    requires
        n < 10000,
    ensures
        final(out)@ == old(out)@ + four_digits(n as int),
{
    let mut s = u8_digit_string((n / 1000) as u8);
    out.append(s.as_str());
    s = u8_digit_string((n / 100 % 10) as u8);
    out.append(s.as_str());
    s = u8_digit_string((n / 10 % 10) as u8);
    out.append(s.as_str());
    s = u8_digit_string((n % 10) as u8);
    out.append(s.as_str());
    proof {
        assert(final(out)@ =~= old(out)@ + four_digits(n as int));
    }
}

fn u8_digit_string(n: u8) -> (r: String)
    requires
        n < 10,
    ensures
        r@ =~= seq![text::dec_digit(n as int)],
{
    let mut s = String::new();
    text::append_u64(&mut s, n as u64);
    s
}

/// Structural parse of the `DDMonYYYY` grammar.
pub open spec fn spec_parse(s: Seq<char>) -> Option<Date> {
    if s.len() != 9 {
        Option::None
    } else {
        let day = text::digit_of(s[0]) * 10 + text::digit_of(s[1]);
        let month = spec_month_of(s.subrange(2, 5));
        let year = text::digit_of(s[5]) * 1000 + text::digit_of(s[6]) * 100 + text::digit_of(s[7])
            * 10 + text::digit_of(s[8]);
        if text::digit_of(s[0]) >= 0 && text::digit_of(s[1]) >= 0 && text::digit_of(s[5]) >= 0
            && text::digit_of(s[6]) >= 0 && text::digit_of(s[7]) >= 0 && text::digit_of(s[8]) >= 0
            && month >= 1 && 1 <= day <= 31 {
            Option::Some(Date { year: year as u16, month: month as u8, day: day as u8 })
        } else {
            Option::None
        }
    }
}

/// The month number whose abbreviation is `s`, or zero.
pub open spec fn spec_month_of(s: Seq<char>) -> int {
    if s == "Jan"@ {
        1
    } else if s == "Feb"@ {
        2
    } else if s == "Mar"@ {
        3
    } else if s == "Apr"@ {
        4
    } else if s == "May"@ {
        5
    } else if s == "Jun"@ {
        6
    } else if s == "Jul"@ {
        7
    } else if s == "Aug"@ {
        8
    } else if s == "Sep"@ {
        9
    } else if s == "Oct"@ {
        10
    } else if s == "Nov"@ {
        11
    } else if s == "Dec"@ {
        12
    } else {
        0
    }
}

fn month_of(s: &str) -> (r: u8)
    ensures
        r as int == spec_month_of(s@),
{
    if text::str_eq(s, "Jan") {
        1
    } else if text::str_eq(s, "Feb") {
        2
    } else if text::str_eq(s, "Mar") {
        3
    } else if text::str_eq(s, "Apr") {
        4
    } else if text::str_eq(s, "May") {
        5
    } else if text::str_eq(s, "Jun") {
        6
    } else if text::str_eq(s, "Jul") {
        7
    } else if text::str_eq(s, "Aug") {
        8
    } else if text::str_eq(s, "Sep") {
        9
    } else if text::str_eq(s, "Oct") {
        10
    } else if text::str_eq(s, "Nov") {
        11
    } else if text::str_eq(s, "Dec") {
        12
    } else {
        0
    }
}

fn digit_at(s: &str, i: usize) -> (r: i8)
    requires
        i < s@.len(),
    ensures
        r as int == text::digit_of(s@[i as int]),
{
    let c = s.get_char(i);
    if c == '0' {
        0
    } else if c == '1' {
        1
    } else if c == '2' {
        2
    } else if c == '3' {
        3
    } else if c == '4' {
        4
    } else if c == '5' {
        5
    } else if c == '6' {
        6
    } else if c == '7' {
        7
    } else if c == '8' {
        8
    } else if c == '9' {
        9
    } else {
        -1
    }
}

/// Parse the `DDMonYYYY` rendering of a date.
pub fn parse(s: &str) -> (r: Option<Date>)
    ensures
        r == spec_parse(s@),
{
    if s.unicode_len() != 9 {
        return None;
    }
    let d0 = digit_at(s, 0);
    let d1 = digit_at(s, 1);
    let y0 = digit_at(s, 5);
    let y1 = digit_at(s, 6);
    let y2 = digit_at(s, 7);
    let y3 = digit_at(s, 8);
    let month = month_of(s.substring_char(2, 5));
    if d0 < 0 || d1 < 0 || y0 < 0 || y1 < 0 || y2 < 0 || y3 < 0 || month < 1 {
        return None;
    }
    let day = (d0 as u8) * 10 + (d1 as u8);
    if day < 1 || day > 31 {
        return None;
    }
    let year = (y0 as u16) * 1000 + (y1 as u16) * 100 + (y2 as u16) * 10 + (y3 as u16);
    Some(Date { year, month, day })
}

/// The month abbreviations are three letters long and name their month
/// uniquely.
proof fn lemma_month_of_abbrev(m: int)
    requires
        1 <= m <= 12,
    ensures
        spec_month_of(month_abbrev(m)) == m,
        month_abbrev(m).len() == 3,
{
    reveal_strlit("Jan");
    reveal_strlit("Feb");
    reveal_strlit("Mar");
    reveal_strlit("Apr");
    reveal_strlit("May");
    reveal_strlit("Jun");
    reveal_strlit("Jul");
    reveal_strlit("Aug");
    reveal_strlit("Sep");
    reveal_strlit("Oct");
    reveal_strlit("Nov");
    reveal_strlit("Dec");
    if m == 1 {
        assert(spec_month_of(month_abbrev(1)) == 1);
    } else if m == 2 {
        assert(month_abbrev(2) != "Jan"@) by {
            assert(month_abbrev(2)[0] == 'F');
        }
    } else if m == 3 {
        assert(month_abbrev(3) != "Jan"@ && month_abbrev(3) != "Feb"@) by {
            assert(month_abbrev(3)[0] == 'M');
            assert(month_abbrev(3)[1] == 'a');
        }
    } else if m == 4 {
        assert(month_abbrev(4) != "Jan"@ && month_abbrev(4) != "Feb"@ && month_abbrev(4)
            != "Mar"@) by {
            assert(month_abbrev(4)[0] == 'A');
            assert(month_abbrev(4)[1] == 'p');
        }
    } else if m == 5 {
        assert(month_abbrev(5) != "Jan"@ && month_abbrev(5) != "Feb"@ && month_abbrev(5) != "Mar"@
            && month_abbrev(5) != "Apr"@) by {
            assert(month_abbrev(5)[0] == 'M');
            assert(month_abbrev(5)[1] == 'a');
            assert(month_abbrev(5)[2] == 'y');
        }
    } else if m == 6 {
        assert(month_abbrev(6) != "Jan"@ && month_abbrev(6) != "Feb"@ && month_abbrev(6) != "Mar"@
            && month_abbrev(6) != "Apr"@ && month_abbrev(6) != "May"@) by {
            assert(month_abbrev(6)[0] == 'J');
            assert(month_abbrev(6)[1] == 'u');
            assert(month_abbrev(6)[2] == 'n');
        }
    } else if m == 7 {
        assert(month_abbrev(7) != "Jan"@ && month_abbrev(7) != "Feb"@ && month_abbrev(7) != "Mar"@
            && month_abbrev(7) != "Apr"@ && month_abbrev(7) != "May"@ && month_abbrev(7)
            != "Jun"@) by {
            assert(month_abbrev(7)[1] == 'u');
            assert(month_abbrev(7)[2] == 'l');
        }
    } else if m == 8 {
        assert(month_abbrev(8) != "Jan"@ && month_abbrev(8) != "Feb"@ && month_abbrev(8) != "Mar"@
            && month_abbrev(8) != "Apr"@ && month_abbrev(8) != "May"@ && month_abbrev(8) != "Jun"@
            && month_abbrev(8) != "Jul"@) by {
            assert(month_abbrev(8)[0] == 'A');
            assert(month_abbrev(8)[1] == 'u');
        }
    } else if m == 9 {
        assert(month_abbrev(9) != "Jan"@ && month_abbrev(9) != "Feb"@ && month_abbrev(9) != "Mar"@
            && month_abbrev(9) != "Apr"@ && month_abbrev(9) != "May"@ && month_abbrev(9) != "Jun"@
            && month_abbrev(9) != "Jul"@ && month_abbrev(9) != "Aug"@) by {
            assert(month_abbrev(9)[0] == 'S');
        }
    } else if m == 10 {
        assert(month_abbrev(10) != "Jan"@ && month_abbrev(10) != "Feb"@ && month_abbrev(10)
            != "Mar"@ && month_abbrev(10) != "Apr"@ && month_abbrev(10) != "May"@ && month_abbrev(
        10) != "Jun"@ && month_abbrev(10) != "Jul"@ && month_abbrev(10) != "Aug"@ && month_abbrev(
        10) != "Sep"@) by {
            assert(month_abbrev(10)[0] == 'O');
        }
    } else if m == 11 {
        assert(month_abbrev(11) != "Jan"@ && month_abbrev(11) != "Feb"@ && month_abbrev(11)
            != "Mar"@ && month_abbrev(11) != "Apr"@ && month_abbrev(11) != "May"@ && month_abbrev(
        11) != "Jun"@ && month_abbrev(11) != "Jul"@ && month_abbrev(11) != "Aug"@ && month_abbrev(
        11) != "Sep"@ && month_abbrev(11) != "Oct"@) by {
            assert(month_abbrev(11)[0] == 'N');
        }
    } else {
        assert(month_abbrev(12) != "Jan"@ && month_abbrev(12) != "Feb"@ && month_abbrev(12)
            != "Mar"@ && month_abbrev(12) != "Apr"@ && month_abbrev(12) != "May"@ && month_abbrev(
        12) != "Jun"@ && month_abbrev(12) != "Jul"@ && month_abbrev(12) != "Aug"@ && month_abbrev(
        12) != "Sep"@ && month_abbrev(12) != "Oct"@ && month_abbrev(12) != "Nov"@) by {
            assert(month_abbrev(12)[0] == 'D');
        }
    }
}

/// A text that names a month is exactly that month's abbreviation.
proof fn lemma_abbrev_of_month(s: Seq<char>)
    requires
        spec_month_of(s) >= 1,
    ensures
        1 <= spec_month_of(s) <= 12,
        month_abbrev(spec_month_of(s)) == s,
{
}

/// Parsing a rendered date gives back exactly the date that was
/// rendered: the wire format loses nothing.
/// A digit value reads back from its digit character.
proof fn lemma_digit_round(k: int)
    requires
        0 <= k < 10,
    ensures
        text::digit_of(text::dec_digit(k)) == k,
{
}

#[verifier::rlimit(100)]
pub proof fn lemma_parse_format_round_trip(d: Date)
    requires
        d.wf(),
    ensures
        spec_parse(spec_format(d)) == Option::Some(d),
{
    let s = spec_format(d);
    lemma_month_of_abbrev(d.month as int);
    assert(s.len() == 9);
    assert(s.subrange(2, 5) =~= month_abbrev(d.month as int));
    let day = d.day as int;
    let year = d.year as int;
    assert(s[0] == text::dec_digit(day / 10) && s[1] == text::dec_digit(day % 10) && s[5]
        == text::dec_digit(year / 1000) && s[6] == text::dec_digit(year / 100 % 10) && s[7]
        == text::dec_digit(year / 10 % 10) && s[8] == text::dec_digit(year % 10));
    lemma_digit_round(day / 10);
    lemma_digit_round(day % 10);
    lemma_digit_round(year / 1000);
    lemma_digit_round(year / 100 % 10);
    lemma_digit_round(year / 10 % 10);
    lemma_digit_round(year % 10);
    assert((day / 10) * 10 + day % 10 == day);
    assert((year / 1000) * 1000 + (year / 100 % 10) * 100 + (year / 10 % 10) * 10 + year % 10
        == year);
    assert(text::digit_of(s[0]) * 10 + text::digit_of(s[1]) == day);
    assert(text::digit_of(s[5]) * 1000 + text::digit_of(s[6]) * 100 + text::digit_of(s[7]) * 10
        + text::digit_of(s[8]) == year);
}

/// A parsed date is well formed and renders back to the very text that
/// was parsed: only well-formed renderings parse.
#[verifier::rlimit(100)]
pub proof fn lemma_format_parse_round_trip(s: Seq<char>, d: Date)
    requires
        spec_parse(s) == Option::Some(d),
    ensures
        d.wf(),
        spec_format(d) == s,
{
    lemma_abbrev_of_month(s.subrange(2, 5));
    assert(d.wf());
    assert(d.day as int / 10 == text::digit_of(s[0]) && d.day as int % 10 == text::digit_of(s[1]));
    assert(s[0] == text::dec_digit(text::digit_of(s[0])));
    assert(s[1] == text::dec_digit(text::digit_of(s[1])));
    assert(month_abbrev(d.month as int) == s.subrange(2, 5));
    assert(d.year as int / 1000 == text::digit_of(s[5]));
    assert(d.year as int / 100 % 10 == text::digit_of(s[6]));
    assert(d.year as int / 10 % 10 == text::digit_of(s[7]));
    assert(d.year as int % 10 == text::digit_of(s[8]));
    assert(s[5] == text::dec_digit(text::digit_of(s[5])));
    assert(s[6] == text::dec_digit(text::digit_of(s[6])));
    assert(s[7] == text::dec_digit(text::digit_of(s[7])));
    assert(s[8] == text::dec_digit(text::digit_of(s[8])));
    assert(spec_format(d) =~= s);
}

} // verus!
