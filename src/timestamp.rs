//! Calendar timestamps with one-second resolution, and their rendering as
//! `YYYY-MM-DD_HH-MM-SS`.
use vstd::arithmetic::div_mod::lemma_mod_multiples_vanish;
use vstd::prelude::*;

verus! {

/// A local date and time of day, to the second.
#[derive(Clone, Copy, Debug, PartialEq, Eq, Structural)]
pub struct Timestamp {
    pub year: i32,
    pub month: u32,
    pub day: u32,
    pub hour: u32,
    pub minute: u32,
    pub second: u32,
}

/// Gregorian leap years: every fourth year, but not centuries unless they
/// are divisible by 400.
pub open spec fn is_leap_year(year: int) -> bool {
    year % 4 == 0 && (year % 100 != 0 || year % 400 == 0)
}

pub open spec fn days_in_month(year: int, month: int) -> int {
    if month == 2 {
        if is_leap_year(year) { 29 } else { 28 }
    } else if month == 4 || month == 6 || month == 9 || month == 11 {
        30
    } else {
        31
    }
}

/// The decimal digit `d` as a character.
pub open spec fn digit_char(d: nat) -> char {
    ((d % 10) + 48) as char
}

/// The last `width` decimal digits of `n`, most significant first, padded
/// with zeros.
pub open spec fn padded_digits(n: nat, width: nat) -> Seq<char>
    decreases width,
{
    if width == 0 {
        Seq::empty()
    } else {
        padded_digits(n / 10, (width - 1) as nat).push(digit_char(n % 10))
    }
}

impl Timestamp {
    /// A real calendar date with a four-digit year and a time of day without
    /// leap second.
    pub open spec fn wf(&self) -> bool {
        &&& 0 <= self.year <= 9999
        &&& 1 <= self.month <= 12
        &&& 1 <= self.day <= days_in_month(self.year as int, self.month as int)
        &&& self.hour < 24
        &&& self.minute < 60
        &&& self.second < 60
    }

    /// The timestamp as `YYYY-MM-DD_HH-MM-SS`, every field zero-padded.
    pub open spec fn spec_text(&self) -> Seq<char> {
        padded_digits(self.year as nat, 4) + seq!['-'] + padded_digits(self.month as nat, 2)
            + seq!['-'] + padded_digits(self.day as nat, 2) + seq!['_']
            + padded_digits(self.hour as nat, 2) + seq!['-'] + padded_digits(self.minute as nat, 2)
            + seq!['-'] + padded_digits(self.second as nat, 2)
    }

    /// The timestamp of the given fields, or `None` where they name no
    /// second of a four-digit year.
    pub fn new(year: i32, month: u32, day: u32, hour: u32, minute: u32, second: u32) -> (r:
        Option<Timestamp>)
        ensures
            r is Some <==> (Timestamp { year, month, day, hour, minute, second }).wf(),
            r is Some ==> r == Some(Timestamp { year, month, day, hour, minute, second }),
    {
        if year < 0 || year > 9999 || month < 1 || month > 12 || hour >= 24 || minute >= 60
            || second >= 60 {
            return None;
        }
        if day < 1 || day > month_length(year, month) {
            return None;
        }
        Some(Timestamp { year, month, day, hour, minute, second })
    }
}

/// The chrono pattern that renders a timestamp as `YYYY-MM-DD_HH-MM-SS`.
pub const STAMP_PATTERN: &'static str = "%Y-%m-%d_%H-%M-%S";

/// Relies on chrono's `NaiveDate::from_ymd_opt`, `NaiveDate::and_hms_opt` and
/// `NaiveDateTime::format` (with `to_string`): a valid date and time of day
/// builds a `NaiveDateTime`, and under the pattern `%Y-%m-%d_%H-%M-%S` the
/// year is zero-padded to 4 digits (no sign from 0 to 9999) and month, day,
/// hour, minute and second to 2, joined by the literal `-` and `_`.
#[verifier::external_body]
fn format_timestamp(t: &Timestamp, pattern: &str) -> (r: Option<String>)
    requires
        pattern@ == STAMP_PATTERN@,
    ensures
        t.wf() ==> r is Some && r->Some_0@ == t.spec_text(),
{
    let date = chrono::NaiveDate::from_ymd_opt(t.year, t.month, t.day)?;
    let moment = date.and_hms_opt(t.hour, t.minute, t.second)?;
    Some(moment.format(pattern).to_string())
}

impl Timestamp {
    /// The timestamp as `YYYY-MM-DD_HH-MM-SS`.
    pub fn text(&self) -> (r: String)
        requires
            self.wf(),
        ensures
            r@ == self.spec_text(),
    {
        match format_timestamp(self, STAMP_PATTERN) {
            Some(text) => text,
            None => String::new(),
        }
    }
}

/// Each character of `padded_digits(n, width)` is a decimal digit, and there
/// are `width` of them.
pub proof fn lemma_padded_digits(n: nat, width: nat)
    ensures
        padded_digits(n, width).len() == width,
        forall|i: int|
            0 <= i < width ==> exists|d: nat|
                d < 10 && #[trigger] padded_digits(n, width)[i] == digit_char(d),
    decreases width,
{
    if width > 0 {
        let w = (width - 1) as nat;
        lemma_padded_digits(n / 10, w);
        let s = padded_digits(n, width);
        assert forall|i: int| 0 <= i < width implies exists|d: nat|
            d < 10 && #[trigger] s[i] == digit_char(d) by {
            if i < w {
                assert(s[i] == padded_digits(n / 10, w)[i]);
            } else {
                assert(s[i] == digit_char(n % 10));
                assert(digit_char(n % 10) == digit_char((n % 10) as nat));
            }
        }
    }
}

/// A decimal digit is neither NUL nor an underscore.
pub proof fn lemma_digit_char(d: nat)
    requires
        d < 10,
    ensures
        digit_char(d) != '\0',
        digit_char(d) != '_',
{
}

/// Zero-padded digits hold no NUL.
pub proof fn lemma_padded_digits_no_nul(n: nat, width: nat)
    ensures
        !padded_digits(n, width).contains('\0'),
{
    lemma_padded_digits(n, width);
    let s = padded_digits(n, width);
    assert forall|i: int| 0 <= i < s.len() implies s[i] != '\0' by {
        let d = choose|d: nat| d < 10 && s[i] == digit_char(d);
        lemma_digit_char(d);
    }
}

/// A concatenation holds `x` only where one of its parts does.
pub proof fn lemma_concat_lacks<A>(a: Seq<A>, b: Seq<A>, x: A)
    requires
        !a.contains(x),
        !b.contains(x),
    ensures
        !(a + b).contains(x),
{
    assert forall|i: int| 0 <= i < (a + b).len() implies (a + b)[i] != x by {
        if i < a.len() {
            assert((a + b)[i] == a[i]);
        } else {
            assert((a + b)[i] == b[i - a.len()]);
        }
    }
}

impl Timestamp {
    /// The text of a timestamp has nineteen characters, starts with a digit
    /// and holds no NUL.
    pub proof fn lemma_text_shape(&self)
        ensures
            self.spec_text().len() == 19,
            exists|d: nat| d < 10 && self.spec_text()[0] == digit_char(d),
            !self.spec_text().contains('\0'),
    {
        let year = padded_digits(self.year as nat, 4);
        let month = padded_digits(self.month as nat, 2);
        let day = padded_digits(self.day as nat, 2);
        let hour = padded_digits(self.hour as nat, 2);
        let minute = padded_digits(self.minute as nat, 2);
        let second = padded_digits(self.second as nat, 2);
        lemma_padded_digits(self.year as nat, 4);
        lemma_padded_digits(self.month as nat, 2);
        lemma_padded_digits(self.day as nat, 2);
        lemma_padded_digits(self.hour as nat, 2);
        lemma_padded_digits(self.minute as nat, 2);
        lemma_padded_digits(self.second as nat, 2);
        lemma_padded_digits_no_nul(self.year as nat, 4);
        lemma_padded_digits_no_nul(self.month as nat, 2);
        lemma_padded_digits_no_nul(self.day as nat, 2);
        lemma_padded_digits_no_nul(self.hour as nat, 2);
        lemma_padded_digits_no_nul(self.minute as nat, 2);
        lemma_padded_digits_no_nul(self.second as nat, 2);
        let dash = seq!['-'];
        let under = seq!['_'];
        assert(!dash.contains('\0')) by {
            assert forall|i: int| 0 <= i < dash.len() implies dash[i] != '\0' by {}
        }
        assert(!under.contains('\0')) by {
            assert forall|i: int| 0 <= i < under.len() implies under[i] != '\0' by {}
        }
        let mut text = year;
        lemma_concat_lacks(text, dash, '\0');
        text = text + dash;
        lemma_concat_lacks(text, month, '\0');
        text = text + month;
        lemma_concat_lacks(text, dash, '\0');
        text = text + dash;
        lemma_concat_lacks(text, day, '\0');
        text = text + day;
        lemma_concat_lacks(text, under, '\0');
        text = text + under;
        lemma_concat_lacks(text, hour, '\0');
        text = text + hour;
        lemma_concat_lacks(text, dash, '\0');
        text = text + dash;
        lemma_concat_lacks(text, minute, '\0');
        text = text + minute;
        lemma_concat_lacks(text, dash, '\0');
        text = text + dash;
        lemma_concat_lacks(text, second, '\0');
        text = text + second;
        assert(text == self.spec_text());
        assert(self.spec_text()[0] == year[0]);
    }
}

/// Whether `year` is a Gregorian leap year.
pub fn leap_year(year: i32) -> (r: bool)
    ensures
        r == is_leap_year(year as int),
{
    // Shifting by a multiple of 400 years keeps divisibility by 4, 100 and
    // 400 and makes the year positive, where remainders agree with `%`.
    let shifted: i64 = year as i64 + 400 * 5368710;
    proof {
        lemma_mod_multiples_vanish(536871000int, year as int, 4int);
        lemma_mod_multiples_vanish(21474840int, year as int, 100int);
        lemma_mod_multiples_vanish(5368710int, year as int, 400int);
        assert(shifted as int == 4 * 536871000int + year as int);
        assert(shifted as int == 100 * 21474840int + year as int);
        assert(shifted as int == 400 * 5368710int + year as int);
    }
    shifted % 4 == 0 && (shifted % 100 != 0 || shifted % 400 == 0)
}

/// The number of days of `month` (1 to 12) in `year`.
pub fn month_length(year: i32, month: u32) -> (r: u32)
    requires
        1 <= month <= 12,
    ensures
        r == days_in_month(year as int, month as int),
{
    if month == 2 {
        if leap_year(year) {
            29
        } else {
            28
        }
    } else if month == 4 || month == 6 || month == 9 || month == 11 {
        30
    } else {
        31
    }
}

} // verus!
