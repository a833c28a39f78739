use vstd::prelude::*;
use chrono::Datelike;
use crate::json::{decimal, digit_char};

verus! {

/// Whether `y` is a leap year of the proleptic Gregorian calendar.
pub open spec fn is_leap_year(y: int) -> bool {
    (y % 4 == 0 && y % 100 != 0) || y % 400 == 0
}

/// The number of days of month `m` of year `y`.
pub open spec fn days_in_month(y: int, m: int) -> int {
    if m == 2 {
        if is_leap_year(y) {
            29
        } else {
            28
        }
    } else if m == 4 || m == 6 || m == 9 || m == 11 {
        30
    } else {
        31
    }
}

/// Whether year, month and day name a day that the date library represents.
pub open spec fn valid_date(y: int, m: int, d: int) -> bool {
    &&& -262143 <= y <= 262142
    &&& 1 <= m <= 12
    &&& 1 <= d <= days_in_month(y, m)
}

/// `s` left-padded with zeros to at least `width` characters.
pub open spec fn zero_padded(s: Seq<char>, width: nat) -> Seq<char> {
    if s.len() >= width {
        s
    } else {
        Seq::new((width - s.len()) as nat, |i: int| '0') + s
    }
}

/// The year as `%Y` writes it: four digits at least, with a sign outside
/// the years 0 to 9999.
pub open spec fn year_text(y: int) -> Seq<char> {
    if 0 <= y <= 9999 {
        zero_padded(decimal(y as nat), 4)
    } else if y > 9999 {
        seq!['+'] + decimal(y as nat)
    } else {
        seq!['-'] + zero_padded(decimal((-y) as nat), 4)
    }
}

/// A date as `YYYY-MM-DD`.
pub open spec fn date_text(y: int, m: int, d: int) -> Seq<char> {
    year_text(y) + seq!['-'] + zero_padded(decimal(m as nat), 2) + seq!['-'] + zero_padded(
        decimal(d as nat),
        2,
    )
}

/// Relies on chrono's `NaiveDate::from_ymd_opt`, which gives `None` exactly
/// for a day that does not exist or a year out of its range.
#[verifier::external_body]
fn date_exists(year: i32, month: u32, day: u32) -> (r: bool)
    ensures
        r == valid_date(year as int, month as int, day as int),
{
    chrono::NaiveDate::from_ymd_opt(year, month, day).is_some()
}

/// Relies on chrono's `NaiveDate::format` with `%Y-%m-%d`: the year padded
/// to four digits (signed outside 0..=9999), month and day padded to two.
#[verifier::external_body]
fn date_format(year: i32, month: u32, day: u32) -> (r: String)
    requires
        valid_date(year as int, month as int, day as int),
    ensures
        r@ == date_text(year as int, month as int, day as int),
{
    chrono::NaiveDate::from_ymd_opt(year, month, day).unwrap().format("%Y-%m-%d").to_string()
}

/// Relies on chrono's `Utc::now` and `DateTime::date_naive`: today's UTC
/// date, a valid day no earlier than the Unix epoch (`Utc::now` panics on a
/// system clock set before it).
#[verifier::external_body]
fn utc_today() -> (r: (i32, u32, u32))
    ensures
        valid_date(r.0 as int, r.1 as int, r.2 as int),
        r.0 >= 1970,
{
    let d = chrono::Utc::now().date_naive();
    (d.year(), d.month(), d.day())
}

/// A day of the proleptic Gregorian calendar.
#[derive(Debug, Clone, Copy, PartialEq, Eq, Structural)]
pub struct CalendarDate {
    year: i32,
    month: u32,
    day: u32,
}

impl View for CalendarDate {
    type V = (int, int, int);

    closed spec fn view(&self) -> (int, int, int) {
        (self.year as int, self.month as int, self.day as int)
    }
}

impl CalendarDate {
    #[verifier::type_invariant]
    spec fn inv(&self) -> bool {
        valid_date(self.year as int, self.month as int, self.day as int)
    }

    /// The date of the given year, month and day, where that day exists.
    pub fn new(year: i32, month: u32, day: u32) -> (r: Option<CalendarDate>)
        ensures
            r is Some <==> valid_date(year as int, month as int, day as int),
            r matches Some(d) ==> d@ == (year as int, month as int, day as int),
    {
        if date_exists(year, month, day) {
            Some(CalendarDate { year, month, day })
        } else {
            None
        }
    }

    /// Today's date in UTC.
    pub fn today() -> (r: CalendarDate)
        ensures
            r@.0 >= 1970,
    {
        let (year, month, day) = utc_today();
        CalendarDate { year, month, day }
    }

    /// The year; negative years count back from 1 BCE as year 0.
    pub fn year(&self) -> (r: i32)
        ensures
            r == self@.0,
    {
        self.year
    }

    /// The month, from 1 to 12.
    pub fn month(&self) -> (r: u32)
        ensures
            r == self@.1,
    {
        self.month
    }

    /// The day of the month, from 1.
    pub fn day(&self) -> (r: u32)
        ensures
            r == self@.2,
    {
        self.day
    }

    /// The date as `YYYY-MM-DD`.
    pub fn iso_text(&self) -> (r: String)
        ensures
            r@ == date_text(self@.0, self@.1, self@.2),
    {
        proof {
            use_type_invariant(self);
        }
        date_format(self.year, self.month, self.day)
    }
}

/// An inclusive range of days.
#[derive(Debug, Clone, Copy)]
pub struct Timeframe {
    start: CalendarDate,
    end: CalendarDate,
}

/// The text of a time window: its two dates, space-separated.
pub open spec fn timeframe_text(start: (int, int, int), end: (int, int, int)) -> Seq<char> {
    date_text(start.0, start.1, start.2) + seq![' '] + date_text(end.0, end.1, end.2)
}

impl Timeframe {
    /// The first day of the window.
    pub closed spec fn start_spec(&self) -> (int, int, int) {
        self.start@
    }

    /// The last day of the window.
    pub closed spec fn end_spec(&self) -> (int, int, int) {
        self.end@
    }

    /// The window from `start` to `end`.
    pub fn new(start: CalendarDate, end: CalendarDate) -> (r: Timeframe)
        ensures
            r.start_spec() == start@,
            r.end_spec() == end@,
    {
        Timeframe { start, end }
    }

    /// The window from 2014-01-01 to `end`.
    pub fn default_until(end: CalendarDate) -> (r: Timeframe)
        ensures
            r.start_spec() == (2014int, 1int, 1int),
            r.end_spec() == end@,
    {
        let start = match CalendarDate::new(2014, 1, 1) {
            Some(d) => d,
            None => CalendarDate { year: 2014, month: 1, day: 1 },
        };
        Timeframe { start, end }
    }

    /// The window from 2014-01-01 to today (UTC).
    pub fn default() -> (r: Timeframe)
        ensures
            r.start_spec() == (2014int, 1int, 1int),
            r.end_spec().0 >= 1970,
    {
        Timeframe::default_until(CalendarDate::today())
    }

    /// The window as `"<start> <end>"`, each date as `YYYY-MM-DD`.
    pub fn formatted(&self) -> (r: String)
        ensures
            r@ == timeframe_text(self.start_spec(), self.end_spec()),
    {
        let s = self.start.iso_text();
        let e = self.end.iso_text();
        proof {
            reveal_strlit(" ");
        }
        let r = s.concat(" ").concat(e.as_str());
        assert(r@ =~= timeframe_text(self.start_spec(), self.end_spec()));
        r
    }
}

/// Whether `c` is a decimal digit.
pub open spec fn is_digit(c: char) -> bool {
    '0' <= c <= '9'
}

proof fn lemma_decimal_digits(n: nat)
    ensures
        decimal(n).len() >= 1,
        forall|i: int| 0 <= i < decimal(n).len() ==> is_digit(#[trigger] decimal(n)[i]),
        n < 10 ==> decimal(n).len() == 1,
        n < 100 ==> decimal(n).len() <= 2,
        n < 1000 ==> decimal(n).len() <= 3,
        n < 10000 ==> decimal(n).len() <= 4,
    decreases n,
{
    reveal_with_fuel(decimal, 2);
    if n >= 10 {
        lemma_decimal_digits(n / 10);
        let d = (n % 10) as int;
        assert(is_digit(digit_char(d as nat))) by {
            assert(0 <= d < 10);
        }
    } else {
        assert(is_digit(digit_char(n)));
    }
}

proof fn lemma_padded_digits(n: nat, width: nat)
    requires
        decimal(n).len() <= width,
    ensures
        zero_padded(decimal(n), width).len() == width,
        forall|i: int| 0 <= i < width ==> is_digit(#[trigger] zero_padded(decimal(n), width)[i]),
{
    lemma_decimal_digits(n);
    let s = decimal(n);
    if s.len() < width {
        let p = Seq::new((width - s.len()) as nat, |i: int| '0');
        assert forall|i: int| 0 <= i < width implies is_digit(
            #[trigger] zero_padded(decimal(n), width)[i],
        ) by {
            if i >= p.len() {
                assert((p + s)[i] == s[i - p.len()]);
            }
        }
    }
}

proof fn lemma_date_text_shape(y: int, m: int, d: int)
    requires
        valid_date(y, m, d),
        0 <= y <= 9999,
    ensures
        date_text(y, m, d).len() == 10,
        date_text(y, m, d)[4] == '-',
        date_text(y, m, d)[7] == '-',
        forall|i: int|
            0 <= i < 10 && i != 4 && i != 7 ==> is_digit(#[trigger] date_text(y, m, d)[i]),
{
    lemma_decimal_digits(y as nat);
    lemma_decimal_digits(m as nat);
    lemma_decimal_digits(d as nat);
    lemma_padded_digits(y as nat, 4);
    lemma_padded_digits(m as nat, 2);
    lemma_padded_digits(d as nat, 2);
    let ys = zero_padded(decimal(y as nat), 4);
    let ms = zero_padded(decimal(m as nat), 2);
    let ds = zero_padded(decimal(d as nat), 2);
    let t = date_text(y, m, d);
    assert(t =~= ys + seq!['-'] + ms + seq!['-'] + ds);
    assert forall|i: int| 0 <= i < 10 && i != 4 && i != 7 implies is_digit(#[trigger] t[i]) by {
        if i < 4 {
            assert(t[i] == ys[i]);
        } else if i < 7 {
            assert(t[i] == ms[i - 5]);
        } else {
            assert(t[i] == ds[i - 8]);
        }
    }
}

/// A window between two dates of four-digit years is written
/// `YYYY-MM-DD YYYY-MM-DD`: its start date, a space, then its end date, 21
/// characters with dashes at positions 4, 7, 15 and 18, the space at 10 and
/// digits everywhere else.
pub proof fn lemma_timeframe_text_shape(start: (int, int, int), end: (int, int, int))
    requires
        valid_date(start.0, start.1, start.2),
        valid_date(end.0, end.1, end.2),
        0 <= start.0 <= 9999,
        0 <= end.0 <= 9999,
    ensures
        timeframe_text(start, end).subrange(0, 10) == date_text(start.0, start.1, start.2),
        timeframe_text(start, end).subrange(11, 21) == date_text(end.0, end.1, end.2),
        timeframe_text(start, end).len() == 21,
        timeframe_text(start, end)[4] == '-',
        timeframe_text(start, end)[7] == '-',
        timeframe_text(start, end)[10] == ' ',
        timeframe_text(start, end)[15] == '-',
        timeframe_text(start, end)[18] == '-',
        forall|i: int|
            0 <= i < 21 && i != 4 && i != 7 && i != 10 && i != 15 && i != 18 ==> is_digit(
                #[trigger] timeframe_text(start, end)[i],
            ),
{
    let a = date_text(start.0, start.1, start.2);
    let b = date_text(end.0, end.1, end.2);
    lemma_date_text_shape(start.0, start.1, start.2);
    lemma_date_text_shape(end.0, end.1, end.2);
    let t = timeframe_text(start, end);
    assert(t.subrange(0, 10) =~= a);
    assert(t.subrange(11, 21) =~= b);
    assert(t[15] == b[4]);
    assert(t[18] == b[7]);
    assert forall|i: int|
        0 <= i < 21 && i != 4 && i != 7 && i != 10 && i != 15 && i != 18 implies is_digit(
        #[trigger] t[i],
    ) by {
        if i < 10 {
            assert(t[i] == a[i]);
        } else {
            assert(t[i] == b[i - 11]);
        }
    }
}

} // verus!
