use vstd::prelude::*;
use crate::error::TrendsError;

verus! {

/// Whether every character of `s` is a decimal digit.
pub open spec fn all_digits(s: Seq<char>) -> bool {
    forall|i: int| 0 <= i < s.len() ==> '0' <= #[trigger] s[i] <= '9'
}

/// The value of a string of decimal digits.
pub open spec fn digits_value(s: Seq<char>) -> int
    decreases s.len(),
{
    if s.len() == 0 {
        0
    } else {
        digits_value(s.drop_last()) * 10 + (s.last() as int - '0' as int)
    }
}

/// The integer that `s` writes in decimal, with an optional `+` or `-`
/// sign, if it is of that form.
pub open spec fn signed_decimal(s: Seq<char>) -> Option<int> {
    if s.len() > 1 && s[0] == '-' && all_digits(s.drop_first()) {
        Some(-digits_value(s.drop_first()))
    } else if s.len() > 1 && s[0] == '+' && all_digits(s.drop_first()) {
        Some(digits_value(s.drop_first()))
    } else if s.len() > 0 && all_digits(s) {
        Some(digits_value(s))
    } else {
        None
    }
}

/// The `i64` that `s` writes, where it writes one in range.
pub open spec fn i64_of(s: Seq<char>) -> Option<i64> {
    match signed_decimal(s) {
        Some(v) => if i64::MIN <= v <= i64::MAX {
            Some(v as i64)
        } else {
            None
        },
        None => None,
    }
}

/// Relies on `<i64 as FromStr>::from_str`: an optional sign followed by
/// decimal digits, whose value fits in an `i64`.
#[verifier::external_body]
fn parse_i64(s: &str) -> (r: Option<i64>)
    ensures
        r == i64_of(s@),
{
    s.parse::<i64>().ok()
}

/// One time-bucketed data point of a time-series report.
#[derive(Debug, Clone)]
pub struct TimeSeriesEntry {
    /// Start of the bucket, in seconds since the Unix epoch (UTC).
    pub time: i64,
    pub formatted_time: String,
    pub value: Vec<u8>,
    pub has_data: Vec<bool>,
}

impl TimeSeriesEntry {
    /// The entry whose time is written as epoch seconds in `time`; fails with
    /// `BadTimestamp` where `time` is not such a number.
    pub fn from_parts(
        time: &str,
        formatted_time: String,
        value: Vec<u8>,
        has_data: Vec<bool>,
    ) -> (r: Result<TimeSeriesEntry, TrendsError>)
        ensures
            r is Ok <==> i64_of(time@) is Some,
            r matches Ok(e) ==> i64_of(time@) == Some(e.time) && e.formatted_time == formatted_time
                && e.value == value && e.has_data == has_data,
            r matches Err(e) ==> (e matches TrendsError::BadTimestamp(t) && t@ == time@),
    {
        match parse_i64(time) {
            Some(secs) => Ok(TimeSeriesEntry { time: secs, formatted_time, value, has_data }),
            None => Err(TrendsError::BadTimestamp(time.to_owned())),
        }
    }
}

/// The entries of a time-series report, in time order.
#[derive(Debug, Clone)]
pub struct TimeSeriesData {
    pub entries: Vec<TimeSeriesEntry>,
}

} // verus!
