use crate::dates::{midnight_of_date, parse_date_midnight, DAY_SECONDS};
use crate::error::Error;
use vstd::prelude::*;
use vstd::string::*;

verus! {

/// The format in which dates are given on the command line.
pub const DATE_FORMAT: &'static str = "%Y-%m-%d";

/// The number of transactions asked for when no length is given.
pub const DEFAULT_LENGTH: i32 = 20;

/// The number of days a transaction window spans when no start is given.
pub const DEFAULT_WINDOW_DAYS: i64 = 30;

pub open spec fn is_digit(c: char) -> bool {
    '0' <= c <= '9'
}

pub open spec fn all_digits(s: Seq<char>) -> bool {
    forall|i: int| 0 <= i < s.len() ==> is_digit(#[trigger] s[i])
}

/// The value of a text of decimal digits.
pub open spec fn digits_value(s: Seq<char>) -> int
    decreases s.len(),
{
    if s.len() == 0 {
        0
    } else {
        digits_value(s.drop_last()) * 10 + (s.last() as int - '0' as int)
    }
}

/// The integer that `s` spells: an optional `+` or `-` followed by one or
/// more decimal digits, and nothing else.
pub open spec fn decimal_integer(s: Seq<char>) -> Option<int> {
    if s.len() > 0 && (s[0] == '+' || s[0] == '-') {
        let d = s.drop_first();
        if d.len() > 0 && all_digits(d) {
            Some(
                if s[0] == '-' {
                    -digits_value(d)
                } else {
                    digits_value(d)
                },
            )
        } else {
            None
        }
    } else if s.len() > 0 && all_digits(s) {
        Some(digits_value(s))
    } else {
        None
    }
}

/// The `i32` that `s` spells, if it spells one in range.
pub open spec fn i32_of(s: Seq<char>) -> Option<i32> {
    match decimal_integer(s) {
        Some(v) => if i32::MIN <= v <= i32::MAX {
            Some(v as i32)
        } else {
            None
        },
        None => None,
    }
}

/// Relies on `str::parse::<i32>`: an optional sign followed by decimal
/// digits, in range, is accepted; anything else is an error.
#[verifier::external_body]
fn parse_i32(s: &str) -> (r: Option<i32>)
    ensures
        r == i32_of(s@),
{
    s.parse::<i32>().ok()
}

/// The number of transactions to ask for: the default where none is given.
pub fn parse_length(arg: Option<&str>) -> (r: Result<i32, Error>)
    ensures
        arg is None ==> r == Ok::<i32, Error>(DEFAULT_LENGTH),
        arg matches Some(s) ==> match i32_of(s@) {
            Some(n) => r == Ok::<i32, Error>(n),
            None => r matches Err(Error::Parsable(_)),
        },
{
    match arg {
        None => Ok(DEFAULT_LENGTH),
        Some(s) => match parse_i32(s) {
            Some(n) => Ok(n),
            None => Err(
                Error::Parsable(
                    String::from_str("given value for length couldn't be parsed to integer"),
                ),
            ),
        },
    }
}

/// The last second of the window: the end of the day given, or `now`.
pub open spec fn window_end(to: Option<&str>, now: int) -> Option<int> {
    match to {
        None => Some(now),
        Some(s) => match midnight_of_date(s@, DATE_FORMAT@) {
            Some(t) => Some(t + DAY_SECONDS - 1),
            None => None,
        },
    }
}

/// The first second of the window: the start of the day given, or the
/// default span before `end`.
pub open spec fn window_start(from: Option<&str>, end: int) -> Option<int> {
    match from {
        None => Some(end - DEFAULT_WINDOW_DAYS * DAY_SECONDS),
        Some(s) => midnight_of_date(s@, DATE_FORMAT@),
    }
}

pub open spec fn fits_i64(v: int) -> bool {
    i64::MIN <= v <= i64::MAX
}

/// The window of a transaction query, from the optional `from` and `to`
/// dates and the current time, as Unix timestamps (start, end). A date that
/// does not parse, or a window that leaves the timestamp range, is a
/// validation error. The window is not checked to be in order here.
pub fn transaction_window(from: Option<&str>, to: Option<&str>, now: i64) -> (r: Result<
    (i64, i64),
    Error,
>)
    ensures
        match window_end(to, now as int) {
            Some(end) => match window_start(from, end) {
                Some(start) => if fits_i64(start) && fits_i64(end) {
                    r == Ok::<(i64, i64), Error>((start as i64, end as i64))
                } else {
                    r matches Err(Error::Validation(_))
                },
                None => r matches Err(Error::Validation(_)),
            },
            None => r matches Err(Error::Validation(_)),
        },
{
    let end: i64 = match to {
        None => now,
        Some(s) => match parse_date_midnight(s, DATE_FORMAT) {
            Some(t) => match t.checked_add(DAY_SECONDS - 1) {
                Some(e) => e,
                None => {
                    return Err(Error::Validation(String::from_str("date out of range")));
                },
            },
            None => {
                return Err(
                    Error::Validation(
                        String::from_str("Couldn't parse date on format `YYYY-MM-DD`"),
                    ),
                );
            },
        },
    };
    let start: i64 = match from {
        None => match end.checked_sub(DEFAULT_WINDOW_DAYS * DAY_SECONDS) {
            Some(b) => b,
            None => {
                return Err(Error::Validation(String::from_str("date out of range")));
            },
        },
        Some(s) => match parse_date_midnight(s, DATE_FORMAT) {
            Some(t) => t,
            None => {
                return Err(
                    Error::Validation(
                        String::from_str("Couldn't parse date on format `YYYY-MM-DD`"),
                    ),
                );
            },
        },
    };
    Ok((start, end))
}

} // verus!
