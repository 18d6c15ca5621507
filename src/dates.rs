use vstd::prelude::*;

verus! {

/// Seconds in a day.
pub const DAY_SECONDS: i64 = 86400;

/// The Unix timestamp of midnight UTC of the date that `s` spells in the
/// strftime-style format `fmt`, if it spells one.
pub uninterp spec fn midnight_of_date(s: Seq<char>, fmt: Seq<char>) -> Option<int>;

/// The RFC 3339 text, at seconds precision and with `Z`, of the UTC instant
/// `ts` seconds after the Unix epoch, if that instant can be represented.
pub uninterp spec fn rfc3339_seconds_of(ts: int) -> Option<Seq<char>>;

/// Relies on `chrono::NaiveDate::parse_from_str`: the date that `s` spells in
/// `fmt`, taken at midnight UTC as a Unix timestamp; `None` where it spells none.
#[verifier::external_body]
pub(crate) fn parse_date_midnight(s: &str, fmt: &str) -> (r: Option<i64>)
    ensures
        match r {
            Some(t) => midnight_of_date(s@, fmt@) == Some(t as int),
            None => midnight_of_date(s@, fmt@) is None,
        },
{
    match chrono::NaiveDate::parse_from_str(s, fmt) {
        Ok(d) => Some(d.and_time(chrono::NaiveTime::MIN).and_utc().timestamp()),
        Err(_) => None,
    }
}

/// Relies on `chrono::DateTime::from_timestamp` and `to_rfc3339_opts` with
/// `SecondsFormat::Secs` and `use_z`: the text of the instant `ts`; `None`
/// where chrono cannot represent it.
#[verifier::external_body]
pub(crate) fn rfc3339_seconds(ts: i64) -> (r: Option<String>)
    ensures
        match r {
            Some(t) => rfc3339_seconds_of(ts as int) == Some(t@),
            None => rfc3339_seconds_of(ts as int) is None,
        },
{
    match chrono::DateTime::from_timestamp(ts, 0) {
        Some(d) => Some(d.to_rfc3339_opts(chrono::SecondsFormat::Secs, true)),
        None => None,
    }
}

} // verus!
