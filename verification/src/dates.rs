//! Calendar facts the library needs from `chrono`, carried as plain integers:
//! a date is its day number counted from 1 January of year 1 (that day is 1).
use vstd::prelude::*;
use chrono::Datelike;

verus! {

/// A calendar date and the week it falls in.
#[derive(Debug, Clone, Copy, PartialEq, Eq, Structural)]
pub struct DayInfo {
    /// Days since the common era began (`Datelike::num_days_from_ce`).
    pub day: i32,
    /// The calendar year.
    pub year: i32,
    /// The ISO 8601 week-numbering year.
    pub iso_year: i32,
    /// The ISO 8601 week number.
    pub iso_week: u32,
}

/// What `NaiveDate::parse_from_str(s, "%Y-%m-%d")` yields, as a `DayInfo`.
pub uninterp spec fn spec_parse_ymd(s: Seq<char>) -> Option<DayInfo>;

/// Parses a `YYYY-MM-DD` date with `chrono::NaiveDate::parse_from_str(s, "%Y-%m-%d")`
/// and reads the parsed date's day number, year and ISO week. The result is named
/// by `spec_parse_ymd`; which strings chrono accepts is not stated here.
#[verifier::external_body]
pub(crate) fn parse_ymd(s: &str) -> (r: Option<DayInfo>)
    ensures
        r == spec_parse_ymd(s@),
{
    match chrono::NaiveDate::parse_from_str(s, "%Y-%m-%d") {
        Ok(d) => Some(
            DayInfo {
                day: d.num_days_from_ce(),
                year: d.year(),
                iso_year: d.iso_week().year(),
                iso_week: d.iso_week().week(),
            },
        ),
        Err(_) => None,
    }
}

/// Today's date in the local time zone (`chrono::Local::now().date_naive()`).
/// It depends on the clock and the time zone, so nothing is stated of it.
#[verifier::external_body]
pub(crate) fn today() -> (r: DayInfo) {
    let d = chrono::Local::now().date_naive();
    DayInfo {
        day: d.num_days_from_ce(),
        year: d.year(),
        iso_year: d.iso_week().year(),
        iso_week: d.iso_week().week(),
    }
}

/// An ASCII decimal digit.
pub open spec fn is_digit(c: char) -> bool {
    '0' <= c <= '9'
}

/// Only ASCII decimal digits.
pub open spec fn all_digits(s: Seq<char>) -> bool {
    forall|i: int| 0 <= i < s.len() ==> is_digit(#[trigger] s[i])
}

/// A year as chrono's `%Y` writes it: four digits for years 0 to 9999, otherwise a
/// sign followed by at least four digits.
pub open spec fn year_text(y: Seq<char>) -> bool {
    ||| y.len() == 4 && all_digits(y)
    ||| y.len() >= 5 && (y[0] == '+' || y[0] == '-') && all_digits(y.drop_first())
}

/// Characters `i` and `i + 1` of `s` are digits.
pub open spec fn two_digits(s: Seq<char>, i: int) -> bool {
    is_digit(s[i]) && is_digit(s[i + 1])
}

/// A date as `%Y-%m-%d` writes it: a year, then `-`, two digits, `-`, two digits.
pub open spec fn ymd_text(s: Seq<char>) -> bool {
    let n = s.len() as int;
    &&& n >= 10
    &&& year_text(s.take(n - 6))
    &&& s[n - 6] == '-'
    &&& two_digits(s, n - 5)
    &&& s[n - 3] == '-'
    &&& two_digits(s, n - 2)
}

/// A time as `%Y-%m-%dT%H:%M:%SZ` writes it: a date, `T`, two digits, `:`, two
/// digits, `:`, two digits and `Z`.
pub open spec fn utc_stamp_text(s: Seq<char>) -> bool {
    let n = s.len() as int;
    &&& n >= 20
    &&& ymd_text(s.take(n - 10))
    &&& s[n - 10] == 'T'
    &&& two_digits(s, n - 9)
    &&& s[n - 7] == ':'
    &&& two_digits(s, n - 6)
    &&& s[n - 4] == ':'
    &&& two_digits(s, n - 3)
    &&& s[n - 1] == 'Z'
}

/// A lowercase hexadecimal digit.
pub open spec fn is_lower_hex(c: char) -> bool {
    is_digit(c) || ('a' <= c <= 'f')
}

/// A random (version 4) UUID as `Uuid::to_string` writes it: 36 characters in
/// groups of 8, 4, 4, 4 and 12 lowercase hex digits joined by `-`, the version
/// digit `4` and the variant digit one of `8`, `9`, `a`, `b`.
pub open spec fn uuid_v4_text(s: Seq<char>) -> bool {
    &&& s.len() == 36
    &&& forall|i: int|
        0 <= i < 36 ==> if i == 8 || i == 13 || i == 18 || i == 23 {
            s[i] == '-'
        } else {
            is_lower_hex(#[trigger] s[i])
        }
    &&& s[14] == '4'
    &&& (s[19] == '8' || s[19] == '9' || s[19] == 'a' || s[19] == 'b')
}

/// Today's local date written `YYYY-MM-DD` (`Local::now().format("%Y-%m-%d")`).
/// Which date it is depends on the clock and is not stated; its shape is.
#[verifier::external_body]
pub(crate) fn today_ymd() -> (r: String)
    ensures
        ymd_text(r@),
{
    chrono::Local::now().format("%Y-%m-%d").to_string()
}

/// The current UTC time written `YYYY-MM-DDTHH:MM:SSZ`
/// (`Utc::now().format("%Y-%m-%dT%H:%M:%SZ")`). Which time it is depends on the
/// clock and is not stated; its shape is.
#[verifier::external_body]
pub(crate) fn now_timestamp() -> (r: String)
    ensures
        utc_stamp_text(r@),
{
    chrono::Utc::now().format("%Y-%m-%dT%H:%M:%SZ").to_string()
}

/// Whether `iso.parse::<chrono::DateTime<chrono::Utc>>()` succeeds: a function of
/// the text alone.
pub uninterp spec fn spec_parses_rfc3339(iso: Seq<char>) -> bool;

/// Whole seconds from the RFC 3339 time `iso` until now
/// (`(Utc::now() - iso.parse::<DateTime<Utc>>()?).num_seconds()`), or `None` when
/// `iso` does not parse. Whether it parses is named by `spec_parses_rfc3339`; the
/// number of seconds depends on the clock, so nothing is stated of it.
#[verifier::external_body]
pub(crate) fn seconds_since(iso: &str) -> (r: Option<i64>)
    ensures
        r is Some <==> spec_parses_rfc3339(iso@),
{
    match iso.parse::<chrono::DateTime<chrono::Utc>>() {
        Ok(dt) => Some((chrono::Utc::now() - dt).num_seconds()),
        Err(_) => None,
    }
}

/// A fresh random identifier (`uuid::Uuid::new_v4().to_string()`). Its digits
/// are random and not stated; its shape is.
#[verifier::external_body]
pub(crate) fn new_id() -> (r: String)
    ensures
        uuid_v4_text(r@),
{
    uuid::Uuid::new_v4().to_string()
}

} // verus!
