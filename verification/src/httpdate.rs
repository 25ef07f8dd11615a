//! Time in UTC seconds since the epoch, with conversions to and from the
//! RFC-2822 text form that HTTP date headers use. The rendering and the
//! parse are chrono's; each is named as a function of its argument alone.
use vstd::prelude::*;

use crate::error::Error;

verus! {

/// Time in UTC, with conversions to and from `u64` and RFC-2822 text.
#[derive(Clone, Copy, Debug, PartialEq, Eq, Structural, PartialOrd, Ord)]
pub struct HttpDate(pub u64);

/// The last timestamp RFC 2822 can render: the final second of year 9999.
pub const MAX_RFC2822_SECS: u64 = 253402300799;

/// The RFC-2822 rendering of a UTC timestamp, as chrono formats it.
pub uninterp spec fn rfc2822_of(secs: u64) -> Seq<char>;

/// The UTC timestamp an RFC-2822 string denotes, if chrono parses it.
pub uninterp spec fn rfc2822_timestamp_of(s: Seq<char>) -> Option<i64>;

/// Relies on chrono's DateTime::from_timestamp and to_rfc2822: formats a
/// UTC timestamp, a function of the timestamp alone. A year of more than
/// four digits cannot be rendered in RFC 2822 (chrono would panic), so
/// those timestamps are excluded.
#[verifier::external_body]
fn format_rfc2822(secs: u64) -> (r: String)
    requires
        secs <= MAX_RFC2822_SECS,
    ensures
        r@ == rfc2822_of(secs),
{
    chrono::DateTime::<chrono::Utc>::from_timestamp(secs as i64, 0).map(
        |dt| dt.to_rfc2822(),
    ).unwrap_or_default()
}

/// Relies on chrono's DateTime::parse_from_rfc2822 and timestamp: parses an
/// RFC-2822 date, a function of the string alone.
#[verifier::external_body]
fn parse_rfc2822(s: &str) -> (r: Option<i64>)
    ensures
        r == rfc2822_timestamp_of(s@),
{
    chrono::DateTime::parse_from_rfc2822(s).ok().map(|dt| dt.timestamp())
}

impl HttpDate {
    /// The timestamp: seconds since the epoch in UTC.
    pub fn timestamp(&self) -> (r: u64)
        ensures
            r == self.0,
    {
        self.0
    }

    /// The RFC-2822 rendering of this date. RFC 2822 has four-digit
    /// years, so the date may not lie beyond year 9999.
    pub fn rfc2822(&self) -> (r: String)
        requires
            self.0 <= MAX_RFC2822_SECS,
        ensures
            r@ == rfc2822_of(self.0),
    {
        format_rfc2822(self.0)
    }

    /// Parses an RFC-2822 date. A string chrono does not accept is
    /// rejected; a timestamp before the epoch wraps, as the unsigned
    /// conversion does.
    pub fn parse(s: &str) -> (r: Result<HttpDate, Error>)
        ensures
            match rfc2822_timestamp_of(s@) {
                Some(t) => r matches Ok(d) && d.0 == t as u64,
                None => r matches Err(e) && (e matches Error::Other(m) && m@
                    == "invalid rfc2822 date"@),
            },
    {
        match parse_rfc2822(s) {
            Some(t) => Ok(HttpDate(#[verifier::truncate] (t as u64))),
            None => Err(Error::Other("invalid rfc2822 date".to_owned())),
        }
    }
}

impl From<u64> for HttpDate {
    /// The date at the given seconds-since-epoch timestamp.
    fn from(utc_sec: u64) -> (r: HttpDate)
        ensures
            r == HttpDate(utc_sec),
    {
        HttpDate(utc_sec)
    }
}

impl vstd::std_specs::convert::FromSpecImpl<u64> for HttpDate {
    open spec fn obeys_from_spec() -> bool {
        true
    }

    open spec fn from_spec(utc_sec: u64) -> HttpDate {
        HttpDate(utc_sec)
    }
}

impl From<i64> for HttpDate {
    /// The date at the given seconds-since-epoch timestamp; a negative
    /// timestamp wraps, as the unsigned conversion does.
    fn from(utc_sec: i64) -> (r: HttpDate)
        ensures
            r == HttpDate(utc_sec as u64),
    {
        HttpDate(#[verifier::truncate] (utc_sec as u64))
    }
}

impl vstd::std_specs::convert::FromSpecImpl<i64> for HttpDate {
    open spec fn obeys_from_spec() -> bool {
        true
    }

    open spec fn from_spec(utc_sec: i64) -> HttpDate {
        HttpDate(utc_sec as u64)
    }
}

} // verus!
