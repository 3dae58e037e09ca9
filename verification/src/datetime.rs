//! UTC instants at millisecond precision. On the wire an instant is carried
//! as RFC 3339 text truncated to milliseconds; the codec renders on the way
//! out and parses on the way in, so round trips hold at millisecond
//! resolution.

use vstd::prelude::*;

verus! {

/// The instant 0000-01-01T00:00:00.000Z, in milliseconds since the epoch:
/// the earliest instant the wire format's four-digit year can carry.
pub const TIMESTAMP_MILLIS_MIN: i64 = -62167219200000;

/// The instant 9999-12-31T23:59:59.999Z, in milliseconds since the epoch:
/// the latest instant the wire format's four-digit year can carry.
pub const TIMESTAMP_MILLIS_MAX: i64 = 253402300799999;

/// A UTC instant, counted in milliseconds since 1970-01-01T00:00:00Z.
#[derive(Debug, Clone, Copy, PartialEq, Eq, Structural)]
pub struct Timestamp {
    pub millis: i64,
}

impl Timestamp {
    /// Whether the instant fits the wire format's four-digit year range.
    pub open spec fn representable(self) -> bool {
        TIMESTAMP_MILLIS_MIN <= self.millis <= TIMESTAMP_MILLIS_MAX
    }

    pub fn from_millis(millis: i64) -> (r: Timestamp)
        ensures
            r == (Timestamp { millis }),
    {
        Timestamp { millis }
    }
}

impl DeepView for Timestamp {
    type V = Timestamp;

    open spec fn deep_view(&self) -> Timestamp {
        *self
    }
}

/// The RFC 3339 rendering of an instant: UTC, `Z` suffix, exactly three
/// fractional digits.
pub uninterp spec fn rfc3339_millis_of(millis: i64) -> Seq<char>;

/// What RFC 3339 parsing yields on a character sequence: the instant in
/// milliseconds since the epoch (offset applied, fractions beyond
/// milliseconds discarded), or nothing when the text is not a valid RFC 3339
/// instant.
pub uninterp spec fn rfc3339_parse_millis(s: Seq<char>) -> Option<i64>;

/// Relies on chrono: `DateTime::<Utc>::from_timestamp_millis` is defined on
/// the whole four-digit-year range, `to_rfc3339_opts(Millis, true)` renders
/// the instant with exactly three fractional digits and a `Z` suffix, and
/// `DateTime::parse_from_rfc3339` reads that text back to the same instant.
#[verifier::external_body]
pub(crate) fn format_rfc3339_millis(millis: i64) -> (r: String)
    requires
        TIMESTAMP_MILLIS_MIN <= millis <= TIMESTAMP_MILLIS_MAX,
    ensures
        r@ == rfc3339_millis_of(millis),
        rfc3339_parse_millis(r@) == Some(millis),
{
    let dt = chrono::DateTime::<chrono::Utc>::from_timestamp_millis(millis)
        .expect("instant within the four-digit-year range");
    dt.to_rfc3339_opts(chrono::SecondsFormat::Millis, true)
}

/// Relies on chrono: `DateTime::parse_from_rfc3339` accepts a valid RFC 3339
/// instant and rejects anything else, deterministically in the text alone;
/// `timestamp_millis` converts to milliseconds since the epoch.
#[verifier::external_body]
pub(crate) fn parse_rfc3339_millis(s: &str) -> (r: Option<i64>)
    ensures
        r == rfc3339_parse_millis(s@),
{
    match chrono::DateTime::parse_from_rfc3339(s) {
        Ok(dt) => Some(dt.timestamp_millis()),
        Err(_) => None,
    }
}

} // verus!
