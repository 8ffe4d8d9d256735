//! Capture instants: a millisecond-resolution UTC timestamp.
//!
//! A [`Timestamp`] holds whole milliseconds since the Unix epoch, kept in a
//! range that every RFC 3339 date of at most four year digits can express.
//! The host clock and the RFC 3339 rendering come from the `chrono` crate,
//! behind trusted wrappers.

use vstd::prelude::*;

verus! {

/// The last representable instant: 9999-12-31T23:59:59.999Z.
pub const MAX_TIMESTAMP_MILLIS: i64 = 253_402_300_799_999;

/// An instant of capture: whole milliseconds since 1970-01-01T00:00:00Z,
/// between the epoch and [`MAX_TIMESTAMP_MILLIS`].
#[derive(Clone, Copy, Debug, PartialEq, Eq, Structural)]
pub struct Timestamp {
    millis: i64,
}

impl View for Timestamp {
    type V = int;

    closed spec fn view(&self) -> int {
        self.millis as int
    }
}

/// The nearest representable instant to `m` milliseconds since the epoch.
pub open spec fn clamp_millis(m: int) -> int {
    if m < 0 {
        0
    } else if m > MAX_TIMESTAMP_MILLIS as int {
        MAX_TIMESTAMP_MILLIS as int
    } else {
        m
    }
}

impl Timestamp {
    #[verifier::type_invariant]
    spec fn type_inv(self) -> bool {
        0 <= self.millis <= MAX_TIMESTAMP_MILLIS
    }

    /// The timestamp nearest to `m` milliseconds since the epoch: values
    /// before the epoch or past [`MAX_TIMESTAMP_MILLIS`] are clamped.
    pub fn from_millis(m: i64) -> (t: Timestamp)
        ensures
            t@ == clamp_millis(m as int),
    {
        let millis: i64 = if m < 0 {
            0
        } else if m > MAX_TIMESTAMP_MILLIS {
            MAX_TIMESTAMP_MILLIS
        } else {
            m
        };
        Timestamp { millis }
    }

    /// The current instant, read from the host clock. Whatever the clock
    /// returns, the result lies in the representable range.
    pub fn now() -> (t: Timestamp)
        ensures
            0 <= t@ <= MAX_TIMESTAMP_MILLIS as int,
    {
        Timestamp::from_millis(clock_now_millis())
    }

    /// Milliseconds since the epoch.
    pub fn millis(&self) -> (m: i64)
        ensures
            m as int == self@,
            0 <= m <= MAX_TIMESTAMP_MILLIS,
    {
        proof {
            use_type_invariant(self);
        }
        self.millis
    }
}

/// A character that an RFC 3339 UTC date-time of at most four year digits
/// can contain: a decimal digit, `-`, `:`, `T`, `.` or `Z`.
pub open spec fn rfc3339_char(c: char) -> bool {
    (48 <= c as u32 && c as u32 <= 57) || c == '-' || c == ':' || c == 'T' || c == '.' || c == 'Z'
}

/// The RFC 3339 UTC rendering, with millisecond precision and a `Z` suffix,
/// of an instant given as milliseconds since the epoch.
pub uninterp spec fn rfc3339_utc(millis: int) -> Seq<char>;

/// Relies on `chrono::Utc::now` for the host clock, and on
/// `DateTime::timestamp_millis` to read it as plain milliseconds. Nothing is
/// promised of the value: the clock may return any instant.
#[verifier::external_body]
fn clock_now_millis() -> i64 {
    chrono::Utc::now().timestamp_millis()
}

/// Relies on `chrono::DateTime::<Utc>::from_timestamp_millis`, which accepts
/// every instant a [`Timestamp`] can hold, and on `DateTime::to_rfc3339_opts`
/// with `SecondsFormat::Millis` and a `Z` suffix, which renders a year of at
/// most four digits as exactly 24 characters of the shape
/// `YYYY-MM-DDTHH:MM:SS.mmmZ`.
#[verifier::external_body]
pub fn format_rfc3339(t: &Timestamp) -> (r: String)
    ensures
        r@ == rfc3339_utc(t@),
        r@.len() == 24,
        forall|i: int| 0 <= i < r@.len() ==> rfc3339_char(#[trigger] r@[i]),
{
    let instant = chrono::DateTime::<chrono::Utc>::from_timestamp_millis(t.millis).unwrap();
    instant.to_rfc3339_opts(chrono::SecondsFormat::Millis, true)
}

} // verus!
