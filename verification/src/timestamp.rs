//! The calendar instant derived from a snowflake identifier.
//!
//! A `Timestamp` is a millisecond offset since the Unix epoch. Calendar
//! rendering is delegated to an outside formatter; everything else is plain
//! arithmetic on the offset.

use vstd::prelude::*;

verus! {

/// The largest offset handed to the calendar formatter:
/// 9999-12-31T23:59:59.999 UTC in milliseconds since the Unix epoch.
pub const MAX_RFC3339_MILLIS: u64 = 253_402_300_799_999;

/// A millisecond offset since the Unix epoch.
#[derive(Clone, Copy, Debug, PartialEq, Eq, Structural)]
pub struct Timestamp {
    millis: u64,
}

impl View for Timestamp {
    type V = u64;

    closed spec fn view(&self) -> u64 {
        self.millis
    }
}

/// The RFC 3339 rendering, with millisecond precision and a `Z` suffix, of a
/// millisecond offset since the Unix epoch.
pub uninterp spec fn rfc3339_millis_of(ms: u64) -> Seq<char>;

/// Relies on chrono's `DateTime::<Utc>::from_timestamp_millis` (defined for
/// every offset below `MAX_RFC3339_MILLIS`) and `to_rfc3339_opts` with
/// `SecondsFormat::Millis` and a `Z` suffix: the rendering depends on the
/// millisecond offset alone.
#[verifier::external_body]
fn format_rfc3339_millis(ms: u64) -> (r: String)
    requires
        ms <= MAX_RFC3339_MILLIS,
    ensures
        r@ == rfc3339_millis_of(ms),
{
    let dt = chrono::DateTime::<chrono::Utc>::from_timestamp_millis(ms as i64).unwrap();
    dt.to_rfc3339_opts(chrono::SecondsFormat::Millis, true)
}

impl Timestamp {
    /// Wraps a millisecond offset since the Unix epoch.
    pub fn from_unix_millis(ms: u64) -> (t: Self)
        ensures
            t@ == ms,
    {
        Timestamp { millis: ms }
    }

    /// The offset in milliseconds since the Unix epoch.
    pub fn unix_millis(&self) -> (r: u64)
        ensures
            r == self@,
    {
        self.millis
    }

    /// The offset in whole seconds since the Unix epoch.
    pub fn unix_timestamp(&self) -> (r: u64)
        ensures
            r == self@ / 1000,
    {
        self.millis / 1000
    }

    /// The RFC 3339 rendering of this instant, to millisecond precision.
    pub fn to_display_string(&self) -> (r: String)
        requires
            self@ <= MAX_RFC3339_MILLIS,
        ensures
            r@ == rfc3339_millis_of(self@),
    {
        format_rfc3339_millis(self.millis)
    }
}

} // verus!
