//! Points in time, and their rendering as RFC 3339 text.

use vstd::prelude::*;

verus! {

/// A point in time on the UTC time line: whole seconds since
/// 1970-01-01T00:00:00Z, leap seconds not counted, and the nanoseconds that
/// have passed since that second began.
#[derive(Clone, Copy, Debug, Default, PartialEq, Eq, Structural)]
pub struct Timestamp {
    pub secs: i64,
    pub nanos: u32,
}

impl DeepView for Timestamp {
    type V = Timestamp;

    open spec fn deep_view(&self) -> Timestamp {
        *self
    }
}

/// The RFC 3339 text that chrono gives for the UTC date and time `secs` seconds
/// and `nanos` nanoseconds after the Unix epoch, or `None` where chrono has no
/// date and time for them.
pub uninterp spec fn rfc3339_text(secs: i64, nanos: u32) -> Option<Seq<char>>;

/// Calls `chrono::DateTime::from_timestamp` and, where that yields a date and
/// time, `chrono::DateTime::to_rfc3339` on it. Trusted: the outcome depends on
/// the two numbers alone, which is all the contract says; what the text looks
/// like is left to chrono.
#[verifier::external_body]
fn chrono_rfc3339(secs: i64, nanos: u32) -> (text: Option<String>)
    ensures
        text.deep_view() == rfc3339_text(secs, nanos),
{
    match chrono::DateTime::from_timestamp(secs, nanos) {
        Some(moment) => Some(moment.to_rfc3339()),
        None => None,
    }
}

impl Timestamp {
    /// The RFC 3339 text of this point in time, where it has one.
    pub open spec fn rfc3339(self) -> Option<Seq<char>> {
        rfc3339_text(self.secs, self.nanos)
    }

    /// Renders this point in time as RFC 3339 text, with offset `+00:00`.
    /// `None` where chrono has no date and time for the point: its seconds
    /// lie outside the years that chrono covers, or its nanoseconds are a
    /// second or more without marking a leap second.
    pub fn to_rfc3339(&self) -> (text: Option<String>)
        ensures
            text.deep_view() == self.rfc3339(),
    {
        chrono_rfc3339(self.secs, self.nanos)
    }
}

} // verus!
