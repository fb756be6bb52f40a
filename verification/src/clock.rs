//! Points in time, as the service stamps them on its rows.
use vstd::prelude::*;

verus! {

/// An instant in UTC: whole seconds since the Unix epoch and the nanoseconds
/// past that second.
#[derive(Clone, Copy, Debug, PartialEq, Eq, Structural)]
pub struct Timestamp {
    pub secs: i64,
    pub nanos: u32,
}

impl Timestamp {
    /// Whether `self` lies strictly after `other`: seconds decide, nanoseconds
    /// break a tie.
    pub open spec fn after(self, other: Timestamp) -> bool {
        self.secs > other.secs || (self.secs == other.secs && self.nanos > other.nanos)
    }

    pub fn new(secs: i64, nanos: u32) -> (t: Timestamp)
        ensures
            t.secs == secs,
            t.nanos == nanos,
    {
        Timestamp { secs, nanos }
    }

    pub fn is_after(&self, other: &Timestamp) -> (r: bool)
        ensures
            r == self.after(*other),
    {
        self.secs > other.secs || (self.secs == other.secs && self.nanos > other.nanos)
    }
}

/// Reads the clock with `chrono::Utc::now` and splits the instant with
/// `DateTime::timestamp` and `DateTime::timestamp_subsec_nanos`. The result
/// depends on the machine's clock, so nothing is claimed of it. The call does
/// not return on a machine whose clock stands before 1970.
#[verifier::external_body]
pub(crate) fn now() -> (t: Timestamp) {
    let at = chrono::Utc::now();
    Timestamp { secs: at.timestamp(), nanos: at.timestamp_subsec_nanos() }
}

/// The text that shows the instant to a reader, such as
/// `May 15, 2015 at 00:00`; none for an instant outside the years that the
/// calendar covers, or with a nanosecond part that no instant has.
pub uninterp spec fn display_time(secs: i64, nanos: u32) -> Option<Seq<char>>;

/// Builds the instant with `chrono::DateTime::from_timestamp`, which gives
/// none for seconds out of range or an invalid nanosecond part, and formats it
/// with `DateTime::format` under the pattern `%b %d, %Y at %H:%M`. The
/// contract only names the text: it is a function of the two numbers alone.
#[verifier::external_body]
pub(crate) fn format_time(t: Timestamp) -> (r: Option<String>)
    ensures
        match r {
            Some(text) => display_time(t.secs, t.nanos) == Some(text@),
            None => display_time(t.secs, t.nanos) is None,
        },
{
    match chrono::DateTime::from_timestamp(t.secs, t.nanos) {
        Some(at) => Some(at.format("%b %d, %Y at %H:%M").to_string()),
        None => None,
    }
}

} // verus!
