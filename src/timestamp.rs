//! The freshness timestamp stamped on every successful reply.
use vstd::prelude::*;

verus! {

/// A UTC instant as seconds since the Unix epoch and the nanoseconds past
/// that second, as read from the metadata relation.
#[derive(Clone, Copy, Debug, PartialEq, Eq, Structural)]
pub struct Timestamp {
    pub secs: i64,
    pub nanos: u32,
}

/// The RFC 3339 rendering of the instant `secs`/`nanos`, or `None` where the
/// instant cannot be represented as a calendar date and time.
pub uninterp spec fn rfc3339_of(secs: int, nanos: int) -> Option<Seq<char>>;

/// Relies on chrono's `DateTime::<Utc>::from_timestamp`, which yields `None`
/// for an unrepresentable instant, and on its `to_rfc3339`, which renders the
/// instant with a `+00:00` offset; the text depends on the instant alone.
#[verifier::external_body]
fn format_rfc3339(secs: i64, nanos: u32) -> (r: Option<String>)
    ensures
        match r {
            Some(s) => rfc3339_of(secs as int, nanos as int) == Some(s@),
            None => rfc3339_of(secs as int, nanos as int) is None,
        },
{
    match chrono::DateTime::from_timestamp(secs, nanos) {
        Some(t) => Some(t.to_rfc3339()),
        None => None,
    }
}

impl Timestamp {
    /// The instant as an RFC 3339 string, `None` where it has no calendar form.
    pub fn to_rfc3339(&self) -> (r: Option<String>)
        ensures
            match r {
                Some(s) => self.rfc3339() == Some(s@),
                None => self.rfc3339() is None,
            },
    {
        format_rfc3339(self.secs, self.nanos)
    }

    /// The RFC 3339 form of this instant, if it has one.
    pub open spec fn rfc3339(&self) -> Option<Seq<char>> {
        rfc3339_of(self.secs as int, self.nanos as int)
    }
}

} // verus!
