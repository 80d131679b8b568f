//! The span of time that a query for statistics asks about.

use vstd::prelude::*;
use crate::timing::{earlier_by, Duration, Timestamp, NANOS_PER_DAY};

verus! {

/// The nanoseconds since the Unix epoch of the point in time that `text` spells
/// in the format of RFC 3339, if it spells one.
pub uninterp spec fn rfc3339_unix_nanos(text: Seq<char>) -> Option<i128>;

/// `time::OffsetDateTime::parse` with the format `Rfc3339`, and
/// `unix_timestamp_nanos` on what it gives: the point in time that `text` spells,
/// or nothing where `text` is not in that format.
#[verifier::external_body]
fn parse_rfc3339(text: &str) -> (nanos: Option<i128>)
    ensures
        nanos == rfc3339_unix_nanos(text@),
{
    match time::OffsetDateTime::parse(text, &time::format_description::well_known::Rfc3339) {
        Ok(parsed) => Some(parsed.unix_timestamp_nanos()),
        Err(_) => None,
    }
}

/// The bounds that a query for statistics may give, as the texts sent.
#[derive(Debug)]
pub struct StatsQueryParams {
    from: Option<String>,
    to: Option<String>,
}

/// The span asked about where the bounds sent spell `from` and `to`, if they
/// spell any, and it is `now`: it ends at `to`, or now, and begins at `from`, or a
/// day before it ends.
pub open spec fn span_for(from: Option<i128>, to: Option<i128>, now: Timestamp) -> (
    Timestamp,
    Timestamp,
) {
    let end = match to {
        Some(nanos) => Timestamp { nanos },
        None => now,
    };
    let begin = match from {
        Some(nanos) => Timestamp { nanos },
        None => Timestamp { nanos: earlier_by(end@, NANOS_PER_DAY as nat) as i128 },
    };
    (begin, end)
}

/// The point in time that a bound spells, if one was sent and it spells any.
pub open spec fn spelled(bound: Option<String>) -> Option<i128> {
    match bound {
        Some(text) => rfc3339_unix_nanos(text@),
        None => None,
    }
}

/// The span asked about where the bounds sent spell `from` and `to`; see
/// [`span_for`].
pub fn resolve_span(from: Option<i128>, to: Option<i128>, now: Timestamp) -> (span: (
    Timestamp,
    Timestamp,
))
    ensures
        span == span_for(from, to, now),
{
    let end = match to {
        Some(nanos) => Timestamp::from_unix_nanos(nanos),
        None => now,
    };
    let begin = match from {
        Some(nanos) => Timestamp::from_unix_nanos(nanos),
        None => end.saturating_sub(Duration::from_nanos(NANOS_PER_DAY)),
    };
    (begin, end)
}

impl StatsQueryParams {
    /// The lower bound, as sent.
    pub closed spec fn spec_from(&self) -> Option<String> {
        self.from
    }

    /// The upper bound, as sent.
    pub closed spec fn spec_to(&self) -> Option<String> {
        self.to
    }

    /// The bounds of a query, as sent.
    pub fn new(from: Option<String>, to: Option<String>) -> (params: Self)
        ensures
            params.spec_from() == from,
            params.spec_to() == to,
    {
        StatsQueryParams { from, to }
    }

    /// The span of time that the query asks about at `now`: none where no bound was
    /// sent, else the span from the lower to the upper bound. A bound that was not
    /// sent, or that does not spell a point in time, is made up for: the upper by
    /// `now`, the lower by the day before the upper.
    pub fn span(&self, now: Timestamp) -> (span: Option<(Timestamp, Timestamp)>)
        ensures
            self.spec_from() is None && self.spec_to() is None ==> span is None,
            self.spec_from() is Some || self.spec_to() is Some ==> span == Some(
                span_for(spelled(self.spec_from()), spelled(self.spec_to()), now),
            ),
    {
        if self.from.is_none() && self.to.is_none() {
            return None;
        }
        let to: Option<i128> = match &self.to {
            Some(text) => parse_rfc3339(text.as_str()),
            None => None,
        };
        let from: Option<i128> = match &self.from {
            Some(text) => parse_rfc3339(text.as_str()),
            None => None,
        };
        Some(resolve_span(from, to, now))
    }
}

} // verus!
