//! What a live feed replays, and from where.

use vstd::prelude::*;

verus! {

/// The most records that are replayed when a feed is opened.
pub const REPLAY_LIMIT: i64 = 500;

/// The most records that are replayed when a feed has fallen behind.
pub const CATCH_UP_LIMIT: i64 = 1000;

/// What a client may send when it opens a live feed.
#[derive(Clone, Copy, Debug, PartialEq, Eq, Structural)]
pub struct WsQueryParams {
    /// The sequence number of the last record that the client has seen:
    /// everything after it is replayed.
    pub since: Option<i64>,
}

impl WsQueryParams {
    /// The sequence number after which records are replayed: the one sent, or 0.
    pub open spec fn spec_since_id(&self) -> i64 {
        match self.since {
            Some(seq) => seq,
            None => 0,
        }
    }

    /// The sequence number after which records are replayed: the one sent, or 0.
    #[verifier::when_used_as_spec(spec_since_id)]
    pub fn since_id(&self) -> (seq: i64)
        ensures
            seq == self.spec_since_id(),
    {
        match self.since {
            Some(seq) => seq,
            None => 0,
        }
    }
}

/// What came in from the channel that feeds all live feeds.
#[derive(Clone, Copy, Debug, PartialEq, Eq, Structural)]
pub enum Broadcast {
    /// An event; where it tells of a record, with that record's sequence number.
    Event { seq: Option<i64> },
    /// The feed has fallen behind and has missed events.
    Lagged,
    /// The channel was closed.
    Closed,
}

/// What a live feed does about what came in.
#[derive(Clone, Copy, Debug, PartialEq, Eq, Structural)]
pub enum FeedAction {
    /// Send the event on to the client.
    Forward,
    /// Replay from the database the records after `since`, at most `limit`.
    CatchUp { since: i64, limit: i64 },
    /// End the feed.
    Close,
}

/// The sequence number of the last record sent and what is to be done, after
/// `received` came in when the last record sent had the number `last_seq`.
pub open spec fn feed_step(last_seq: i64, received: Broadcast) -> (i64, FeedAction) {
    match received {
        Broadcast::Event { seq: Some(seq) } => (seq, FeedAction::Forward),
        Broadcast::Event { seq: None } => (last_seq, FeedAction::Forward),
        Broadcast::Lagged => (last_seq, FeedAction::CatchUp { since: last_seq, limit: CATCH_UP_LIMIT }),
        Broadcast::Closed => (last_seq, FeedAction::Close),
    }
}

/// Takes note of what came in from the channel and says what is to be done. An
/// event is sent on, and its record's number remembered. A feed that has fallen
/// behind replays what it missed from the database. A closed channel ends the
/// feed.
pub fn handle_broadcast(received: Broadcast, last_seq: &mut i64) -> (action: FeedAction)
    ensures
        (*final(last_seq), action) == feed_step(*old(last_seq), received),
{
    match received {
        Broadcast::Event { seq: Some(seq) } => {
            *last_seq = seq;
            FeedAction::Forward
        },
        Broadcast::Event { seq: None } => FeedAction::Forward,
        Broadcast::Lagged => FeedAction::CatchUp { since: *last_seq, limit: CATCH_UP_LIMIT },
        Broadcast::Closed => FeedAction::Close,
    }
}

} // verus!
