//! Running totals over all clients, and the record that reports them.

use vstd::prelude::*;
use vstd::string::StringExecFns;
use crate::client::{bytes_of, time_of, Client};
use crate::tally::sum;
use crate::text::{append_decimal, append_padded3, decimal, decimal_padded3};
use crate::timing::{
    saturating_sum, Duration, NANOS_PER_DAY, NANOS_PER_HOUR, NANOS_PER_MILLISECOND,
    NANOS_PER_MINUTE, NANOS_PER_SECOND, NANOS_PER_WEEK,
};

verus! {

/// The totals that the statistics aggregator keeps.
#[derive(Clone, Copy, Debug, PartialEq, Eq, Structural)]
pub struct Statistics {
    /// Bytes written to all clients.
    pub bytes_sent: usize,
    /// Connections admitted.
    pub connects: u64,
    /// Clients that were let go after a write to them failed.
    pub lost_clients: u64,
    /// Lines written.
    pub processed_clients: u64,
    /// Delays that all clients have sat through.
    pub time_spent: Duration,
}

/// What is to be added to the totals. A part that does not apply is zero.
#[derive(Clone, Copy, Debug, PartialEq, Eq, Structural)]
pub struct StatisticsUpdate {
    /// Bytes written.
    pub bytes: usize,
    /// Delay that a client has sat through.
    pub delay: Duration,
    /// Lines written.
    pub processed: u64,
    /// Clients lost.
    pub lost: u64,
    /// Connections admitted.
    pub connects: u64,
}

/// What the statistics aggregator is sent.
#[derive(Clone, Copy, Debug, PartialEq, Eq, Structural)]
pub enum StatisticsMessage {
    /// Add this to the totals.
    Update(StatisticsUpdate),
    /// Report the totals.
    LogTotals,
}

/// The record that reports the totals.
#[derive(Debug)]
pub struct Totals {
    /// Connections admitted.
    pub connects: u64,
    /// Delays that all clients have sat through, written out; see [`time_text`].
    pub time_spent: String,
    /// Bytes written to all clients.
    pub bytes_sent: usize,
}

/// `nanos` written out as the record of totals shows it: the whole weeks, the
/// whole days, the whole hours, the whole minutes and the seconds that `nanos`
/// comes to, each counted from nothing, the seconds with three decimal places.
pub open spec fn time_text(nanos: nat) -> Seq<char> {
    decimal(nanos / NANOS_PER_WEEK as nat) + " week(s), "@
        + decimal(nanos / NANOS_PER_DAY as nat) + " day(s), "@
        + decimal(nanos / NANOS_PER_HOUR as nat) + " hour(s), "@
        + decimal(nanos / NANOS_PER_MINUTE as nat) + " minute(s), "@
        + decimal(nanos / NANOS_PER_SECOND as nat) + "."@
        + decimal_padded3((nanos % NANOS_PER_SECOND as nat) / NANOS_PER_MILLISECOND as nat)
        + " second(s)"@
}

/// The delays that `clients` have sat through, added up.
pub open spec fn clients_time_spent<S>(clients: Seq<Client<S>>) -> nat {
    sum(clients, time_of())
}

/// The bytes written to `clients`, added up.
pub open spec fn clients_bytes_sent<S>(clients: Seq<Client<S>>) -> nat {
    sum(clients, bytes_of())
}

impl StatisticsUpdate {
    /// The update that changes nothing.
    pub open spec fn spec_none() -> StatisticsUpdate {
        StatisticsUpdate { bytes: 0, delay: Duration { nanos: 0 }, processed: 0, lost: 0, connects: 0 }
    }

    /// The update for one line of `bytes` bytes written to a client that sat
    /// through `delay` for it.
    pub open spec fn spec_written(bytes: usize, delay: Duration) -> StatisticsUpdate {
        StatisticsUpdate { bytes, delay, processed: 1, lost: 0, connects: 0 }
    }

    /// The update for one client lost.
    pub open spec fn spec_lost() -> StatisticsUpdate {
        StatisticsUpdate { bytes: 0, delay: Duration { nanos: 0 }, processed: 0, lost: 1, connects: 0 }
    }

    /// The update for one connection admitted.
    pub open spec fn spec_connected() -> StatisticsUpdate {
        StatisticsUpdate { bytes: 0, delay: Duration { nanos: 0 }, processed: 0, lost: 0, connects: 1 }
    }

    /// The update that changes nothing.
    #[verifier::when_used_as_spec(spec_none)]
    pub fn none() -> (update: StatisticsUpdate)
        ensures
            update == Self::spec_none(),
    {
        StatisticsUpdate { bytes: 0, delay: Duration::zero(), processed: 0, lost: 0, connects: 0 }
    }

    /// The update for one line of `bytes` bytes written to a client that sat
    /// through `delay` for it.
    #[verifier::when_used_as_spec(spec_written)]
    pub fn written(bytes: usize, delay: Duration) -> (update: StatisticsUpdate)
        ensures
            update == Self::spec_written(bytes, delay),
    {
        StatisticsUpdate { bytes, delay, processed: 1, lost: 0, connects: 0 }
    }

    /// The update for one client lost.
    #[verifier::when_used_as_spec(spec_lost)]
    pub fn lost() -> (update: StatisticsUpdate)
        ensures
            update == Self::spec_lost(),
    {
        StatisticsUpdate { bytes: 0, delay: Duration::zero(), processed: 0, lost: 1, connects: 0 }
    }

    /// The update for one connection admitted.
    #[verifier::when_used_as_spec(spec_connected)]
    pub fn connected() -> (update: StatisticsUpdate)
        ensures
            update == Self::spec_connected(),
    {
        StatisticsUpdate { bytes: 0, delay: Duration::zero(), processed: 0, lost: 0, connects: 1 }
    }
}

impl Statistics {
    /// Totals of nothing.
    pub open spec fn spec_new() -> Statistics {
        Statistics {
            bytes_sent: 0,
            connects: 0,
            lost_clients: 0,
            processed_clients: 0,
            time_spent: Duration { nanos: 0 },
        }
    }

    /// The totals with `update` added. No total ever wraps: one that would grow
    /// past what its type can hold stays at that limit.
    pub open spec fn applied(self, update: StatisticsUpdate) -> Statistics {
        Statistics {
            bytes_sent: saturating_sum(
                self.bytes_sent as nat,
                update.bytes as nat,
                usize::MAX as nat,
            ) as usize,
            connects: saturating_sum(self.connects as nat, update.connects as nat, u64::MAX as nat) as u64,
            lost_clients: saturating_sum(
                self.lost_clients as nat,
                update.lost as nat,
                u64::MAX as nat,
            ) as u64,
            processed_clients: saturating_sum(
                self.processed_clients as nat,
                update.processed as nat,
                u64::MAX as nat,
            ) as u64,
            time_spent: Duration {
                nanos: saturating_sum(self.time_spent@, update.delay@, u128::MAX as nat) as u128,
            },
        }
    }

    /// The totals after `message`: an update is added, a request for the totals
    /// changes nothing.
    pub open spec fn after(self, message: StatisticsMessage) -> Statistics {
        match message {
            StatisticsMessage::Update(update) => self.applied(update),
            StatisticsMessage::LogTotals => self,
        }
    }

    /// The totals after all of `updates`, taken in order.
    pub open spec fn applied_all(self, updates: Seq<StatisticsUpdate>) -> Statistics
        decreases updates.len(),
    {
        if updates.len() == 0 {
            self
        } else {
            self.applied_all(updates.drop_last()).applied(updates.last())
        }
    }

    /// The delays that the record of totals reports when `clients` are still
    /// connected: theirs on top of the total, held at the longest span.
    pub open spec fn total_time_spent<S>(self, clients: Seq<Client<S>>) -> nat {
        saturating_sum(self.time_spent@, clients_time_spent(clients), u128::MAX as nat)
    }

    /// The bytes that the record of totals reports when `clients` are still
    /// connected: theirs on top of the total, held at the largest count.
    pub open spec fn total_bytes_sent<S>(self, clients: Seq<Client<S>>) -> nat {
        saturating_sum(self.bytes_sent as nat, clients_bytes_sent(clients), usize::MAX as nat)
    }

    /// Totals of nothing.
    #[verifier::when_used_as_spec(spec_new)]
    pub fn new() -> (statistics: Self)
        ensures
            statistics == Self::spec_new(),
    {
        Self {
            bytes_sent: 0,
            connects: 0,
            lost_clients: 0,
            processed_clients: 0,
            time_spent: Duration::zero(),
        }
    }

    /// Adds `update` to the totals.
    pub fn apply(&mut self, update: StatisticsUpdate)
        ensures
            *final(self) == old(self).applied(update),
    {
        self.bytes_sent = self.bytes_sent.saturating_add(update.bytes);
        self.connects = self.connects.saturating_add(update.connects);
        self.lost_clients = self.lost_clients.saturating_add(update.lost);
        self.processed_clients = self.processed_clients.saturating_add(update.processed);
        self.time_spent = self.time_spent.saturating_add(update.delay);
    }

    /// Takes in one message: adds an update to the totals, or reports the totals
    /// as they stand.
    pub fn handle(&mut self, message: StatisticsMessage) -> (report: Option<Totals>)
        ensures
            *final(self) == old(self).after(message),
            report is Some <==> message is LogTotals,
            report is Some ==> report->Some_0.connects == old(self).connects,
            report is Some ==> report->Some_0.bytes_sent == old(self).bytes_sent,
            report is Some ==> report->Some_0.time_spent@ == time_text(old(self).time_spent@),
    {
        match message {
            StatisticsMessage::Update(update) => {
                self.apply(update);
                None
            },
            StatisticsMessage::LogTotals => Some(
                Totals {
                    connects: self.connects,
                    time_spent: format_time(self.time_spent),
                    bytes_sent: self.bytes_sent,
                },
            ),
        }
    }

    /// The record of totals: the connections admitted, and the delays and bytes
    /// of the totals together with those of `clients`, which are still connected.
    pub fn log_totals<S>(&self, clients: &[Client<S>]) -> (totals: Totals)
        ensures
            totals.connects == self.connects,
            totals.bytes_sent == self.total_bytes_sent(clients@),
            totals.time_spent@ == time_text(self.total_time_spent(clients@)),
    {
        let mut time_spent: Duration = self.time_spent;
        let mut bytes_sent: usize = self.bytes_sent;
        let mut i: usize = 0;
        while i < clients.len()
            invariant
                i <= clients.len(),
                time_spent@ == self.total_time_spent(clients@.take(i as int)),
                bytes_sent == self.total_bytes_sent(clients@.take(i as int)),
            decreases clients.len() - i,
        {
            proof {
                assert(clients@.take(i + 1).drop_last() =~= clients@.take(i as int));
            }
            time_spent = time_spent.saturating_add(clients[i].time_spent());
            bytes_sent = bytes_sent.saturating_add(clients[i].bytes_sent());
            i = i + 1;
        }
        proof {
            assert(clients@.take(i as int) =~= clients@);
        }
        Totals { connects: self.connects, time_spent: format_time(time_spent), bytes_sent }
    }
}

/// Writes a span out for the record of totals.
pub fn format_time(span: Duration) -> (text: String)
    ensures
        text@ == time_text(span@),
{
    let mut text = String::new();
    append_decimal(&mut text, span.whole_weeks());
    text.append(" week(s), ");
    append_decimal(&mut text, span.whole_days());
    text.append(" day(s), ");
    append_decimal(&mut text, span.whole_hours());
    text.append(" hour(s), ");
    append_decimal(&mut text, span.whole_minutes());
    text.append(" minute(s), ");
    append_decimal(&mut text, span.whole_seconds());
    text.append(".");
    append_padded3(&mut text, span.subsec_milliseconds());
    text.append(" second(s)");
    text
}

/// The bytes that an update adds to the totals.
pub open spec fn bytes_added() -> spec_fn(StatisticsUpdate) -> nat {
    |update: StatisticsUpdate| update.bytes as nat
}

/// The total of bytes after updates were applied to totals of nothing is the sum
/// of the bytes of all the updates, held at the largest count.
pub proof fn lemma_total_bytes(updates: Seq<StatisticsUpdate>)
    ensures
        Statistics::spec_new().applied_all(updates).bytes_sent == saturating_sum(
            0,
            sum(updates, bytes_added()),
            usize::MAX as nat,
        ),
    decreases updates.len(),
{
    if updates.len() > 0 {
        lemma_total_bytes(updates.drop_last());
    }
}

/// Asking for the totals changes nothing, so asking twice in a row, with no
/// update in between, reports the same totals twice.
pub proof fn lemma_totals_repeat(statistics: Statistics)
    ensures
        statistics.after(StatisticsMessage::LogTotals) == statistics,
        statistics.after(StatisticsMessage::LogTotals).after(StatisticsMessage::LogTotals)
            == statistics,
{
}

} // verus!
