//! The scheduler: it holds the admitted clients, says when the next line is due,
//! and settles each write.
//!
//! Writing to a stream and waiting are left to the caller. The scheduler decides:
//! [`Scheduler::next_action`] says what to do at a point in time,
//! [`Scheduler::first_stream_mut`] hands out the stream to write to, and
//! [`Scheduler::process_client`] takes what became of the write.

use vstd::prelude::*;
use vstd::multiset::Multiset;
use crate::client::{after_write, bytes_of, can_write, held_from, Client, ClientView};
use crate::client_queue::{
    action_at, earliest_due, same_but_first_stream, ClientQueue, SchedulerAction,
};
use crate::events::{disconnected, ClientEvent};
use crate::net::SocketAddress;
use crate::statistics::{bytes_added, lemma_total_bytes, Statistics, StatisticsUpdate};
use crate::tally::{
    lemma_sum_inserted, lemma_sum_push, lemma_sum_removed, lemma_sum_update, sum,
};
use crate::timing::{saturating_sum, Duration, Timestamp};

verus! {

/// Milliseconds that one write to a client may take before it counts as failed,
/// so that no client holds up the others.
pub const WRITE_TIMEOUT_MILLISECONDS: u64 = 1000;

/// What became of a write to a client.
#[derive(Clone, Copy, Debug, PartialEq, Eq, Structural)]
pub enum WriteOutcome {
    /// The whole line was written: so many bytes.
    Written(usize),
    /// The write failed, came to the end of the stream, or took too long.
    Failed,
}

/// What the scheduler gives out when it has settled a write.
#[derive(Clone, Copy, Debug, PartialEq, Eq, Structural)]
pub struct Step {
    /// What is to be added to the totals.
    pub update: StatisticsUpdate,
    /// The event that tells of the client, where it was let go.
    pub event: Option<ClientEvent>,
}

/// All that a scheduler has taken in and given out since it was made.
pub struct Ledger {
    /// The address of each client taken in.
    pub taken_in: Seq<SocketAddress>,
    /// The bytes that had been written to the clients when they were taken in.
    pub brought: nat,
    /// The events given out.
    pub events: Seq<ClientEvent>,
    /// The updates given out.
    pub updates: Seq<StatisticsUpdate>,
}

/// One for `addr`, nothing for any other address.
pub open spec fn is_addr(addr: SocketAddress) -> spec_fn(SocketAddress) -> nat {
    |other: SocketAddress|
        if other == addr {
            1nat
        } else {
            0nat
        }
}

/// One for an event that tells of a client from `addr` let go, nothing for any
/// other event.
pub open spec fn tells_gone(addr: SocketAddress) -> spec_fn(ClientEvent) -> nat {
    |event: ClientEvent|
        if event is Disconnected && event.spec_addr() == addr {
            1nat
        } else {
            0nat
        }
}

/// The bytes that an event reports as written to a client let go.
pub open spec fn bytes_told() -> spec_fn(ClientEvent) -> nat {
    |event: ClientEvent|
        match event {
            ClientEvent::Disconnected { bytes_sent, .. } => bytes_sent as nat,
            ClientEvent::Connected { .. } => 0nat,
        }
}

/// The event that tells of `client` let go at `now`.
pub open spec fn leaving_event<S>(client: Client<S>, now: int) -> ClientEvent {
    disconnected(
        client@.addr,
        client@.connected_at,
        now,
        client@.time_spent,
        client@.bytes_sent,
    )
}

/// The events that tell of `clients` let go at `now`, one for each and in their
/// order.
pub open spec fn leaving_events<S>(clients: Seq<Client<S>>, now: int) -> Seq<ClientEvent> {
    Seq::new(clients.len(), |i: int| leaving_event(clients[i], now))
}

/// Whether `ledger` accounts for every client from `addr`: each one taken in is
/// either among the `held` or told of as let go, and none twice.
pub open spec fn accounts_for<S>(ledger: Ledger, held: Seq<Client<S>>, addr: SocketAddress) -> bool {
    sum(ledger.taken_in, is_addr(addr)) == sum(ledger.events, tells_gone(addr)) + sum(
        held,
        held_from(addr),
    )
}

/// Whether the bytes balance: what clients brought and what was added to the
/// totals since is what the `held` clients and those let go were sent.
pub open spec fn bytes_balance<S>(ledger: Ledger, held: Seq<Client<S>>) -> bool {
    ledger.brought + sum(ledger.updates, bytes_added()) == sum(held, bytes_of()) + sum(
        ledger.events,
        bytes_told(),
    )
}

/// Whether `ledger` is in keeping with the `held` clients.
pub open spec fn keeps_books<S>(ledger: Ledger, held: Seq<Client<S>>) -> bool {
    &&& forall|addr: SocketAddress| #[trigger] accounts_for(ledger, held, addr)
    &&& bytes_balance(ledger, held)
}

/// The scheduler.
pub struct Scheduler<S> {
    queue: ClientQueue<S>,
    delay: Duration,
    ledger: Ghost<Ledger>,
}

/// The books stay in keeping where a client comes in.
proof fn lemma_books_take_in<S>(
    ledger: Ledger,
    held: Seq<Client<S>>,
    after: Seq<Client<S>>,
    client: Client<S>,
)
    requires
        keeps_books(ledger, held),
        after.to_multiset() == held.to_multiset().insert(client),
    ensures
        keeps_books(
            Ledger {
                taken_in: ledger.taken_in.push(client@.addr),
                brought: ledger.brought + client@.bytes_sent,
                ..ledger
            },
            after,
        ),
{
    let next = Ledger {
        taken_in: ledger.taken_in.push(client@.addr),
        brought: ledger.brought + client@.bytes_sent,
        ..ledger
    };
    assert forall|addr: SocketAddress| #[trigger] accounts_for(next, after, addr) by {
        assert(accounts_for(ledger, held, addr));
        lemma_sum_push(ledger.taken_in, client@.addr, is_addr(addr));
        lemma_sum_inserted(held, after, client, held_from(addr));
    }
    lemma_sum_inserted(held, after, client, bytes_of());
}

/// The books stay in keeping where a line is put to a client's account.
proof fn lemma_books_write<S>(
    ledger: Ledger,
    held: Seq<Client<S>>,
    between: Seq<Client<S>>,
    after: Seq<Client<S>>,
    client: Client<S>,
    written: Client<S>,
    update: StatisticsUpdate,
)
    requires
        keeps_books(ledger, held),
        held.to_multiset().contains(client),
        between.to_multiset() == held.to_multiset().remove(client),
        after.to_multiset() == between.to_multiset().insert(written),
        written@.addr == client@.addr,
        written@.bytes_sent == client@.bytes_sent + update.bytes,
    ensures
        keeps_books(Ledger { updates: ledger.updates.push(update), ..ledger }, after),
{
    let next = Ledger { updates: ledger.updates.push(update), ..ledger };
    assert forall|addr: SocketAddress| #[trigger] accounts_for(next, after, addr) by {
        assert(accounts_for(ledger, held, addr));
        lemma_sum_removed(held, between, client, held_from(addr));
        lemma_sum_inserted(between, after, written, held_from(addr));
    }
    lemma_sum_removed(held, between, client, bytes_of());
    lemma_sum_inserted(between, after, written, bytes_of());
    lemma_sum_push(ledger.updates, update, bytes_added());
}

/// The books stay in keeping where a client is let go.
proof fn lemma_books_let_go<S>(
    ledger: Ledger,
    held: Seq<Client<S>>,
    after: Seq<Client<S>>,
    client: Client<S>,
    now: int,
)
    requires
        keeps_books(ledger, held),
        held.to_multiset().contains(client),
        after.to_multiset() == held.to_multiset().remove(client),
    ensures
        keeps_books(
            Ledger { events: ledger.events.push(leaving_event(client, now)), ..ledger },
            after,
        ),
{
    let event = leaving_event(client, now);
    let next = Ledger { events: ledger.events.push(event), ..ledger };
    client.lemma_known_by_view();
    assert forall|addr: SocketAddress| #[trigger] accounts_for(next, after, addr) by {
        assert(accounts_for(ledger, held, addr));
        lemma_sum_removed(held, after, client, held_from(addr));
        lemma_sum_push(ledger.events, event, tells_gone(addr));
    }
    lemma_sum_removed(held, after, client, bytes_of());
    lemma_sum_push(ledger.events, event, bytes_told());
}

/// The books stay in keeping where an update that adds no bytes is given out.
proof fn lemma_books_update<S>(ledger: Ledger, held: Seq<Client<S>>, update: StatisticsUpdate)
    requires
        keeps_books(ledger, held),
        update.bytes == 0,
    ensures
        keeps_books(Ledger { updates: ledger.updates.push(update), ..ledger }, held),
{
    let next = Ledger { updates: ledger.updates.push(update), ..ledger };
    assert forall|addr: SocketAddress| #[trigger] accounts_for(next, held, addr) by {
        assert(accounts_for(ledger, held, addr));
    }
    lemma_sum_push(ledger.updates, update, bytes_added());
}

/// The books stay in keeping where only a client's stream changes.
proof fn lemma_books_stream<S>(ledger: Ledger, before: ClientQueue<S>, after: ClientQueue<S>, stream: S)
    requires
        keeps_books(ledger, before.items()),
        same_but_first_stream(before, after, stream),
    ensures
        keeps_books(ledger, after.items()),
{
    let held = before.items();
    let first = after.items()[0];
    assert forall|addr: SocketAddress| #[trigger] accounts_for(ledger, after.items(), addr) by {
        assert(accounts_for(ledger, held, addr));
        lemma_sum_update(held, 0, first, held_from(addr));
    }
    lemma_sum_update(held, 0, first, bytes_of());
}

impl<S> Scheduler<S> {
    /// Whether the scheduler is in order: its queue is, and its ledger is in
    /// keeping with the clients held. Every function here keeps a scheduler so.
    pub closed spec fn wf(&self) -> bool {
        &&& self.queue.wf()
        &&& keeps_books(self.ledger@, self.queue.items())
    }

    /// The clients held, in no order.
    pub closed spec fn clients(&self) -> Multiset<Client<S>> {
        self.queue@
    }

    /// The clients held, in the order in which they are kept.
    pub closed spec fn items(&self) -> Seq<Client<S>> {
        self.queue.items()
    }

    /// The client that is due first. Meant for when a client is held.
    pub closed spec fn first(&self) -> Client<S> {
        self.queue.items()[0]
    }

    /// The number of clients that the scheduler has room for.
    pub closed spec fn max_clients(&self) -> usize {
        self.queue.spec_capacity()
    }

    /// The time that a client waits between two lines.
    pub closed spec fn spec_delay(&self) -> Duration {
        self.delay
    }

    /// All that the scheduler has taken in and given out.
    pub closed spec fn ledger(&self) -> Ledger {
        self.ledger@
    }

    /// A scheduler that holds no client, has room for `max_clients`, and makes each
    /// client wait `delay` between two lines.
    pub fn new(max_clients: usize, delay: Duration) -> (scheduler: Self)
        ensures
            scheduler.wf(),
            scheduler.clients() == Multiset::<Client<S>>::empty(),
            scheduler.max_clients() == max_clients,
            scheduler.spec_delay() == delay,
            scheduler.ledger() == (Ledger {
                taken_in: Seq::empty(),
                brought: 0,
                events: Seq::empty(),
                updates: Seq::empty(),
            }),
    {
        let queue = ClientQueue::new(max_clients);
        let ghost ledger = Ledger {
            taken_in: Seq::empty(),
            brought: 0,
            events: Seq::empty(),
            updates: Seq::empty(),
        };
        proof {
            queue.lemma_items();
            assert(queue.items().len() == 0);
            assert forall|addr: SocketAddress| #[trigger]
                accounts_for(ledger, queue.items(), addr) by {}
        }
        Scheduler { queue, delay, ledger: Ghost(ledger) }
    }

    /// The time that a client waits between two lines.
    #[verifier::when_used_as_spec(spec_delay)]
    pub fn delay(&self) -> (delay: Duration)
        ensures
            delay == self.spec_delay(),
    {
        self.delay
    }

    /// The number of clients held. It is never more than the scheduler has room
    /// for.
    pub fn len(&self) -> (len: usize)
        requires
            self.wf(),
        ensures
            len == self.clients().len(),
            len <= self.max_clients(),
    {
        self.queue.len()
    }

    /// Whether no client is held.
    pub fn is_empty(&self) -> (empty: bool)
        ensures
            empty == (self.clients().len() == 0),
    {
        self.queue.is_empty()
    }

    /// The clients held, in the order in which they are kept.
    pub fn as_slice(&self) -> (clients: &[Client<S>])
        ensures
            clients@ == self.items(),
    {
        self.queue.as_slice()
    }

    /// Takes in a client that was admitted, or hands it back where the scheduler
    /// holds as many clients as it has room for.
    pub fn enqueue(&mut self, client: Client<S>) -> (result: Result<(), Client<S>>)
        requires
            old(self).wf(),
        ensures
            final(self).wf(),
            final(self).max_clients() == old(self).max_clients(),
            final(self).spec_delay() == old(self).spec_delay(),
            old(self).clients().len() < old(self).max_clients() ==> result is Ok,
            old(self).clients().len() >= old(self).max_clients() ==> result == Err::<
                (),
                Client<S>,
            >(client),
            result is Ok ==> final(self).clients() == old(self).clients().insert(client),
            result is Ok ==> final(self).ledger() == (Ledger {
                taken_in: old(self).ledger().taken_in.push(client@.addr),
                brought: old(self).ledger().brought + client@.bytes_sent,
                ..old(self).ledger()
            }),
            result is Err ==> *final(self) == *old(self),
    {
        let ghost addr = client@.addr;
        let ghost bytes = client@.bytes_sent;
        let ghost held = self.queue.items();
        let result = self.queue.push(client);
        if result.is_ok() {
            proof {
                old(self).queue.lemma_items();
                self.queue.lemma_items();
                lemma_books_take_in(self.ledger@, held, self.queue.items(), client);
            }
            self.ledger = Ghost(
                Ledger {
                    taken_in: self.ledger@.taken_in.push(addr),
                    brought: self.ledger@.brought + bytes,
                    ..self.ledger@
                },
            );
        }
        result
    }

    /// What is to be done at `now`: nothing while no client is held, else to wait
    /// for the client that is due first, or to write to it if it is due.
    pub fn next_action(&self, now: Timestamp) -> (action: SchedulerAction)
        requires
            self.wf(),
        ensures
            self.clients().len() == 0 ==> action is Idle,
            self.clients().len() > 0 ==> action == action_at(self.first()@.send_next, now@),
            self.clients().len() > 0 ==> self.first()@.send_next == earliest_due(self.clients()),
    {
        proof {
            if self.queue@.len() > 0 {
                self.queue.lemma_earliest_due();
            }
        }
        self.queue.next_action(now)
    }

    /// The stream of the client that is due first, to write to, if a client is
    /// held. Nothing else changes.
    pub fn first_stream_mut(&mut self) -> (stream: Option<&mut S>)
        requires
            old(self).wf(),
        ensures
            stream is None <==> old(self).clients().len() == 0,
            stream is None ==> *final(self) == *old(self),
            stream is Some ==> *stream->Some_0 == old(self).first()@.tcp_stream,
            stream is Some ==> final(self).wf(),
            stream is Some ==> final(self).max_clients() == old(self).max_clients(),
            stream is Some ==> final(self).spec_delay() == old(self).spec_delay(),
            stream is Some ==> final(self).ledger() == old(self).ledger(),
            stream is Some ==> final(self).items() == old(self).items().update(
                0,
                final(self).first(),
            ),
            stream is Some ==> final(self).first()@ == (ClientView {
                tcp_stream: *final(stream->Some_0),
                ..old(self).first()@
            }),
    {
        proof {
            let ledger = self.ledger@;
            let before = self.queue;
            assert forall|after: ClientQueue<S>, stream: S| #[trigger]
                same_but_first_stream(before, after, stream) implies keeps_books(
                ledger,
                after.items(),
            ) by {
                lemma_books_stream(ledger, before, after, stream);
            }
        }
        self.queue.first_stream_mut()
    }

    /// Whether a line of `bytes` bytes written at `now` can be put to the account
    /// of the client that is due first: whether there is such a client and what it
    /// then holds can be represented.
    pub fn can_record(&self, bytes: usize, now: Timestamp) -> (can: bool)
        requires
            self.wf(),
        ensures
            can == (self.clients().len() > 0 && can_write(
                self.first()@,
                bytes as nat,
                self.spec_delay()@,
                now@,
            )),
    {
        match self.queue.peek() {
            None => false,
            Some(first) => {
                first.bytes_sent().checked_add(bytes).is_some() && first.time_spent().checked_add(
                    self.delay,
                ).is_some() && now.checked_add(self.delay).is_some()
            },
        }
    }

    /// Settles the write to the client that is due first, at `now`.
    ///
    /// Where the line was written, it is put to the client's account, the client is
    /// made to wait for the next, and the totals are owed the line. Where the write
    /// failed, the client is let go: its stream is closed, its admission permit is
    /// given back, an event tells of it, and the totals are owed a lost client.
    /// Where no client is held, nothing happens.
    pub fn process_client(&mut self, outcome: WriteOutcome, now: Timestamp) -> (step: Option<Step>)
        requires
            old(self).wf(),
            old(self).clients().len() > 0 && outcome is Written ==> can_write(
                old(self).first()@,
                outcome->Written_0 as nat,
                old(self).spec_delay()@,
                now@,
            ),
        ensures
            final(self).wf(),
            final(self).max_clients() == old(self).max_clients(),
            final(self).spec_delay() == old(self).spec_delay(),
            step is None <==> old(self).clients().len() == 0,
            step is None ==> *final(self) == *old(self),
            step is Some ==> step->Some_0 == step_for(
                old(self).first(),
                outcome,
                old(self).spec_delay(),
                now,
            ),
            step is Some ==> final(self).ledger() == ledger_after(
                old(self).ledger(),
                step->Some_0,
            ),
            step is Some && outcome is Written ==> final(self).clients() == old(
                self,
            ).clients().remove(old(self).first()).insert(
                Client::from_view(
                    after_write(
                        old(self).first()@,
                        outcome->Written_0 as nat,
                        old(self).spec_delay()@,
                        now@,
                    ),
                ),
            ),
            step is Some && outcome is Failed ==> final(self).clients() == old(
                self,
            ).clients().remove(old(self).first()),
            step is Some && outcome is Failed ==> final(self).clients().len() == old(
                self,
            ).clients().len() - 1,
    {
        let ghost held = self.queue.items();
        proof {
            self.queue.lemma_items();
            self.queue.lemma_bounded();
        }
        let popped = self.queue.pop();
        if popped.is_none() {
            return None;
        }
        let mut client = popped.unwrap();
        let ghost first = client;
        let ghost between = self.queue.items();
        proof {
            self.queue.lemma_items();
        }
        match outcome {
            WriteOutcome::Written(bytes) => {
                let update = client.record_write(bytes, self.delay, now);
                let ghost written = client;
                let pushed = self.queue.push(client);
                proof {
                    self.queue.lemma_items();
                    written.lemma_known_by_view();
                    lemma_books_write(
                        self.ledger@,
                        held,
                        between,
                        self.queue.items(),
                        first,
                        written,
                        update,
                    );
                }
                self.ledger = Ghost(
                    Ledger { updates: self.ledger@.updates.push(update), ..self.ledger@ },
                );
                Some(Step { update, event: None })
            },
            WriteOutcome::Failed => {
                let event = client.disconnect(now);
                let update = StatisticsUpdate::lost();
                proof {
                    lemma_books_let_go(self.ledger@, held, self.queue.items(), first, now@);
                    lemma_books_update(
                        Ledger {
                            events: self.ledger@.events.push(event),
                            ..self.ledger@
                        },
                        self.queue.items(),
                        update,
                    );
                }
                self.ledger = Ghost(
                    Ledger {
                        events: self.ledger@.events.push(event),
                        updates: self.ledger@.updates.push(update),
                        ..self.ledger@
                    },
                );
                Some(Step { update, event: Some(event) })
            },
        }
    }

    /// Lets go of every client held, at `now`: closes the streams, gives back the
    /// admission permits, and returns the events that tell of the clients, one for
    /// each.
    pub fn shutdown(&mut self, now: Timestamp) -> (events: Vec<ClientEvent>)
        requires
            old(self).wf(),
        ensures
            final(self).wf(),
            final(self).max_clients() == old(self).max_clients(),
            final(self).spec_delay() == old(self).spec_delay(),
            final(self).clients() == Multiset::<Client<S>>::empty(),
            events.len() == old(self).clients().len(),
            exists|gone: Seq<Client<S>>| #[trigger]
                gone.to_multiset() == old(self).clients() && events@ == leaving_events(
                    gone,
                    now@,
                ),
            final(self).ledger() == (Ledger {
                events: old(self).ledger().events + events@,
                ..old(self).ledger()
            }),
    {
        broadcast use vstd::seq_lib::group_to_multiset_ensures;

        let mut events: Vec<ClientEvent> = Vec::new();
        let ghost mut gone: Seq<Client<S>> = Seq::empty();
        proof {
            assert(gone.to_multiset() =~= Multiset::<Client<S>>::empty());
            assert(gone.to_multiset().add(self.clients()) =~= old(self).clients());
            assert(old(self).ledger().events + events@ =~= old(self).ledger().events);
            assert(events@ =~= leaving_events(gone, now@));
        }
        loop
            invariant
                self.wf(),
                self.max_clients() == old(self).max_clients(),
                self.spec_delay() == old(self).spec_delay(),
                gone.to_multiset().add(self.clients()) == old(self).clients(),
                events@ == leaving_events(gone, now@),
                self.ledger() == (Ledger {
                    events: old(self).ledger().events + events@,
                    ..old(self).ledger()
                }),
            ensures
                self.wf(),
                self.max_clients() == old(self).max_clients(),
                self.spec_delay() == old(self).spec_delay(),
                self.clients().len() == 0,
                gone.to_multiset().add(self.clients()) == old(self).clients(),
                events@ == leaving_events(gone, now@),
                self.ledger() == (Ledger {
                    events: old(self).ledger().events + events@,
                    ..old(self).ledger()
                }),
            decreases self.clients().len(),
        {
            let ghost held = self.queue.items();
            let ghost before = self.queue@;
            let ghost ledger = self.ledger@;
            proof {
                self.queue.lemma_items();
            }
            let popped = self.queue.pop();
            if popped.is_none() {
                break ;
            }
            let client = popped.unwrap();
            let ghost first = client;
            let event = client.disconnect(now);
            proof {
                self.queue.lemma_items();
                lemma_books_let_go(ledger, held, self.queue.items(), first, now@);
                vstd::seq_lib::to_multiset_build(gone, first);
                assert(before.contains(first));
                assert(self.queue@ == before.remove(first));
                assert(gone.to_multiset().insert(first).add(before.remove(first))
                    =~= gone.to_multiset().add(before));
                assert(leaving_events(gone.push(first), now@) =~= leaving_events(gone, now@).push(
                    event,
                ));
                assert(old(self).ledger().events + events@.push(event) =~= (old(
                    self,
                ).ledger().events + events@).push(event));
                gone = gone.push(first);
            }
            events.push(event);
            self.ledger = Ghost(Ledger { events: ledger.events.push(event), ..ledger });
        }
        proof {
            assert(self.clients() =~= Multiset::<Client<S>>::empty());
            assert(gone.to_multiset() =~= old(self).clients());
            assert(gone.len() == old(self).clients().len());
        }
        events
    }

    /// The clients that are kept in order are the clients held.
    pub proof fn lemma_items(&self)
        ensures
            self.items().to_multiset() == self.clients(),
            self.items().len() == self.clients().len(),
            self.clients().len() > 0 ==> self.first() == self.items()[0],
    {
        self.queue.lemma_items();
    }

    /// A scheduler never holds more clients than it has room for.
    pub proof fn lemma_bounded(&self)
        requires
            self.wf(),
        ensures
            self.clients().len() <= self.max_clients(),
    {
        self.queue.lemma_bounded();
    }

    /// Every client from `addr` that was taken in is either still held or was told
    /// of as let go, exactly once. So once no client is held, as many events tell
    /// of clients from `addr` let go as clients from `addr` were taken in.
    pub proof fn lemma_accounted(&self, addr: SocketAddress)
        requires
            self.wf(),
        ensures
            accounts_for(self.ledger(), self.items(), addr),
            self.clients().len() == 0 ==> sum(self.ledger().events, tells_gone(addr)) == sum(
                self.ledger().taken_in,
                is_addr(addr),
            ),
    {
        assert(accounts_for(self.ledger@, self.queue.items(), addr));
        self.queue.lemma_items();
    }

    /// What the clients brought and what was added to the totals since is what the
    /// clients held and those let go were sent, byte for byte.
    pub proof fn lemma_bytes_balance(&self)
        requires
            self.wf(),
        ensures
            bytes_balance(self.ledger(), self.items()),
            self.clients().len() == 0 ==> self.ledger().brought + sum(
                self.ledger().updates,
                bytes_added(),
            ) == sum(self.ledger().events, bytes_told()),
    {
        self.queue.lemma_items();
    }
}

/// Once a scheduler that took in only clients that nothing was written to yet
/// has let go of them all, the total of bytes that stands after all its updates
/// were applied is the sum of the bytes that the events report, client by
/// client, held at the largest count.
pub proof fn lemma_totals_match_clients<S>(scheduler: Scheduler<S>)
    requires
        scheduler.wf(),
        scheduler.clients().len() == 0,
        scheduler.ledger().brought == 0,
    ensures
        Statistics::spec_new().applied_all(scheduler.ledger().updates).bytes_sent
            == saturating_sum(
            0,
            sum(scheduler.ledger().events, bytes_told()),
            usize::MAX as nat,
        ),
{
    scheduler.lemma_bytes_balance();
    lemma_total_bytes(scheduler.ledger().updates);
}

/// A client that a line was written to at `written_at` is not due its next line
/// before it has waited out the delay: where the scheduler says at `now` that the
/// client is to be written to again, `now` is at least `delay` after `written_at`.
pub proof fn lemma_writes_spaced<S>(
    client: ClientView<S>,
    bytes: nat,
    delay: nat,
    written_at: int,
    now: int,
)
    requires
        action_at(after_write(client, bytes, delay, written_at).send_next, now) is Process,
    ensures
        now - written_at >= delay,
{
}

/// What the scheduler gives out when it settles at `now` a write to `client` that
/// came to `outcome`, where clients wait `delay` between two lines.
pub open spec fn step_for<S>(
    client: Client<S>,
    outcome: WriteOutcome,
    delay: Duration,
    now: Timestamp,
) -> Step {
    match outcome {
        WriteOutcome::Written(bytes) => Step {
            update: StatisticsUpdate::spec_written(bytes, delay),
            event: None,
        },
        WriteOutcome::Failed => Step {
            update: StatisticsUpdate::spec_lost(),
            event: Some(leaving_event(client, now@)),
        },
    }
}

/// The ledger after `step` was given out.
pub open spec fn ledger_after(ledger: Ledger, step: Step) -> Ledger {
    Ledger {
        events: match step.event {
            Some(event) => ledger.events.push(event),
            None => ledger.events,
        },
        updates: ledger.updates.push(step.update),
        ..ledger
    }
}

} // verus!
