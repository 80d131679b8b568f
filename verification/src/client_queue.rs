//! The clients that wait for their next line, soonest first.

use vstd::prelude::*;
use vstd::multiset::Multiset;
use crate::client::{Client, ClientView};
use crate::timing::{wait_between, Duration, Timestamp};

verus! {

/// When `client` is due its next line, in nanoseconds since the Unix epoch.
pub open spec fn due<S>(client: Client<S>) -> int {
    client@.send_next
}

/// Whether none of `clients` is due before `client`.
pub open spec fn is_earliest<S>(client: Client<S>, clients: Multiset<Client<S>>) -> bool {
    forall|other: Client<S>| clients.contains(other) ==> due(client) <= #[trigger] due(other)
}

/// The place above `i` in the heap.
spec fn parent(i: int) -> int {
    (i - 1) / 2
}

/// Whether the item at `i` is not due before the item above it.
spec fn ordered_at<S>(items: Seq<Client<S>>, i: int) -> bool {
    due(items[parent(i)]) <= due(items[i])
}

/// Whether no item is due before the item above it.
spec fn heap_ordered<S>(items: Seq<Client<S>>) -> bool {
    forall|i: int| 0 < i < items.len() ==> #[trigger] ordered_at(items, i)
}

/// Heap order while the item at `pos` is on its way up: it alone may be due before
/// the item above it, and what is below it is in order with what is above it.
spec fn ordered_but_above<S>(items: Seq<Client<S>>, pos: int) -> bool {
    &&& forall|i: int| 0 < i < items.len() && i != pos ==> #[trigger] ordered_at(items, i)
    &&& forall|i: int|
        0 < i < items.len() && pos > 0 && parent(i) == pos ==> due(items[parent(pos)]) <= #[trigger] due(
            items[i],
        )
}

/// Heap order while the item at `pos` is on its way down: the items below it
/// alone may be due before it, and they are in order with what is above it.
spec fn ordered_but_below<S>(items: Seq<Client<S>>, pos: int) -> bool {
    &&& forall|i: int|
        0 < i < items.len() && parent(i) != pos ==> #[trigger] ordered_at(items, i)
    &&& forall|i: int|
        0 < i < items.len() && pos > 0 && parent(i) == pos ==> due(items[parent(pos)]) <= #[trigger] due(
            items[i],
        )
}

/// In a heap, nothing is due before the first item.
proof fn lemma_first_is_earliest<S>(items: Seq<Client<S>>, i: int)
    requires
        heap_ordered(items),
        0 <= i < items.len(),
    ensures
        due(items[0]) <= due(items[i]),
    decreases i,
{
    if i > 0 {
        assert(ordered_at(items, i));
        lemma_first_is_earliest(items, parent(i));
    }
}

/// Exchanging two items changes nothing about which items there are.
proof fn lemma_swap_keeps_items<T>(items: Seq<T>, i: int, j: int)
    requires
        0 <= i < items.len(),
        0 <= j < items.len(),
        i != j,
    ensures
        items.update(i, items[j]).update(j, items[i]).to_multiset() =~= items.to_multiset(),
{
    broadcast use vstd::seq_lib::group_to_multiset_ensures;

    let once = items.update(i, items[j]);
    vstd::seq_lib::to_multiset_update(items, i, items[j]);
    vstd::seq_lib::to_multiset_update(once, j, items[i]);
}

/// Exchanges two items of a vector.
fn swap_items<T>(items: &mut Vec<T>, i: usize, j: usize)
    requires
        i < j < old(items).len(),
    ensures
        final(items)@ == old(items)@.update(i as int, old(items)@[j as int]).update(
            j as int,
            old(items)@[i as int],
        ),
        final(items)@.to_multiset() == old(items)@.to_multiset(),
{
    let (left, right) = items.as_mut_slice().split_at_mut(j);
    let (_, rest) = left.split_at_mut(i);
    let a = rest.first_mut().unwrap();
    let b = right.first_mut().unwrap();
    core::mem::swap(a, b);
    proof {
        let before = old(items)@;
        assert(items@ =~= before.update(i as int, before[j as int]).update(j as int, before[i as int]));
        lemma_swap_keeps_items(before, i as int, j as int);
    }
}

/// Lets the item at `start` rise until the item above it is not due after it.
fn sift_up<S>(items: &mut Vec<Client<S>>, start: usize)
    requires
        start < old(items).len(),
        ordered_but_above(old(items)@, start as int),
    ensures
        heap_ordered(final(items)@),
        final(items)@.to_multiset() == old(items)@.to_multiset(),
        final(items).len() == old(items).len(),
{
    let mut pos: usize = start;
    while pos > 0
        invariant
            pos < items.len(),
            items.len() == old(items).len(),
            items@.to_multiset() == old(items)@.to_multiset(),
            ordered_but_above(items@, pos as int),
        ensures
            heap_ordered(items@),
            items@.to_multiset() == old(items)@.to_multiset(),
            items.len() == old(items).len(),
        decreases pos,
    {
        let above: usize = (pos - 1) / 2;
        if items[pos].send_next().is_before(items[above].send_next()) {
            let ghost before = items@;
            swap_items(items, above, pos);
            proof {
                let after = items@;
                assert forall|i: int| 0 < i < after.len() && i != above implies #[trigger] ordered_at(
                    after,
                    i,
                ) by {
                    if i == pos {
                    } else if parent(i) == above {
                        assert(ordered_at(before, i));
                    } else if parent(i) == pos {
                        assert(due(before[parent(pos as int)]) <= due(before[i]));
                    } else {
                        assert(ordered_at(before, i));
                    }
                }
                assert forall|i: int|
                    0 < i < after.len() && above > 0 && parent(i) == above implies due(
                    after[parent(above as int)],
                ) <= #[trigger] due(after[i]) by {
                    assert(ordered_at(before, above as int));
                    if i != pos {
                        assert(ordered_at(before, i));
                    }
                }
            }
            pos = above;
        } else {
            proof {
                assert forall|i: int| 0 < i < items.len() implies #[trigger] ordered_at(
                    items@,
                    i,
                ) by {
                    if i != pos {
                    }
                }
            }
            break ;
        }
    }
}

/// Lets the item at `start` sink until nothing below it is due before it.
fn sift_down<S>(items: &mut Vec<Client<S>>, start: usize)
    requires
        start < old(items).len(),
        ordered_but_below(old(items)@, start as int),
    ensures
        heap_ordered(final(items)@),
        final(items)@.to_multiset() == old(items)@.to_multiset(),
        final(items).len() == old(items).len(),
{
    let mut pos: usize = start;
    let len: usize = items.len();
    loop
        invariant
            pos < items.len(),
            len == items.len(),
            items.len() == old(items).len(),
            items@.to_multiset() == old(items)@.to_multiset(),
            ordered_but_below(items@, pos as int),
        ensures
            heap_ordered(items@),
            items@.to_multiset() == old(items)@.to_multiset(),
            items.len() == old(items).len(),
        decreases len - pos,
    {
        if pos >= len / 2 {
            // Nothing is below `pos`.
            proof {
                assert forall|i: int| 0 < i < items.len() implies #[trigger] ordered_at(
                    items@,
                    i,
                ) by {
                    assert(parent(i) != pos);
                }
            }
            break ;
        }
        let left: usize = 2 * pos + 1;
        let right: usize = left + 1;
        let mut least: usize = left;
        if right < len && items[right].send_next().is_before(items[left].send_next()) {
            least = right;
        }
        if items[least].send_next().is_before(items[pos].send_next()) {
            let ghost before = items@;
            swap_items(items, pos, least);
            proof {
                let after = items@;
                assert forall|i: int|
                    0 < i < after.len() && parent(i) != least implies #[trigger] ordered_at(
                    after,
                    i,
                ) by {
                    if i == least {
                    } else if parent(i) == pos {
                        assert(i == left || i == right);
                    } else if i == pos {
                        assert(due(before[parent(pos as int)]) <= due(before[least as int]));
                    } else {
                        assert(ordered_at(before, i));
                    }
                }
                assert forall|i: int|
                    0 < i < after.len() && least > 0 && parent(i) == least implies due(
                    after[parent(least as int)],
                ) <= #[trigger] due(after[i]) by {
                    assert(ordered_at(before, i));
                }
            }
            pos = least;
        } else {
            proof {
                assert forall|i: int| 0 < i < items.len() implies #[trigger] ordered_at(
                    items@,
                    i,
                ) by {
                    if parent(i) == pos {
                        assert(i == left || i == right);
                    }
                }
            }
            break ;
        }
    }
}

/// When the client of `clients` that is due first is due, if `due_first` is that
/// point in time.
pub open spec fn is_earliest_due<S>(clients: Multiset<Client<S>>, due_first: int) -> bool {
    &&& exists|client: Client<S>| #[trigger] clients.contains(client) && due(client) == due_first
    &&& forall|client: Client<S>| #[trigger] clients.contains(client) ==> due_first <= due(client)
}

/// When the client of `clients` that is due first is due. Meant for when there
/// is a client.
pub open spec fn earliest_due<S>(clients: Multiset<Client<S>>) -> int {
    choose|due_first: int| is_earliest_due(clients, due_first)
}

/// What the scheduler does next.
#[derive(Clone, Copy, Debug, PartialEq, Eq, Structural)]
pub enum SchedulerAction {
    /// No client is held: wait for one to arrive.
    Idle,
    /// No client is due yet: wait this long, or until a client arrives.
    Wait(Duration),
    /// A client is due: take it out and write a line to it.
    Process,
}

/// What the scheduler does at `now` when the client that is due first is due at
/// `due_first`.
pub open spec fn action_at(due_first: int, now: int) -> SchedulerAction {
    if due_first <= now {
        SchedulerAction::Process
    } else {
        SchedulerAction::Wait(Duration { nanos: wait_between(due_first, now) as u128 })
    }
}

/// Whether `after` is `before` with `stream` in the place of the stream of the
/// client that is due first, and nothing else changed.
pub open spec fn same_but_first_stream<S>(
    before: ClientQueue<S>,
    after: ClientQueue<S>,
    stream: S,
) -> bool {
    &&& before.items().len() > 0
    &&& after.spec_capacity() == before.spec_capacity()
    &&& after.items() == before.items().update(0, after.items()[0])
    &&& after.items()[0]@ == (ClientView { tcp_stream: stream, ..before.items()[0]@ })
}

/// The clients that the scheduler holds, with room for no more than were ever to
/// be admitted at a time. The client that is due first comes out first.
pub struct ClientQueue<S> {
    clients: Vec<Client<S>>,
    capacity: usize,
}

impl<S> View for ClientQueue<S> {
    type V = Multiset<Client<S>>;

    /// The clients held, in no order.
    closed spec fn view(&self) -> Multiset<Client<S>> {
        self.clients@.to_multiset()
    }
}

impl<S> ClientQueue<S> {
    /// Whether the queue is in order inside and holds no more clients than it has
    /// room for. Every function here keeps a queue so.
    pub closed spec fn wf(&self) -> bool {
        &&& heap_ordered(self.clients@)
        &&& self.clients.len() <= self.capacity
    }

    /// The number of clients that the queue has room for.
    pub closed spec fn spec_capacity(&self) -> usize {
        self.capacity
    }

    /// The clients held, in the order in which they are kept.
    pub closed spec fn items(&self) -> Seq<Client<S>> {
        self.clients@
    }

    /// A queue holds no more clients than it has room for.
    pub proof fn lemma_bounded(&self)
        requires
            self.wf(),
        ensures
            self@.len() <= self.spec_capacity(),
    {
        broadcast use vstd::seq_lib::group_to_multiset_ensures;

    }

    /// The clients that are kept in order are the clients held.
    pub proof fn lemma_items(&self)
        ensures
            self.items().to_multiset() == self@,
            self.items().len() == self@.len(),
    {
        broadcast use vstd::seq_lib::group_to_multiset_ensures;

    }

    /// Where a client is held, there is one point in time at which the first is
    /// due, and [`earliest_due`] is that.
    pub proof fn lemma_earliest_due(&self)
        requires
            self.wf(),
            self@.len() > 0,
        ensures
            is_earliest_due(self@, earliest_due(self@)),
            self@.contains(self.items()[0]),
            due(self.items()[0]) == earliest_due(self@),
    {
        broadcast use vstd::seq_lib::group_to_multiset_ensures;

        let items = self.clients@;
        let first = items[0];
        assert(items.contains(first));
        assert(self@.contains(first));
        assert forall|client: Client<S>| #[trigger] self@.contains(client) implies due(first)
            <= due(client) by {
            assert(items.contains(client));
            let i = choose|i: int| 0 <= i < items.len() && items[i] == client;
            lemma_first_is_earliest(items, i);
        }
        assert(is_earliest_due(self@, due(first)));
        let chosen = earliest_due(self@);
        assert(is_earliest_due(self@, chosen));
        let witness = choose|client: Client<S>| #[trigger]
            self@.contains(client) && due(client) == chosen;
        assert(due(first) <= due(witness));
        assert(chosen <= due(first));
    }

    /// An empty queue with room for `capacity` clients.
    pub fn new(capacity: usize) -> (queue: Self)
        ensures
            queue.wf(),
            queue@ == Multiset::<Client<S>>::empty(),
            queue.spec_capacity() == capacity,
    {
        broadcast use vstd::seq_lib::group_to_multiset_ensures;

        let queue = ClientQueue { clients: Vec::new(), capacity };
        assert(queue.clients@.to_multiset() =~= Multiset::<Client<S>>::empty());
        queue
    }

    /// The number of clients that the queue has room for.
    #[verifier::when_used_as_spec(spec_capacity)]
    pub fn capacity(&self) -> (capacity: usize)
        ensures
            capacity == self.spec_capacity(),
    {
        self.capacity
    }

    /// The number of clients held.
    pub fn len(&self) -> (len: usize)
        requires
            self.wf(),
        ensures
            len == self@.len(),
            len <= self.spec_capacity(),
    {
        broadcast use vstd::seq_lib::group_to_multiset_ensures;

        self.clients.len()
    }

    /// Whether no client is held.
    pub fn is_empty(&self) -> (empty: bool)
        ensures
            empty == (self@.len() == 0),
    {
        broadcast use vstd::seq_lib::group_to_multiset_ensures;

        self.clients.len() == 0
    }

    /// Whether there is room for one more client.
    pub fn has_room(&self) -> (room: bool)
        ensures
            room == (self@.len() < self.spec_capacity()),
    {
        broadcast use vstd::seq_lib::group_to_multiset_ensures;

        self.clients.len() < self.capacity
    }

    /// The clients held, in the order in which they are kept.
    pub fn as_slice(&self) -> (clients: &[Client<S>])
        ensures
            clients@ == self.items(),
    {
        self.clients.as_slice()
    }

    /// Takes in `client`, or hands it back where there is no room for it.
    pub fn push(&mut self, client: Client<S>) -> (result: Result<(), Client<S>>)
        requires
            old(self).wf(),
        ensures
            final(self).wf(),
            final(self).spec_capacity() == old(self).spec_capacity(),
            old(self)@.len() < old(self).spec_capacity() ==> result is Ok && final(self)@ == old(
                self,
            )@.insert(client),
            old(self)@.len() >= old(self).spec_capacity() ==> result == Err::<(), Client<S>>(client)
                && *final(self) == *old(self),
    {
        broadcast use vstd::seq_lib::group_to_multiset_ensures;

        if self.clients.len() >= self.capacity {
            return Err(client);
        }
        self.clients.push(client);
        let last: usize = self.clients.len() - 1;
        proof {
            let before = old(self).clients@;
            let now = self.clients@;
            assert(now =~= before.push(client));
            assert forall|i: int| 0 < i < now.len() && i != last implies #[trigger] ordered_at(
                now,
                i,
            ) by {
                assert(ordered_at(before, i));
            }
        }
        sift_up(&mut self.clients, last);
        Ok(())
    }

    /// The client that is due first, if any is held.
    pub fn peek(&self) -> (first: Option<&Client<S>>)
        requires
            self.wf(),
        ensures
            first is None <==> self@.len() == 0,
            first is Some ==> *first->Some_0 == self.items()[0],
            first is Some ==> self@.contains(*first->Some_0),
            first is Some ==> is_earliest(*first->Some_0, self@),
            first is Some ==> due(*first->Some_0) == earliest_due(self@),
    {
        broadcast use vstd::seq_lib::group_to_multiset_ensures;

        if self.clients.len() == 0 {
            None
        } else {
            proof {
                self.lemma_earliest_due();
            }
            Some(&self.clients[0])
        }
    }

    /// The stream of the client that is due first, to write to, if a client is
    /// held. Nothing else about the queue or that client changes.
    pub fn first_stream_mut(&mut self) -> (stream: Option<&mut S>)
        requires
            old(self).wf(),
        ensures
            stream is None <==> old(self)@.len() == 0,
            stream is None ==> *final(self) == *old(self),
            stream is Some ==> *stream->Some_0 == old(self).items()[0]@.tcp_stream,
            stream is Some ==> final(self).wf(),
            stream is Some ==> same_but_first_stream(
                *old(self),
                *final(self),
                *final(stream->Some_0),
            ),
    {
        broadcast use vstd::seq_lib::group_to_multiset_ensures;

        if self.clients.len() == 0 {
            None
        } else {
            proof {
                let before = self.clients@;
                assert forall|other: Client<S>| due(other) == due(before[0]) implies heap_ordered(
                    #[trigger] before.update(0, other),
                ) by {
                    let after = before.update(0, other);
                    assert forall|i: int| 0 < i < after.len() implies #[trigger] ordered_at(
                        after,
                        i,
                    ) by {
                        assert(ordered_at(before, i));
                    }
                }
            }
            Some(self.clients[0].tcp_stream_mut())
        }
    }

    /// What is to be done at `now`: nothing while no client is held, else to wait
    /// for the client that is due first, or to write to it if it is due.
    pub fn next_action(&self, now: Timestamp) -> (action: SchedulerAction)
        requires
            self.wf(),
        ensures
            self@.len() == 0 ==> action is Idle,
            self@.len() > 0 ==> action == action_at(earliest_due(self@), now@),
    {
        match self.peek() {
            None => SchedulerAction::Idle,
            Some(first) => {
                let due: Timestamp = first.send_next();
                if now.is_before(due) {
                    SchedulerAction::Wait(due.wait_from(now))
                } else {
                    SchedulerAction::Process
                }
            },
        }
    }

    /// Takes out the client that is due first, if any is held.
    pub fn pop(&mut self) -> (first: Option<Client<S>>)
        requires
            old(self).wf(),
        ensures
            final(self).wf(),
            final(self).spec_capacity() == old(self).spec_capacity(),
            first is None <==> old(self)@.len() == 0,
            first is None ==> *final(self) == *old(self),
            first is Some ==> first->Some_0 == old(self).items()[0],
            first is Some ==> old(self)@.contains(first->Some_0),
            first is Some ==> is_earliest(first->Some_0, old(self)@),
            first is Some ==> due(first->Some_0) == earliest_due(old(self)@),
            first is Some ==> final(self)@ == old(self)@.remove(first->Some_0),
    {
        broadcast use vstd::seq_lib::group_to_multiset_ensures;

        let len: usize = self.clients.len();
        if len == 0 {
            return None;
        }
        proof {
            self.lemma_earliest_due();
        }
        let ghost before = self.clients@;
        if len > 1 {
            swap_items(&mut self.clients, 0, len - 1);
        }
        let ghost swapped = self.clients@;
        let first = self.clients.pop().unwrap();
        proof {
            let rest = self.clients@;
            assert(first == before[0]);
            assert(rest =~= swapped.remove(len - 1));
            vstd::seq_lib::to_multiset_remove(swapped, len - 1);
            assert(rest.to_multiset() =~= before.to_multiset().remove(first));
        }
        if len > 1 {
            proof {
                let rest = self.clients@;
                assert forall|i: int|
                    0 < i < rest.len() && parent(i) != 0 implies #[trigger] ordered_at(
                    rest,
                    i,
                ) by {
                    assert(ordered_at(before, i));
                }
            }
            sift_down(&mut self.clients, 0);
        }
        Some(first)
    }

    /// Takes out all clients, in no particular order.
    pub fn drain(&mut self) -> (clients: Vec<Client<S>>)
        requires
            old(self).wf(),
        ensures
            final(self).wf(),
            final(self).spec_capacity() == old(self).spec_capacity(),
            final(self)@ == Multiset::<Client<S>>::empty(),
            clients@.to_multiset() == old(self)@,
    {
        broadcast use vstd::seq_lib::group_to_multiset_ensures;

        let mut clients: Vec<Client<S>> = Vec::new();
        core::mem::swap(&mut self.clients, &mut clients);
        assert(self.clients@.to_multiset() =~= Multiset::<Client<S>>::empty());
        clients
    }
}

} // verus!
