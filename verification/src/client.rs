//! One admitted connection: its stream, its admission permit and its accounts.

use vstd::prelude::*;
use crate::events::{connected, disconnected, ClientEvent};
use crate::net::SocketAddress;
use crate::statistics::StatisticsUpdate;
use crate::timing::{Duration, Timestamp};

verus! {

/// `tokio::sync::OwnedSemaphorePermit`: one slot of the admission semaphore, given
/// back when the value is dropped. Nothing is said of what it holds.
#[verifier::external_type_specification]
#[verifier::external_body]
pub struct ExOwnedSemaphorePermit(tokio::sync::OwnedSemaphorePermit);

/// One admitted connection.
///
/// A client owns its stream and its admission permit. Both are let go of when the
/// client is dropped, and only then: no function hands either of them out.
#[derive(Debug)]
pub struct Client<S> {
    time_spent: Duration,
    send_next: Timestamp,
    connected_at: Timestamp,
    bytes_sent: usize,
    addr: SocketAddress,
    tcp_stream: S,
    permit: tokio::sync::OwnedSemaphorePermit,
}

/// What a [`Client`] holds.
pub struct ClientView<S> {
    /// The delays that the client has sat through, in nanoseconds.
    pub time_spent: nat,
    /// When the next line is due, in nanoseconds since the Unix epoch.
    pub send_next: int,
    /// When the client was admitted, in nanoseconds since the Unix epoch.
    pub connected_at: int,
    /// The bytes that were written to the client.
    pub bytes_sent: nat,
    /// The remote address.
    pub addr: SocketAddress,
    /// The stream to the client.
    pub tcp_stream: S,
    /// The admission permit.
    pub permit: tokio::sync::OwnedSemaphorePermit,
}

impl<S> View for Client<S> {
    type V = ClientView<S>;

    closed spec fn view(&self) -> ClientView<S> {
        ClientView {
            time_spent: self.time_spent@,
            send_next: self.send_next@,
            connected_at: self.connected_at@,
            bytes_sent: self.bytes_sent as nat,
            addr: self.addr,
            tcp_stream: self.tcp_stream,
            permit: self.permit,
        }
    }
}

/// What a client holds after a line of `bytes` bytes was written to it at `now`
/// and it is made to wait `delay` for the next.
pub open spec fn after_write<S>(client: ClientView<S>, bytes: nat, delay: nat, now: int) -> ClientView<S> {
    ClientView {
        time_spent: client.time_spent + delay,
        send_next: now + delay,
        bytes_sent: client.bytes_sent + bytes,
        ..client
    }
}

/// Whether the next line of a client is due no earlier than the client was
/// admitted.
pub open spec fn due_after_admission<S>(client: ClientView<S>) -> bool {
    client.send_next >= client.connected_at
}

/// A line that is written no earlier than the client was admitted leaves the next
/// line due no earlier than that.
pub proof fn lemma_write_keeps_order<S>(client: ClientView<S>, bytes: nat, delay: nat, now: int)
    requires
        now >= client.connected_at,
    ensures
        due_after_admission(after_write(client, bytes, delay, now)),
        after_write(client, bytes, delay, now).connected_at == client.connected_at,
        after_write(client, bytes, delay, now).addr == client.addr,
        after_write(client, bytes, delay, now).time_spent >= client.time_spent,
        after_write(client, bytes, delay, now).bytes_sent >= client.bytes_sent,
{
}

/// Whether a line of `bytes` bytes written at `now` can be put to the account of a
/// client that is made to wait `delay` for the next: whether what it then holds
/// can be represented.
pub open spec fn can_write<S>(client: ClientView<S>, bytes: nat, delay: nat, now: int) -> bool {
    &&& client.bytes_sent + bytes <= usize::MAX
    &&& client.time_spent + delay <= u128::MAX
    &&& now + delay <= i128::MAX
}

/// The bytes written to a client.
pub open spec fn bytes_of<S>() -> spec_fn(Client<S>) -> nat {
    |client: Client<S>| client@.bytes_sent
}

/// The delays that a client has sat through, in nanoseconds.
pub open spec fn time_of<S>() -> spec_fn(Client<S>) -> nat {
    |client: Client<S>| client@.time_spent
}

/// One for a client from `addr`, nothing for any other.
pub open spec fn held_from<S>(addr: SocketAddress) -> spec_fn(Client<S>) -> nat {
    |client: Client<S>|
        if client@.addr == addr {
            1nat
        } else {
            0nat
        }
}

/// Whether a client can hold `view`: whether its counts and its points in time
/// can be represented.
pub open spec fn representable<S>(view: ClientView<S>) -> bool {
    &&& view.time_spent <= u128::MAX
    &&& i128::MIN <= view.send_next <= i128::MAX
    &&& i128::MIN <= view.connected_at <= i128::MAX
    &&& view.bytes_sent <= usize::MAX
}

impl<S> Client<S> {
    /// The client that holds `view`. Meant for what a client can hold.
    pub closed spec fn from_view(view: ClientView<S>) -> Client<S> {
        Client {
            time_spent: Duration { nanos: view.time_spent as u128 },
            send_next: Timestamp { nanos: view.send_next as i128 },
            connected_at: Timestamp { nanos: view.connected_at as i128 },
            bytes_sent: view.bytes_sent as usize,
            addr: view.addr,
            tcp_stream: view.tcp_stream,
            permit: view.permit,
        }
    }

    /// What a client can hold, one client holds.
    pub proof fn lemma_from_view(view: ClientView<S>)
        requires
            representable(view),
        ensures
            Self::from_view(view)@ == view,
    {
    }

    /// A client is known by what it holds.
    pub proof fn lemma_known_by_view(self)
        ensures
            representable(self@),
            Self::from_view(self@) == self,
    {
    }

    /// A client that was admitted at `connected_at` and is due its first line at
    /// `start_sending_at`. Nothing was written to it yet.
    pub fn new(
        stream: S,
        addr: SocketAddress,
        connected_at: Timestamp,
        start_sending_at: Timestamp,
        permit: tokio::sync::OwnedSemaphorePermit,
    ) -> (client: Self)
        ensures
            client@ == (ClientView {
                time_spent: 0,
                send_next: start_sending_at@,
                connected_at: connected_at@,
                bytes_sent: 0,
                addr,
                tcp_stream: stream,
                permit,
            }),
    {
        Self {
            time_spent: Duration::zero(),
            send_next: start_sending_at,
            connected_at,
            addr,
            bytes_sent: 0,
            tcp_stream: stream,
            permit,
        }
    }

    /// The delays that the client has sat through.
    pub fn time_spent(&self) -> (d: Duration)
        ensures
            d@ == self@.time_spent,
    {
        self.time_spent
    }

    /// The delays that the client has sat through, to be changed in place.
    pub fn time_spent_mut(&mut self) -> (d: &mut Duration)
        ensures
            d@ == old(self)@.time_spent,
            final(self)@ == (ClientView { time_spent: final(d)@, ..old(self)@ }),
    {
        &mut self.time_spent
    }

    /// When the next line is due.
    pub fn send_next(&self) -> (t: Timestamp)
        ensures
            t@ == self@.send_next,
    {
        self.send_next
    }

    /// When the next line is due, to be changed in place.
    pub fn send_next_mut(&mut self) -> (t: &mut Timestamp)
        ensures
            t@ == old(self)@.send_next,
            final(self)@ == (ClientView { send_next: final(t)@, ..old(self)@ }),
    {
        &mut self.send_next
    }

    /// When the client was admitted.
    pub fn connected_at(&self) -> (t: Timestamp)
        ensures
            t@ == self@.connected_at,
    {
        self.connected_at
    }

    /// The bytes that were written to the client.
    pub fn bytes_sent(&self) -> (n: usize)
        ensures
            n == self@.bytes_sent,
    {
        self.bytes_sent
    }

    /// The bytes that were written to the client, to be changed in place.
    pub fn bytes_sent_mut(&mut self) -> (n: &mut usize)
        ensures
            *n == old(self)@.bytes_sent,
            final(self)@ == (ClientView { bytes_sent: *final(n) as nat, ..old(self)@ }),
    {
        &mut self.bytes_sent
    }

    /// The remote address.
    pub fn addr(&self) -> (addr: SocketAddress)
        ensures
            addr == self@.addr,
    {
        self.addr
    }

    /// The event that tells of this client's admission.
    pub fn connected_event(&self) -> (event: ClientEvent)
        ensures
            event == connected(self@.addr, self@.connected_at),
    {
        ClientEvent::Connected {
            ip: self.addr.ip(),
            addr: self.addr,
            connected_at: self.connected_at,
        }
    }

    /// Puts a line of `bytes` bytes, written at `now`, to the client's account, and
    /// makes the client wait `delay` for the next. Returns what is to be added to
    /// the totals for it.
    pub fn record_write(&mut self, bytes: usize, delay: Duration, now: Timestamp) -> (update:
        StatisticsUpdate)
        requires
            can_write(old(self)@, bytes as nat, delay@, now@),
        ensures
            final(self)@ == after_write(old(self)@, bytes as nat, delay@, now@),
            update == StatisticsUpdate::spec_written(bytes, delay),
    {
        self.bytes_sent = self.bytes_sent + bytes;
        self.time_spent = Duration::from_nanos(self.time_spent.as_nanos() + delay.as_nanos());
        self.send_next = now.checked_add(delay).unwrap();
        StatisticsUpdate::written(bytes, delay)
    }

    /// Lets go of the client at `disconnected_at`: closes its stream, gives back
    /// its admission permit, and returns the event that tells of it.
    pub fn disconnect(self, disconnected_at: Timestamp) -> (event: ClientEvent)
        ensures
            event == disconnected(
                self@.addr,
                self@.connected_at,
                disconnected_at@,
                self@.time_spent,
                self@.bytes_sent,
            ),
    {
        ClientEvent::Disconnected {
            addr: self.addr,
            connected_at: self.connected_at,
            disconnected_at,
            time_spent: self.time_spent,
            bytes_sent: self.bytes_sent,
        }
    }

    /// The stream to the client, to write to.
    pub fn tcp_stream_mut(&mut self) -> (stream: &mut S)
        ensures
            *stream == old(self)@.tcp_stream,
            final(self)@ == (ClientView { tcp_stream: *final(stream), ..old(self)@ }),
    {
        &mut self.tcp_stream
    }
}

} // verus!
