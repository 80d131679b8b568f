//! The acceptor's part: what becomes of a connection that was accepted, and of
//! an attempt to accept one that failed.

use vstd::prelude::*;
use crate::client::{due_after_admission, Client, ClientView};
use crate::events::{connected, ClientEvent};
use crate::net::SocketAddress;
use crate::statistics::StatisticsUpdate;
use crate::timing::{Duration, Timestamp};

verus! {

/// `EINTR`: a signal came in while the call was under way.
pub const EINTR: i32 = 4;

/// `ENOMEM`: out of memory.
pub const ENOMEM: i32 = 12;

/// `ENFILE`: the whole system has too many open files.
pub const ENFILE: i32 = 23;

/// `EMFILE`: this process has too many open files.
pub const EMFILE: i32 = 24;

/// `EPROTO`: protocol error.
pub const EPROTO: i32 = 71;

/// `ECONNABORTED`: the connection was aborted while it was being accepted.
pub const ECONNABORTED: i32 = 103;

/// `ENOBUFS`: no buffer space.
pub const ENOBUFS: i32 = 105;

/// Milliseconds the acceptor lets pass before it tries again after it ran out of
/// files.
pub const BACKOFF_MILLISECONDS: u64 = 100;

/// How loudly a failed attempt is logged.
#[derive(Clone, Copy, Debug, PartialEq, Eq, Structural)]
pub enum Severity {
    /// For information.
    Info,
    /// As a warning.
    Warn,
    /// As an error.
    Error,
}

/// What the acceptor does about an attempt to accept a connection that failed.
/// Whatever the error, it gives its admission permit back and goes on: no such
/// error ends the acceptor.
#[derive(Clone, Copy, Debug, PartialEq, Eq, Structural)]
pub struct AcceptFailure {
    /// How loudly the error is logged.
    pub severity: Severity,
    /// Whether the acceptor lets some time pass before it tries again.
    pub back_off: bool,
}

/// Whether `code` says that the process or the system ran out of files.
pub open spec fn is_out_of_files(code: i32) -> bool {
    code == EMFILE || code == ENFILE
}

/// Whether `code` is an error that passes by itself.
pub open spec fn is_transient(code: i32) -> bool {
    code == ECONNABORTED || code == EINTR || code == ENOBUFS || code == ENOMEM || code == EPROTO
}

/// What the acceptor does about a failed attempt with the operating system's
/// error code `raw_os_error`, if it has one.
pub open spec fn failure_for(raw_os_error: Option<i32>) -> AcceptFailure {
    match raw_os_error {
        Some(code) => if is_out_of_files(code) {
            AcceptFailure { severity: Severity::Warn, back_off: true }
        } else if is_transient(code) {
            AcceptFailure { severity: Severity::Info, back_off: false }
        } else {
            AcceptFailure { severity: Severity::Error, back_off: false }
        },
        None => AcceptFailure { severity: Severity::Error, back_off: false },
    }
}

/// What the acceptor does about a failed attempt with the operating system's
/// error code `raw_os_error`, if it has one.
pub fn classify_accept_error(raw_os_error: Option<i32>) -> (failure: AcceptFailure)
    ensures
        failure == failure_for(raw_os_error),
{
    match raw_os_error {
        Some(code) => {
            if code == EMFILE || code == ENFILE {
                AcceptFailure { severity: Severity::Warn, back_off: true }
            } else if code == ECONNABORTED || code == EINTR || code == ENOBUFS || code == ENOMEM
                || code == EPROTO {
                AcceptFailure { severity: Severity::Info, back_off: false }
            } else {
                AcceptFailure { severity: Severity::Error, back_off: false }
            }
        },
        None => AcceptFailure { severity: Severity::Error, back_off: false },
    }
}

/// The time the acceptor lets pass before it tries again after it ran out of
/// files.
pub fn backoff() -> (span: Duration)
    ensures
        span@ == BACKOFF_MILLISECONDS * crate::timing::NANOS_PER_MILLISECOND,
{
    Duration::from_millis(BACKOFF_MILLISECONDS)
}

/// What an admission comes to.
pub struct Admission<S> {
    /// The client, to be handed to the scheduler.
    pub client: Client<S>,
    /// The event that tells of the admission.
    pub event: ClientEvent,
    /// What is to be added to the totals.
    pub update: StatisticsUpdate,
}

/// Admits at `now` the connection over `stream` from `addr`, for which `permit`
/// was obtained: makes the client, due its first line after `delay`, the event
/// that tells of it, and the update that counts it.
pub fn admit_connection<S>(
    stream: S,
    addr: SocketAddress,
    permit: tokio::sync::OwnedSemaphorePermit,
    now: Timestamp,
    delay: Duration,
) -> (admission: Admission<S>)
    requires
        now@ + delay@ <= i128::MAX,
    ensures
        admission.client@ == (ClientView {
            time_spent: 0,
            send_next: now@ + delay@,
            connected_at: now@,
            bytes_sent: 0,
            addr,
            tcp_stream: stream,
            permit,
        }),
        admission.event == connected(addr, now@),
        admission.update == StatisticsUpdate::spec_connected(),
        due_after_admission(admission.client@),
{
    let send_next: Timestamp = now.checked_add(delay).unwrap();
    let client = Client::new(stream, addr, now, send_next, permit);
    let event = client.connected_event();
    Admission { client, event, update: StatisticsUpdate::connected() }
}

/// The first line is due exactly one delay after the admission, so the scheduler
/// does not say that a client is to be written to before that.
pub proof fn lemma_first_line_after_delay(admitted_at: int, delay: nat, now: int)
    requires
        crate::client_queue::action_at(admitted_at + delay, now) is Process,
    ensures
        now - admitted_at >= delay,
{
}

} // verus!
