use std::cmp::Ordering;
use std::sync::Arc;

use endless_ssh_rs::client::Client;
use endless_ssh_rs::events::ClientEvent;
use endless_ssh_rs::listener::{admit_connection, backoff, classify_accept_error, AcceptFailure, Severity};
use endless_ssh_rs::net::{IpAddress, SocketAddress};
use endless_ssh_rs::statistics::StatisticsUpdate;
use endless_ssh_rs::timing::{Duration, Timestamp};
use tokio::sync::Semaphore;

fn remote() -> SocketAddress {
    SocketAddress::new(IpAddress::V4(0xc0a8_0001), 51_234)
}

fn permit(semaphore: &Arc<Semaphore>) -> tokio::sync::OwnedSemaphorePermit {
    Arc::clone(semaphore).try_acquire_owned().expect("a permit is free")
}

#[test]
fn new_client_has_nothing_on_its_account() {
    let semaphore = Arc::new(Semaphore::new(1));
    let client = Client::new(
        7u8,
        remote(),
        Timestamp::from_unix_nanos(10),
        Timestamp::from_unix_nanos(30),
        permit(&semaphore),
    );
    assert_eq!(client.time_spent(), Duration::zero());
    assert_eq!(client.bytes_sent(), 0);
    assert_eq!(client.send_next(), Timestamp::from_unix_nanos(30));
    assert_eq!(client.connected_at(), Timestamp::from_unix_nanos(10));
    assert_eq!(client.addr(), remote());
    assert_eq!(
        client.connected_event(),
        ClientEvent::Connected {
            ip: IpAddress::V4(0xc0a8_0001),
            addr: remote(),
            connected_at: Timestamp::from_unix_nanos(10),
        }
    );
}

#[test]
fn client_accounts_can_be_changed_in_place() {
    let semaphore = Arc::new(Semaphore::new(1));
    let mut client = Client::new(
        vec![1u8],
        remote(),
        Timestamp::from_unix_nanos(0),
        Timestamp::from_unix_nanos(5),
        permit(&semaphore),
    );
    *client.bytes_sent_mut() += 11;
    *client.time_spent_mut() = Duration::from_nanos(3);
    *client.send_next_mut() = Timestamp::from_unix_nanos(8);
    client.tcp_stream_mut().push(2);
    assert_eq!(client.bytes_sent(), 11);
    assert_eq!(client.time_spent(), Duration::from_nanos(3));
    assert_eq!(client.send_next(), Timestamp::from_unix_nanos(8));
    assert_eq!(client.tcp_stream_mut().as_slice(), &[1, 2]);
    assert_eq!(client.connected_at(), Timestamp::from_unix_nanos(0));
}

#[test]
fn record_write_adds_bytes_and_delay() {
    let semaphore = Arc::new(Semaphore::new(1));
    let mut client = Client::new(
        (),
        remote(),
        Timestamp::from_unix_nanos(0),
        Timestamp::from_unix_nanos(100),
        permit(&semaphore),
    );
    let delay = Duration::from_nanos(100);
    let update = client.record_write(9, delay, Timestamp::from_unix_nanos(104));
    assert_eq!(update, StatisticsUpdate { bytes: 9, delay, processed: 1, lost: 0, connects: 0 });
    let update = client.record_write(5, delay, Timestamp::from_unix_nanos(207));
    assert_eq!(update.bytes, 5);
    assert_eq!(client.bytes_sent(), 14);
    assert_eq!(client.time_spent(), Duration::from_nanos(200));
    assert_eq!(client.send_next(), Timestamp::from_unix_nanos(307));
}

#[test]
fn dropping_a_client_releases_exactly_one_permit() {
    let semaphore = Arc::new(Semaphore::new(3));
    let first = Client::new((), remote(), Timestamp::from_unix_nanos(0), Timestamp::from_unix_nanos(1), permit(&semaphore));
    let second = Client::new((), remote(), Timestamp::from_unix_nanos(0), Timestamp::from_unix_nanos(1), permit(&semaphore));
    assert_eq!(semaphore.available_permits(), 1);
    drop(first);
    assert_eq!(semaphore.available_permits(), 2);
    let event = second.disconnect(Timestamp::from_unix_nanos(77));
    assert_eq!(semaphore.available_permits(), 3);
    assert_eq!(
        event,
        ClientEvent::Disconnected {
            addr: remote(),
            connected_at: Timestamp::from_unix_nanos(0),
            disconnected_at: Timestamp::from_unix_nanos(77),
            time_spent: Duration::zero(),
            bytes_sent: 0,
        }
    );
    assert_eq!(event.addr(), remote());
}

#[test]
fn single_permit_is_free_again_only_after_the_client_is_gone() {
    let semaphore = Arc::new(Semaphore::new(1));
    let admission = admit_connection(
        (),
        remote(),
        permit(&semaphore),
        Timestamp::from_unix_nanos(1_000),
        Duration::from_secs(60),
    );
    assert!(Arc::clone(&semaphore).try_acquire_owned().is_err());
    drop(admission);
    assert!(Arc::clone(&semaphore).try_acquire_owned().is_ok());
}

#[test]
fn admission_makes_client_event_and_update() {
    let semaphore = Arc::new(Semaphore::new(1));
    let admission = admit_connection(
        3u8,
        remote(),
        permit(&semaphore),
        Timestamp::from_unix_nanos(1_000),
        Duration::from_millis(100),
    );
    assert_eq!(admission.client.connected_at(), Timestamp::from_unix_nanos(1_000));
    assert_eq!(admission.client.send_next(), Timestamp::from_unix_nanos(100_001_000));
    assert_eq!(admission.client.bytes_sent(), 0);
    assert_eq!(admission.client.time_spent(), Duration::zero());
    assert_eq!(admission.client.addr(), remote());
    assert_eq!(
        admission.event,
        ClientEvent::Connected {
            ip: IpAddress::V4(0xc0a8_0001),
            addr: remote(),
            connected_at: Timestamp::from_unix_nanos(1_000),
        }
    );
    assert_eq!(admission.update, StatisticsUpdate::connected());
    assert_eq!(
        admission.update,
        StatisticsUpdate { bytes: 0, delay: Duration::zero(), processed: 0, lost: 0, connects: 1 }
    );
}

#[test]
fn clients_compare_by_address_and_by_deadline() {
    let semaphore = Arc::new(Semaphore::new(3));
    let other = SocketAddress::new(IpAddress::V6(1), 22);
    let soon = Client::new((), remote(), Timestamp::from_unix_nanos(0), Timestamp::from_unix_nanos(5), permit(&semaphore));
    let late = Client::new((), remote(), Timestamp::from_unix_nanos(0), Timestamp::from_unix_nanos(9), permit(&semaphore));
    let elsewhere = Client::new((), other, Timestamp::from_unix_nanos(0), Timestamp::from_unix_nanos(5), permit(&semaphore));
    assert!(soon == late);
    assert!(!(soon == elsewhere));
    assert_eq!(soon.partial_cmp(&late), Some(Ordering::Greater));
    assert_eq!(late.partial_cmp(&soon), Some(Ordering::Less));
    assert_eq!(soon.partial_cmp(&elsewhere), Some(Ordering::Equal));
    assert!(late < soon);
}

#[test]
fn accept_errors_are_classified() {
    let warn = AcceptFailure { severity: Severity::Warn, back_off: true };
    let info = AcceptFailure { severity: Severity::Info, back_off: false };
    let error = AcceptFailure { severity: Severity::Error, back_off: false };
    assert_eq!(classify_accept_error(Some(libc::EMFILE)), warn);
    assert_eq!(classify_accept_error(Some(libc::ENFILE)), warn);
    assert_eq!(classify_accept_error(Some(libc::ECONNABORTED)), info);
    assert_eq!(classify_accept_error(Some(libc::EINTR)), info);
    assert_eq!(classify_accept_error(Some(libc::ENOBUFS)), info);
    assert_eq!(classify_accept_error(Some(libc::ENOMEM)), info);
    assert_eq!(classify_accept_error(Some(libc::EPROTO)), info);
    assert_eq!(classify_accept_error(Some(libc::EACCES)), error);
    assert_eq!(classify_accept_error(Some(0)), error);
    assert_eq!(classify_accept_error(None), error);
    assert_eq!(backoff(), Duration::from_millis(100));
}

#[test]
fn error_codes_are_those_of_the_platform() {
    assert_eq!(endless_ssh_rs::listener::EMFILE, libc::EMFILE);
    assert_eq!(endless_ssh_rs::listener::ENFILE, libc::ENFILE);
    assert_eq!(endless_ssh_rs::listener::ECONNABORTED, libc::ECONNABORTED);
    assert_eq!(endless_ssh_rs::listener::EINTR, libc::EINTR);
    assert_eq!(endless_ssh_rs::listener::ENOBUFS, libc::ENOBUFS);
    assert_eq!(endless_ssh_rs::listener::ENOMEM, libc::ENOMEM);
    assert_eq!(endless_ssh_rs::listener::EPROTO, libc::EPROTO);
}
