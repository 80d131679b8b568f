use std::sync::Arc;

use endless_ssh_rs::client::Client;
use endless_ssh_rs::client_queue::{ClientQueue, SchedulerAction};
use endless_ssh_rs::events::ClientEvent;
use endless_ssh_rs::net::{IpAddress, SocketAddress};
use endless_ssh_rs::scheduler::{Scheduler, Step, WriteOutcome};
use endless_ssh_rs::statistics::{Statistics, StatisticsUpdate};
use endless_ssh_rs::timing::{Duration, Timestamp};
use tokio::sync::Semaphore;

fn addr(n: u32) -> SocketAddress {
    SocketAddress::new(IpAddress::V4(0x0a00_0000 + n), 40_000 + (n as u16))
}

fn client(semaphore: &Arc<Semaphore>, n: u32, connected_at: i128, due: i128) -> Client<Vec<u8>> {
    let permit = Arc::clone(semaphore).try_acquire_owned().expect("a permit is free");
    Client::new(
        Vec::new(),
        addr(n),
        Timestamp::from_unix_nanos(connected_at),
        Timestamp::from_unix_nanos(due),
        permit,
    )
}

#[test]
fn queue_hands_out_clients_soonest_first() {
    let semaphore = Arc::new(Semaphore::new(200));
    let mut queue: ClientQueue<Vec<u8>> = ClientQueue::new(200);
    let mut seed: u64 = 0x1234_5678;
    let mut expected: Vec<i128> = Vec::new();
    for n in 0..150u32 {
        seed = seed.wrapping_mul(6364136223846793005).wrapping_add(1442695040888963407);
        let due = ((seed >> 33) % 50) as i128;
        expected.push(due);
        assert!(queue.push(client(&semaphore, n, 0, due)).is_ok());
    }
    expected.sort();
    assert_eq!(queue.len(), 150);
    let mut got: Vec<i128> = Vec::new();
    loop {
        let peeked = queue.peek().map(|c| c.send_next().unix_nanos());
        match queue.pop() {
            Some(first) => {
                assert_eq!(peeked, Some(first.send_next().unix_nanos()));
                got.push(first.send_next().unix_nanos());
            }
            None => break,
        }
    }
    assert_eq!(got, expected);
    assert!(queue.is_empty());
}

#[test]
fn queue_refuses_a_client_when_full() {
    let semaphore = Arc::new(Semaphore::new(3));
    let mut queue: ClientQueue<Vec<u8>> = ClientQueue::new(2);
    assert_eq!(queue.capacity(), 2);
    assert!(queue.has_room());
    assert!(queue.push(client(&semaphore, 1, 0, 5)).is_ok());
    assert!(queue.push(client(&semaphore, 2, 0, 3)).is_ok());
    assert!(!queue.has_room());
    let back = queue.push(client(&semaphore, 3, 0, 1));
    match back {
        Err(refused) => assert_eq!(refused.addr(), addr(3)),
        Ok(()) => panic!("a full queue took a client"),
    }
    assert_eq!(queue.len(), 2);
    assert_eq!(queue.peek().map(|c| c.addr()), Some(addr(2)));
}

#[test]
fn empty_queue_gives_nothing() {
    let mut queue: ClientQueue<Vec<u8>> = ClientQueue::new(4);
    assert!(queue.pop().is_none());
    assert!(queue.peek().is_none());
    assert!(queue.first_stream_mut().is_none());
    assert_eq!(queue.next_action(Timestamp::from_unix_nanos(0)), SchedulerAction::Idle);
    assert!(queue.drain().is_empty());
}

#[test]
fn scheduler_never_holds_more_than_max_clients() {
    let semaphore = Arc::new(Semaphore::new(10));
    let mut scheduler: Scheduler<Vec<u8>> = Scheduler::new(3, Duration::from_millis(100));
    let mut taken = 0;
    for n in 0..10u32 {
        if scheduler.enqueue(client(&semaphore, n, 0, n as i128)).is_ok() {
            taken += 1;
        }
        assert!(scheduler.len() <= 3);
    }
    assert_eq!(taken, 3);
    assert_eq!(scheduler.len(), 3);
    // the clients that were refused were dropped and their permits given back
    assert_eq!(semaphore.available_permits(), 7);
}

#[test]
fn scheduler_waits_until_the_first_client_is_due() {
    let semaphore = Arc::new(Semaphore::new(4));
    let mut scheduler: Scheduler<Vec<u8>> = Scheduler::new(4, Duration::from_nanos(10));
    assert_eq!(scheduler.next_action(Timestamp::from_unix_nanos(0)), SchedulerAction::Idle);
    assert!(scheduler.enqueue(client(&semaphore, 1, 0, 50)).is_ok());
    assert!(scheduler.enqueue(client(&semaphore, 2, 0, 30)).is_ok());
    assert_eq!(
        scheduler.next_action(Timestamp::from_unix_nanos(7)),
        SchedulerAction::Wait(Duration::from_nanos(23))
    );
    assert_eq!(scheduler.next_action(Timestamp::from_unix_nanos(30)), SchedulerAction::Process);
    assert_eq!(scheduler.next_action(Timestamp::from_unix_nanos(99)), SchedulerAction::Process);
}

#[test]
fn successive_writes_are_a_delay_apart() {
    let semaphore = Arc::new(Semaphore::new(1));
    let delay = Duration::from_millis(100);
    let mut scheduler: Scheduler<Vec<u8>> = Scheduler::new(1, delay);
    assert!(scheduler.enqueue(client(&semaphore, 1, 0, 100_000_000)).is_ok());
    let written_at = Timestamp::from_unix_nanos(100_000_123);
    assert!(scheduler.can_record(7, written_at));
    let step = scheduler.process_client(WriteOutcome::Written(7), written_at);
    assert_eq!(
        step,
        Some(Step { update: StatisticsUpdate::written(7, delay), event: None })
    );
    assert_eq!(
        scheduler.next_action(Timestamp::from_unix_nanos(200_000_122)),
        SchedulerAction::Wait(Duration::from_nanos(1))
    );
    assert_eq!(
        scheduler.next_action(Timestamp::from_unix_nanos(200_000_123)),
        SchedulerAction::Process
    );
    let held = scheduler.as_slice();
    assert_eq!(held.len(), 1);
    assert_eq!(held[0].bytes_sent(), 7);
    assert_eq!(held[0].time_spent(), delay);
    assert_eq!(held[0].send_next(), Timestamp::from_unix_nanos(200_000_123));
    assert_eq!(held[0].connected_at(), Timestamp::from_unix_nanos(0));
}

#[test]
fn failed_write_loses_the_client_and_frees_its_permit() {
    let semaphore = Arc::new(Semaphore::new(1));
    let delay = Duration::from_millis(50);
    let mut scheduler: Scheduler<Vec<u8>> = Scheduler::new(1, delay);
    assert!(scheduler.enqueue(client(&semaphore, 9, 1_000, 2_000)).is_ok());
    assert_eq!(semaphore.available_permits(), 0);
    let first = scheduler.process_client(WriteOutcome::Written(12), Timestamp::from_unix_nanos(2_000));
    assert!(first.is_some());
    let lost = scheduler.process_client(WriteOutcome::Failed, Timestamp::from_unix_nanos(60_000_000));
    assert_eq!(
        lost,
        Some(Step {
            update: StatisticsUpdate::lost(),
            event: Some(ClientEvent::Disconnected {
                addr: addr(9),
                connected_at: Timestamp::from_unix_nanos(1_000),
                disconnected_at: Timestamp::from_unix_nanos(60_000_000),
                time_spent: delay,
                bytes_sent: 12,
            }),
        })
    );
    assert!(scheduler.is_empty());
    assert_eq!(semaphore.available_permits(), 1);
    assert_eq!(scheduler.process_client(WriteOutcome::Failed, Timestamp::from_unix_nanos(0)), None);
    assert!(!scheduler.can_record(1, Timestamp::from_unix_nanos(0)));
}

#[test]
fn stream_of_the_first_client_is_written_to() {
    let semaphore = Arc::new(Semaphore::new(2));
    let mut scheduler: Scheduler<Vec<u8>> = Scheduler::new(2, Duration::from_nanos(5));
    assert!(scheduler.enqueue(client(&semaphore, 1, 0, 9)).is_ok());
    assert!(scheduler.enqueue(client(&semaphore, 2, 0, 4)).is_ok());
    {
        let stream = scheduler.first_stream_mut().expect("a client is held");
        stream.extend_from_slice(b"ab\r\n");
    }
    let step = scheduler.process_client(WriteOutcome::Written(4), Timestamp::from_unix_nanos(4));
    assert!(step.is_some());
    // client 2 is now due at 9, as client 1 is; both are still held
    assert_eq!(scheduler.len(), 2);
    let mut seen = 0;
    for held in scheduler.as_slice() {
        if held.addr() == addr(2) {
            assert_eq!(held.bytes_sent(), 4);
            seen += 1;
        } else {
            assert_eq!(held.bytes_sent(), 0);
        }
    }
    assert_eq!(seen, 1);
}

#[test]
fn shutdown_tells_of_every_client_and_totals_match() {
    let semaphore = Arc::new(Semaphore::new(100));
    let delay = Duration::from_millis(10);
    let mut scheduler: Scheduler<Vec<u8>> = Scheduler::new(100, delay);
    let mut statistics = Statistics::new();
    for n in 0..100u32 {
        assert!(scheduler.enqueue(client(&semaphore, n, 0, n as i128)).is_ok());
        statistics.apply(StatisticsUpdate::connected());
    }
    assert_eq!(semaphore.available_permits(), 0);
    let mut now: i128 = 100;
    for round in 0..250usize {
        let bytes = 3 + round % 30;
        let at = Timestamp::from_unix_nanos(now);
        assert!(scheduler.can_record(bytes, at));
        let step = scheduler.process_client(WriteOutcome::Written(bytes), at).expect("a client");
        assert!(step.event.is_none());
        statistics.apply(step.update);
        now += 1;
    }
    let events = scheduler.shutdown(Timestamp::from_unix_nanos(now));
    assert_eq!(events.len(), 100);
    assert!(scheduler.is_empty());
    assert_eq!(semaphore.available_permits(), 100);
    let mut sum = 0usize;
    let mut seen: Vec<SocketAddress> = Vec::new();
    for event in &events {
        match event {
            ClientEvent::Disconnected { addr, bytes_sent, disconnected_at, .. } => {
                assert!(!seen.contains(addr));
                seen.push(*addr);
                sum += *bytes_sent;
                assert_eq!(*disconnected_at, Timestamp::from_unix_nanos(now));
            }
            ClientEvent::Connected { .. } => panic!("a client was told of as admitted"),
        }
    }
    for n in 0..100u32 {
        assert!(seen.contains(&addr(n)));
    }
    assert_eq!(statistics.bytes_sent, sum);
    assert_eq!(statistics.connects, 100);
    assert_eq!(statistics.processed_clients, 250);
    assert_eq!(statistics.lost_clients, 0);
    assert!(scheduler.shutdown(Timestamp::from_unix_nanos(now)).is_empty());
}

#[test]
fn scheduler_keeps_its_settings() {
    let scheduler: Scheduler<Vec<u8>> = Scheduler::new(17, Duration::from_secs(10));
    assert_eq!(scheduler.delay(), Duration::from_secs(10));
    assert_eq!(scheduler.len(), 0);
    assert!(scheduler.is_empty());
    assert!(scheduler.as_slice().is_empty());
}
