use std::sync::Arc;

use endless_ssh_rs::client::Client;
use endless_ssh_rs::net::{IpAddress, SocketAddress};
use endless_ssh_rs::statistics::{format_time, Statistics, StatisticsMessage, StatisticsUpdate};
use endless_ssh_rs::text::{append_decimal, append_padded3};
use endless_ssh_rs::timing::{Duration, Timestamp};
use tokio::sync::Semaphore;

#[test]
fn new_statistics_are_zero() {
    let statistics = Statistics::new();
    assert_eq!(statistics.bytes_sent, 0);
    assert_eq!(statistics.connects, 0);
    assert_eq!(statistics.lost_clients, 0);
    assert_eq!(statistics.processed_clients, 0);
    assert_eq!(statistics.time_spent, Duration::zero());
}

#[test]
fn updates_add_up() {
    let mut statistics = Statistics::new();
    statistics.apply(StatisticsUpdate::connected());
    statistics.apply(StatisticsUpdate::written(12, Duration::from_millis(200)));
    statistics.apply(StatisticsUpdate::written(30, Duration::from_millis(200)));
    statistics.apply(StatisticsUpdate::lost());
    statistics.apply(StatisticsUpdate::none());
    assert_eq!(
        statistics,
        Statistics {
            bytes_sent: 42,
            connects: 1,
            lost_clients: 1,
            processed_clients: 2,
            time_spent: Duration::from_millis(400),
        }
    );
}

#[test]
fn totals_never_wrap() {
    let mut statistics = Statistics {
        bytes_sent: usize::MAX - 1,
        connects: u64::MAX,
        lost_clients: u64::MAX - 1,
        processed_clients: u64::MAX,
        time_spent: Duration::from_nanos(u128::MAX - 5),
    };
    statistics.apply(StatisticsUpdate {
        bytes: 10,
        delay: Duration::from_nanos(10),
        processed: 1,
        lost: 1,
        connects: 1,
    });
    assert_eq!(statistics.bytes_sent, usize::MAX);
    assert_eq!(statistics.connects, u64::MAX);
    assert_eq!(statistics.lost_clients, u64::MAX);
    assert_eq!(statistics.processed_clients, u64::MAX);
    assert_eq!(statistics.time_spent, Duration::from_nanos(u128::MAX));
}

#[test]
fn time_is_written_out_in_every_unit() {
    assert_eq!(
        format_time(Duration::zero()),
        "0 week(s), 0 day(s), 0 hour(s), 0 minute(s), 0.000 second(s)"
    );
    // 8 days and 1.5 seconds
    let span = Duration::from_nanos(8 * 86_400_000_000_000 + 1_500_000_000);
    assert_eq!(
        format_time(span),
        "1 week(s), 8 day(s), 192 hour(s), 11520 minute(s), 691201.500 second(s)"
    );
    assert_eq!(
        format_time(Duration::from_nanos(61_007_999_999)),
        "0 week(s), 0 day(s), 0 hour(s), 1 minute(s), 61.007 second(s)"
    );
}

#[test]
fn numbers_are_written_in_decimal() {
    let mut text = String::from("n=");
    append_decimal(&mut text, 0);
    text.push(' ');
    append_decimal(&mut text, 9);
    text.push(' ');
    append_decimal(&mut text, 10);
    text.push(' ');
    append_decimal(&mut text, 1_234_567_890);
    text.push(' ');
    append_decimal(&mut text, u128::MAX);
    text.push(' ');
    append_padded3(&mut text, 0);
    text.push(' ');
    append_padded3(&mut text, 45);
    text.push(' ');
    append_padded3(&mut text, 999);
    assert_eq!(
        text,
        "n=0 9 10 1234567890 340282366920938463463374607431768211455 000 045 999"
    );
}

#[test]
fn asking_twice_for_totals_gives_the_same_totals() {
    let mut statistics = Statistics::new();
    assert!(statistics.handle(StatisticsMessage::Update(StatisticsUpdate::connected())).is_none());
    assert!(statistics
        .handle(StatisticsMessage::Update(StatisticsUpdate::written(31, Duration::from_millis(1600))))
        .is_none());
    let first = statistics.handle(StatisticsMessage::LogTotals).expect("totals");
    let second = statistics.handle(StatisticsMessage::LogTotals).expect("totals");
    assert_eq!(first.connects, 1);
    assert_eq!(first.bytes_sent, 31);
    assert_eq!(
        first.time_spent,
        "0 week(s), 0 day(s), 0 hour(s), 0 minute(s), 1.600 second(s)"
    );
    assert_eq!(first.connects, second.connects);
    assert_eq!(first.bytes_sent, second.bytes_sent);
    assert_eq!(first.time_spent, second.time_spent);
}

#[test]
fn totals_take_in_the_clients_still_connected() {
    let semaphore = Arc::new(Semaphore::new(2));
    let remote = SocketAddress::new(IpAddress::V4(1), 2);
    let mut clients: Vec<Client<()>> = Vec::new();
    for bytes in [5usize, 7] {
        let permit = Arc::clone(&semaphore).try_acquire_owned().expect("a permit is free");
        let mut client = Client::new(
            (),
            remote,
            Timestamp::from_unix_nanos(0),
            Timestamp::from_unix_nanos(0),
            permit,
        );
        client.record_write(bytes, Duration::from_secs(1), Timestamp::from_unix_nanos(0));
        clients.push(client);
    }
    let statistics = Statistics {
        bytes_sent: 100,
        connects: 3,
        lost_clients: 0,
        processed_clients: 9,
        time_spent: Duration::from_secs(58),
    };
    let totals = statistics.log_totals(&clients);
    assert_eq!(totals.connects, 3);
    assert_eq!(totals.bytes_sent, 112);
    assert_eq!(
        totals.time_spent,
        "0 week(s), 0 day(s), 0 hour(s), 1 minute(s), 60.000 second(s)"
    );
    let none: Vec<Client<()>> = Vec::new();
    let alone = statistics.log_totals(&none);
    assert_eq!(alone.bytes_sent, 100);
    assert_eq!(
        alone.time_spent,
        "0 week(s), 0 day(s), 0 hour(s), 0 minute(s), 58.000 second(s)"
    );
}
