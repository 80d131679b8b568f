use endless_ssh_rs::db::{
    capped_bytes, get_stats, stored_bytes, to_duration, to_inet, to_interval, ConnectionRecord,
    Interval, IpNetwork, StatsTable,
};
use endless_ssh_rs::events::{
    connection_info, disconnected_event, replayed_event, WsEvent,
};
use endless_ssh_rs::geoip::{
    build_url, check_freshness, get_etag, should_download_database, Coordinate, EtagError,
    Freshness, GeoInfo,
};
use endless_ssh_rs::net::IpAddress;
use endless_ssh_rs::router::api_router::{resolve_span, StatsQueryParams};
use endless_ssh_rs::router::ws_router::{handle_broadcast, Broadcast, FeedAction, WsQueryParams};
use endless_ssh_rs::timing::{Duration, Timestamp};
use endless_ssh_rs::traits::pretty_formatter::pretty_format;
use endless_ssh_rs::utils::{join_bracketed, SliceDisplay};

const DAY: i128 = 86_400_000_000_000;

fn geo() -> GeoInfo {
    GeoInfo {
        country_code: Some("BE".to_owned()),
        country_name: Some("Belgium".to_owned()),
        city: Some("Ghent".to_owned()),
        latitude: Some(Coordinate { bits: 51.05f64.to_bits() }),
        longitude: None,
    }
}

#[test]
fn slices_are_written_in_brackets() {
    assert_eq!(SliceDisplay(&[1u32, 20, 300]).to_string(), "[1, 20, 300]");
    assert_eq!(SliceDisplay(&["a"]).to_string(), "[a]");
    let none: [u8; 0] = [];
    assert_eq!(SliceDisplay(&none).to_string(), "");
    assert_eq!(join_bracketed(&vec!["x".to_owned(), "".to_owned(), "z z".to_owned()]), "[x, , z z]");
    assert_eq!(join_bracketed(&Vec::new()), "");
}

#[test]
fn results_are_written_by_display_or_debug() {
    let fine: Result<u32, String> = Ok(42);
    let broken: Result<u32, String> = Err("no \"way\"".to_owned());
    assert_eq!(pretty_format(&fine), "42");
    assert_eq!(pretty_format(&broken), "\"no \\\"way\\\"\"");
}

#[test]
fn stats_span_falls_back_on_now_and_a_day() {
    let now = Timestamp::from_unix_nanos(1_700_000_000_000_000_000);
    assert_eq!(StatsQueryParams::new(None, None).span(now), None);
    let from = "2020-01-02T03:04:05Z".to_owned();
    let to = "2020-01-03T03:04:05.5+01:00".to_owned();
    let from_nanos: i128 = 1_577_934_245_000_000_000;
    let to_nanos: i128 = 1_578_017_045_500_000_000;
    assert_eq!(
        StatsQueryParams::new(Some(from.clone()), Some(to.clone())).span(now),
        Some((Timestamp::from_unix_nanos(from_nanos), Timestamp::from_unix_nanos(to_nanos)))
    );
    assert_eq!(
        StatsQueryParams::new(Some(from), None).span(now),
        Some((Timestamp::from_unix_nanos(from_nanos), now))
    );
    assert_eq!(
        StatsQueryParams::new(None, Some(to)).span(now),
        Some((Timestamp::from_unix_nanos(to_nanos - DAY), Timestamp::from_unix_nanos(to_nanos)))
    );
    assert_eq!(
        StatsQueryParams::new(Some("yesterday".to_owned()), Some("2020-13-01T00:00:00Z".to_owned()))
            .span(now),
        Some((Timestamp::from_unix_nanos(now.unix_nanos() - DAY), now))
    );
    assert_eq!(
        resolve_span(None, None, Timestamp::from_unix_nanos(i128::MIN + 5)),
        (Timestamp::from_unix_nanos(i128::MIN), Timestamp::from_unix_nanos(i128::MIN + 5))
    );
    assert_eq!(
        resolve_span(Some(9), Some(3), now),
        (Timestamp::from_unix_nanos(9), Timestamp::from_unix_nanos(3))
    );
}

#[test]
fn feed_replays_after_the_number_sent() {
    assert_eq!(WsQueryParams { since: None }.since_id(), 0);
    assert_eq!(WsQueryParams { since: Some(-4) }.since_id(), -4);
    assert_eq!(WsQueryParams { since: Some(812) }.since_id(), 812);
}

#[test]
fn feed_follows_the_broadcast() {
    let mut last_seq = 7i64;
    assert_eq!(handle_broadcast(Broadcast::Event { seq: None }, &mut last_seq), FeedAction::Forward);
    assert_eq!(last_seq, 7);
    assert_eq!(
        handle_broadcast(Broadcast::Event { seq: Some(12) }, &mut last_seq),
        FeedAction::Forward
    );
    assert_eq!(last_seq, 12);
    assert_eq!(
        handle_broadcast(Broadcast::Lagged, &mut last_seq),
        FeedAction::CatchUp { since: 12, limit: 1000 }
    );
    assert_eq!(last_seq, 12);
    assert_eq!(handle_broadcast(Broadcast::Closed, &mut last_seq), FeedAction::Close);
    assert_eq!(last_seq, 12);
}

#[test]
fn download_url_carries_the_license_key() {
    assert_eq!(
        build_url("abc123").as_deref(),
        Some("https://download.maxmind.com/app/geoip_download?edition_id=GeoLite2-City&suffix=tar.gz&license_key=abc123")
    );
    assert_eq!(
        build_url("a b&c").as_deref(),
        Some("https://download.maxmind.com/app/geoip_download?edition_id=GeoLite2-City&suffix=tar.gz&license_key=a+b%26c")
    );
}

#[test]
fn database_is_downloaded_when_missing_or_stale() {
    assert_eq!(check_freshness(false, false), Freshness::Download);
    assert_eq!(check_freshness(false, true), Freshness::Download);
    assert_eq!(check_freshness(true, false), Freshness::Keep);
    assert_eq!(check_freshness(true, true), Freshness::AskServer);
    let local = "\"abc\"".to_owned();
    let same = "\"abc\"".to_owned();
    let other = "\"abd\"".to_owned();
    assert!(!should_download_database(&local, Some(&same)));
    assert!(should_download_database(&local, Some(&other)));
    assert!(!should_download_database(&local, None));
}

#[test]
fn etag_is_taken_from_the_header() {
    assert_eq!(get_etag(None), Err(EtagError::Missing));
    assert_eq!(get_etag(Some(&b"caf\xc3\xa9"[..])), Err(EtagError::NotAscii));
    assert_eq!(get_etag(Some(&b"a\x7fb"[..])), Err(EtagError::NotAscii));
    assert_eq!(get_etag(Some(&b"a\nb"[..])), Err(EtagError::NotAscii));
    assert_eq!(get_etag(Some(&b"\"v1\""[..])), Ok("\"v1\"".to_owned()));
    assert_eq!(get_etag(Some(&b"W/\"a\tb ~\""[..])), Ok("W/\"a\tb ~\"".to_owned()));
    assert_eq!(get_etag(Some(&b""[..])), Ok(String::new()));
    assert_eq!(EtagError::Missing.message(), "No ETAG present on response");
    assert_eq!(EtagError::NotAscii.message(), "ETAG on response not valid ASCII");
}

#[test]
fn addresses_become_single_host_networks() {
    assert_eq!(
        to_inet(IpAddress::V4(0x0102_0304)),
        IpNetwork { addr: IpAddress::V4(0x0102_0304), prefix: 32 }
    );
    assert_eq!(
        to_inet(IpAddress::V6(0xffff_c0a8_0001)),
        IpNetwork { addr: IpAddress::V4(0xc0a8_0001), prefix: 32 }
    );
    assert_eq!(
        to_inet(IpAddress::V6(0xc0a8_0001)),
        IpNetwork { addr: IpAddress::V6(0xc0a8_0001), prefix: 128 }
    );
    let full = 0x2001_0db8_0000_0000_0000_ffff_c0a8_0001u128;
    assert_eq!(to_inet(IpAddress::V6(full)), IpNetwork { addr: IpAddress::V6(full), prefix: 128 });
}

#[test]
fn durations_become_intervals_and_back() {
    assert_eq!(
        to_interval(Duration::from_nanos(1_234_567_899)),
        Interval { months: 0, days: 0, microseconds: 1_234_567 }
    );
    assert_eq!(
        to_interval(Duration::from_nanos(u128::MAX)),
        Interval { months: 0, days: 0, microseconds: i64::MAX }
    );
    assert_eq!(
        to_duration(Interval { months: 1, days: 2, microseconds: 3 }),
        Some(Duration::from_nanos((32 * DAY + 3_000) as u128))
    );
    assert_eq!(to_duration(Interval { months: 0, days: 0, microseconds: 0 }), Some(Duration::zero()));
    assert_eq!(to_duration(Interval { months: 0, days: -1, microseconds: 5 }), None);
    assert_eq!(
        to_duration(Interval { months: i32::MAX, days: i32::MAX, microseconds: i64::MAX }),
        Some(Duration::from_nanos(
            (i32::MAX as u128 * 31) * (DAY as u128) + (i64::MAX as u128) * 1000
        ))
    );
}

#[test]
fn byte_counts_are_capped() {
    assert_eq!(capped_bytes(0), 0);
    assert_eq!(capped_bytes(123), 123);
    assert_eq!(capped_bytes(i64::MAX as usize), i64::MAX);
    assert_eq!(capped_bytes(usize::MAX), i64::MAX);
    assert_eq!(stored_bytes(55), 55);
    assert_eq!(stored_bytes(-1), 0);
    assert_eq!(stored_bytes(0), 0);
}

#[test]
fn stats_table_follows_the_length_of_the_span() {
    let hour: i128 = 3_600_000_000_000;
    let from = Timestamp::from_unix_nanos(1_000);
    let table = |hours: i128, extra: i128| {
        get_stats(Some((from, Timestamp::from_unix_nanos(1_000 + hours * hour + extra)))).table
    };
    assert_eq!(table(0, 0), StatsTable::OneMinute);
    assert_eq!(table(24, hour - 1), StatsTable::OneMinute);
    assert_eq!(table(25, 0), StatsTable::FiveMinutes);
    assert_eq!(table(168, hour - 1), StatsTable::FiveMinutes);
    assert_eq!(table(169, 0), StatsTable::OneHour);
    assert_eq!(table(720, hour - 1), StatsTable::OneHour);
    assert_eq!(table(721, 0), StatsTable::OneDay);
    assert_eq!(table(-5, 0), StatsTable::OneMinute);
    let bounded = get_stats(Some((from, Timestamp::from_unix_nanos(2_000))));
    assert_eq!(bounded.bounds, Some((from, Timestamp::from_unix_nanos(2_000))));
    let all = get_stats(None);
    assert_eq!(all.table, StatsTable::OneDay);
    assert_eq!(all.bounds, None);
    assert_eq!(StatsTable::OneMinute.name(), "connections_1min");
    assert_eq!(StatsTable::FiveMinutes.name(), "connections_5min");
    assert_eq!(StatsTable::OneHour.name(), "connections_1h");
    assert_eq!(StatsTable::OneDay.name(), "connections_1day");
}

#[test]
fn dashboard_events_carry_what_is_known_of_the_place() {
    let at = Timestamp::from_unix_nanos(5);
    let info = connection_info("10.0.0.1".to_owned(), at, Some(geo()));
    assert_eq!(info.ip, "10.0.0.1");
    assert_eq!(info.connected_at, at);
    assert_eq!(info.lat, Some(Coordinate { bits: 51.05f64.to_bits() }));
    assert_eq!(info.lon, None);
    assert_eq!(info.country_code.as_deref(), Some("BE"));
    match info.connected_event() {
        WsEvent::Connected { ip, connected_at, lat, lon } => {
            assert_eq!(ip, "10.0.0.1");
            assert_eq!(connected_at, at);
            assert_eq!(lat, info.lat);
            assert_eq!(lon, None);
        }
        _ => panic!("not the event of an admission"),
    }
    let unknown = connection_info("::1".to_owned(), at, None);
    assert_eq!(unknown.lat, None);
    assert_eq!(unknown.country_code, None);

    let gone = disconnected_event(
        31,
        "10.0.0.1".to_owned(),
        at,
        Timestamp::from_unix_nanos(9),
        Duration::from_nanos(4),
        17,
        Some(geo()),
    );
    assert_eq!(gone.seq(), Some(31));
    match gone {
        WsEvent::Disconnected {
            seq, ip, connected_at, disconnected_at, time_spent, bytes_sent,
            country_code, country_name, city, lat, lon,
        } => {
            assert_eq!(seq, 31);
            assert_eq!(ip, "10.0.0.1");
            assert_eq!(connected_at, at);
            assert_eq!(disconnected_at, Timestamp::from_unix_nanos(9));
            assert_eq!(time_spent, Duration::from_nanos(4));
            assert_eq!(bytes_sent, 17);
            assert_eq!(country_code.as_deref(), Some("BE"));
            assert_eq!(country_name.as_deref(), Some("Belgium"));
            assert_eq!(city.as_deref(), Some("Ghent"));
            assert_eq!(lat, Some(Coordinate { bits: 51.05f64.to_bits() }));
            assert_eq!(lon, None);
        }
        _ => panic!("not the event of a client gone"),
    }
    assert_eq!(WsEvent::Ready.seq(), None);
}

#[test]
fn stored_connections_are_replayed() {
    let record = ConnectionRecord {
        id: 8,
        ip_address: IpAddress::V4(1),
        connected_at: Timestamp::from_unix_nanos(1),
        disconnected_at: Timestamp::from_unix_nanos(2),
        time_spent: Duration::from_nanos(1),
        bytes_sent: -3,
        country_code: None,
        country_name: Some("Nowhere".to_owned()),
        city: None,
        latitude: None,
        longitude: Some(Coordinate { bits: 7 }),
    };
    match replayed_event(record, "0.0.0.1".to_owned()) {
        WsEvent::Disconnected { seq, ip, bytes_sent, country_name, lon, lat, .. } => {
            assert_eq!(seq, 8);
            assert_eq!(ip, "0.0.0.1");
            assert_eq!(bytes_sent, 0);
            assert_eq!(country_name.as_deref(), Some("Nowhere"));
            assert_eq!(lon, Some(Coordinate { bits: 7 }));
            assert_eq!(lat, None);
        }
        _ => panic!("not the event of a client gone"),
    }
}
