//! What the persistence layer computes before it writes and after it reads. The
//! queries themselves are the caller's.

use vstd::prelude::*;
use crate::geoip::Coordinate;
use crate::net::IpAddress;
use crate::timing::{wait_between, Duration, Timestamp, NANOS_PER_DAY, NANOS_PER_HOUR};

verus! {

/// Nanoseconds in one microsecond.
pub const NANOS_PER_MICROSECOND: u128 = 1_000;

/// The days that a month of an interval counts for.
pub const DAYS_PER_MONTH: i64 = 30;

/// The most connections that the pool opens to the database.
pub const MAX_CONNECTIONS: u32 = 10;

/// A stored connection.
#[derive(Debug)]
pub struct ConnectionRecord {
    /// The sequence number.
    pub id: i64,
    /// The client's IP address.
    pub ip_address: IpAddress,
    /// When the client was admitted.
    pub connected_at: Timestamp,
    /// When the client was let go.
    pub disconnected_at: Timestamp,
    /// The delays that the client has sat through.
    pub time_spent: Duration,
    /// The bytes that were written to the client.
    pub bytes_sent: i64,
    /// Two-letter country code of ISO 3166-1.
    pub country_code: Option<String>,
    /// The country's name in English.
    pub country_name: Option<String>,
    /// The city's name in English.
    pub city: Option<String>,
    /// The latitude.
    pub latitude: Option<Coordinate>,
    /// The longitude.
    pub longitude: Option<Coordinate>,
}

/// One row of the pre-aggregated statistics.
#[derive(Debug)]
pub struct StatsRow {
    /// The start of the span of time that the row is about.
    pub bucket: Timestamp,
    /// Two-letter country code of ISO 3166-1.
    pub country_code: Option<String>,
    /// Connections admitted.
    pub connects: i64,
    /// Delays that the clients have sat through.
    pub time_spent: Duration,
    /// Bytes written to the clients.
    pub bytes_sent: i64,
}

/// An interval as the database holds it.
#[derive(Clone, Copy, Debug, PartialEq, Eq, Structural)]
pub struct Interval {
    /// Months.
    pub months: i32,
    /// Days.
    pub days: i32,
    /// Microseconds.
    pub microseconds: i64,
}

/// An IP network as the database holds it: an address and the length of its
/// prefix.
#[derive(Clone, Copy, Debug, PartialEq, Eq, Structural)]
pub struct IpNetwork {
    /// The address.
    pub addr: IpAddress,
    /// The length of the prefix, in bits.
    pub prefix: u8,
}

/// Whether the 128 bits of an IPv6 address spell an IPv4 address mapped into
/// IPv6: 80 bits of zeros, 16 bits of ones, and the IPv4 address.
pub open spec fn is_ipv4_mapped(bits: u128) -> bool {
    bits / 0x1_0000_0000 == 0xffff
}

/// The network that holds `ip` alone. An IPv4 address mapped into IPv6 counts as
/// the IPv4 address that it is.
pub open spec fn inet_of(ip: IpAddress) -> IpNetwork {
    match ip {
        IpAddress::V4(bits) => IpNetwork { addr: IpAddress::V4(bits), prefix: 32 },
        IpAddress::V6(bits) => if is_ipv4_mapped(bits) {
            IpNetwork { addr: IpAddress::V4((bits % 0x1_0000_0000) as u32), prefix: 32 }
        } else {
            IpNetwork { addr: IpAddress::V6(bits), prefix: 128 }
        },
    }
}

/// The network that holds `ip` alone; see [`inet_of`].
pub fn to_inet(ip: IpAddress) -> (network: IpNetwork)
    ensures
        network == inet_of(ip),
{
    match ip {
        IpAddress::V4(bits) => IpNetwork { addr: IpAddress::V4(bits), prefix: 32 },
        IpAddress::V6(bits) => {
            if bits / 0x1_0000_0000 == 0xffff {
                IpNetwork { addr: IpAddress::V4((bits % 0x1_0000_0000) as u32), prefix: 32 }
            } else {
                IpNetwork { addr: IpAddress::V6(bits), prefix: 128 }
            }
        },
    }
}

/// The interval that stands for `duration` in the database: its whole
/// microseconds, and of those no more than the interval can hold.
pub open spec fn interval_of(duration: Duration) -> Interval {
    Interval {
        months: 0,
        days: 0,
        microseconds: if duration@ / NANOS_PER_MICROSECOND as nat <= i64::MAX {
            (duration@ / NANOS_PER_MICROSECOND as nat) as i64
        } else {
            i64::MAX
        },
    }
}

/// The interval that stands for `duration` in the database; see [`interval_of`].
pub fn to_interval(duration: Duration) -> (interval: Interval)
    ensures
        interval == interval_of(duration),
{
    let microseconds: u128 = duration.as_nanos() / NANOS_PER_MICROSECOND;
    let capped: i64 = if microseconds <= 0x7fff_ffff_ffff_ffff {
        microseconds as i64
    } else {
        i64::MAX
    };
    Interval { months: 0, days: 0, microseconds: capped }
}

/// The nanoseconds that `interval` comes to, a month counted as 30 days.
pub open spec fn interval_nanos(interval: Interval) -> int {
    (interval.months * DAYS_PER_MONTH + interval.days) * NANOS_PER_DAY
        + interval.microseconds * NANOS_PER_MICROSECOND
}

/// The span of time that `interval` stands for, a month counted as 30 days.
/// There is none where the interval comes to less than nothing.
pub fn to_duration(interval: Interval) -> (duration: Option<Duration>)
    ensures
        duration is Some <==> interval_nanos(interval) >= 0,
        duration is Some ==> duration->Some_0@ == interval_nanos(interval),
{
    let months: i128 = interval.months as i128;
    let days: i128 = interval.days as i128;
    let microseconds: i128 = interval.microseconds as i128;
    let total_days: i128 = months * 30 + days;
    let nanos: i128 = total_days * 86_400_000_000_000 + microseconds * 1_000;
    if nanos >= 0 {
        Some(Duration::from_nanos(nanos as u128))
    } else {
        None
    }
}

/// The count of bytes as the database holds it: `bytes_sent`, and no more than
/// the database can hold.
pub fn capped_bytes(bytes_sent: usize) -> (capped: i64)
    ensures
        bytes_sent <= i64::MAX ==> capped == bytes_sent,
        bytes_sent > i64::MAX ==> capped == i64::MAX,
{
    if bytes_sent as u128 <= 0x7fff_ffff_ffff_ffff {
        bytes_sent as i64
    } else {
        i64::MAX
    }
}

/// The count of bytes of a stored connection: what the database holds, or
/// nothing where that cannot be a count.
pub fn stored_bytes(bytes_sent: i64) -> (bytes: usize)
    ensures
        0 <= bytes_sent <= usize::MAX ==> bytes == bytes_sent,
        !(0 <= bytes_sent <= usize::MAX) ==> bytes == 0,
{
    if bytes_sent >= 0 && bytes_sent as u128 <= usize::MAX as u128 {
        bytes_sent as usize
    } else {
        0
    }
}

/// The tables of pre-aggregated statistics, by the span of time that a row of
/// each is about.
#[derive(Clone, Copy, Debug, PartialEq, Eq, Structural)]
pub enum StatsTable {
    /// One row a minute.
    OneMinute,
    /// One row every five minutes.
    FiveMinutes,
    /// One row an hour.
    OneHour,
    /// One row a day.
    OneDay,
}

/// What a query for statistics reads.
#[derive(Clone, Copy, Debug)]
pub struct StatsQuery {
    /// The table to read.
    pub table: StatsTable,
    /// The span of time to which the rows are held, if any: from the first point
    /// in time on and before the second.
    pub bounds: Option<(Timestamp, Timestamp)>,
}

/// The whole hours from `from` to `to`; none where `to` is not after `from`.
pub open spec fn span_hours(from: Timestamp, to: Timestamp) -> nat {
    wait_between(to@, from@) / NANOS_PER_HOUR as nat
}

/// The table that is read for a span of so many whole hours: the finer, the
/// shorter the span.
pub open spec fn table_for(hours: nat) -> StatsTable {
    if hours <= 24 {
        StatsTable::OneMinute
    } else if hours <= 24 * 7 {
        StatsTable::FiveMinutes
    } else if hours <= 24 * 30 {
        StatsTable::OneHour
    } else {
        StatsTable::OneDay
    }
}

/// What a query for statistics about the span `from_to` reads: all rows of the
/// coarsest table where no span is given, else the rows of that span from the
/// table that suits its length.
pub open spec fn query_for(from_to: Option<(Timestamp, Timestamp)>) -> StatsQuery {
    match from_to {
        Some((from, to)) => StatsQuery {
            table: table_for(span_hours(from, to)),
            bounds: Some((from, to)),
        },
        None => StatsQuery { table: StatsTable::OneDay, bounds: None },
    }
}

/// What a query for statistics about the span `from_to` reads; see [`query_for`].
pub fn get_stats(from_to: Option<(Timestamp, Timestamp)>) -> (query: StatsQuery)
    ensures
        query == query_for(from_to),
{
    match from_to {
        Some((from, to)) => {
            let hours: u128 = to.wait_from(from).whole_hours();
            let table = if hours <= 24 {
                StatsTable::OneMinute
            } else if hours <= 24 * 7 {
                StatsTable::FiveMinutes
            } else if hours <= 24 * 30 {
                StatsTable::OneHour
            } else {
                StatsTable::OneDay
            };
            StatsQuery { table, bounds: Some((from, to)) }
        },
        None => StatsQuery { table: StatsTable::OneDay, bounds: None },
    }
}

impl StatsTable {
    /// The table's name in the database.
    pub fn name(&self) -> (name: &'static str)
        ensures
            *self is OneMinute ==> name@ == "connections_1min"@,
            *self is FiveMinutes ==> name@ == "connections_5min"@,
            *self is OneHour ==> name@ == "connections_1h"@,
            *self is OneDay ==> name@ == "connections_1day"@,
    {
        match self {
            StatsTable::OneMinute => "connections_1min",
            StatsTable::FiveMinutes => "connections_5min",
            StatsTable::OneHour => "connections_1h",
            StatsTable::OneDay => "connections_1day",
        }
    }
}

} // verus!
