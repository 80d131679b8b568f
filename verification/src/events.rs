//! What the tarpit tells the rest of the program about its clients.

use vstd::prelude::*;
use crate::db::{stored_bytes, ConnectionRecord};
use crate::geoip::{Coordinate, GeoInfo};
use crate::net::{IpAddress, SocketAddress};
use crate::timing::{Duration, Timestamp};

verus! {

/// An event on the internal event bus.
#[derive(Clone, Copy, Debug, PartialEq, Eq, Structural)]
pub enum ClientEvent {
    /// A client was admitted.
    Connected {
        /// The client's IP address.
        ip: IpAddress,
        /// The client's address.
        addr: SocketAddress,
        /// When the client was admitted.
        connected_at: Timestamp,
    },
    /// A client is gone.
    Disconnected {
        /// The client's address.
        addr: SocketAddress,
        /// When the client was admitted.
        connected_at: Timestamp,
        /// When the client was let go.
        disconnected_at: Timestamp,
        /// The delays that the client has sat through.
        time_spent: Duration,
        /// The bytes that were written to the client.
        bytes_sent: usize,
    },
}

/// The event that tells of a client from `addr` admitted at `connected_at`.
pub open spec fn connected(addr: SocketAddress, connected_at: int) -> ClientEvent {
    ClientEvent::Connected {
        ip: addr.ip,
        addr,
        connected_at: Timestamp { nanos: connected_at as i128 },
    }
}

/// The event that tells of a client from `addr` that was admitted at
/// `connected_at` and let go at `disconnected_at`, after it had sat through
/// `time_spent` and had been sent `bytes_sent` bytes.
pub open spec fn disconnected(
    addr: SocketAddress,
    connected_at: int,
    disconnected_at: int,
    time_spent: nat,
    bytes_sent: nat,
) -> ClientEvent {
    ClientEvent::Disconnected {
        addr,
        connected_at: Timestamp { nanos: connected_at as i128 },
        disconnected_at: Timestamp { nanos: disconnected_at as i128 },
        time_spent: Duration { nanos: time_spent as u128 },
        bytes_sent: bytes_sent as usize,
    }
}

impl ClientEvent {
    /// The address of the client that the event is about.
    pub open spec fn spec_addr(self) -> SocketAddress {
        match self {
            ClientEvent::Connected { addr, .. } => addr,
            ClientEvent::Disconnected { addr, .. } => addr,
        }
    }

    /// The address of the client that the event is about.
    #[verifier::when_used_as_spec(spec_addr)]
    pub fn addr(self) -> (addr: SocketAddress)
        ensures
            addr == self.spec_addr(),
    {
        match self {
            ClientEvent::Connected { addr, .. } => addr,
            ClientEvent::Disconnected { addr, .. } => addr,
        }
    }
}

/// A client that is connected right now, as the dashboard shows it.
#[derive(Clone, Debug)]
pub struct ActiveConnectionInfo {
    /// The client's IP address, written out.
    pub ip: String,
    /// When the client was admitted.
    pub connected_at: Timestamp,
    /// The latitude of where the client is.
    pub lat: Option<Coordinate>,
    /// The longitude of where the client is.
    pub lon: Option<Coordinate>,
    /// Two-letter country code of ISO 3166-1.
    pub country_code: Option<String>,
}

/// What is sent to the dashboard's live feeds.
#[derive(Clone, Debug)]
pub enum WsEvent {
    /// The clients that are connected when the feed is opened.
    Init {
        /// The clients.
        active_connections: Vec<ActiveConnectionInfo>,
    },
    /// All stored connections that were asked for have been replayed.
    Ready,
    /// A client was admitted.
    Connected {
        /// The client's IP address, written out.
        ip: String,
        /// When the client was admitted.
        connected_at: Timestamp,
        /// The latitude of where the client is.
        lat: Option<Coordinate>,
        /// The longitude of where the client is.
        lon: Option<Coordinate>,
    },
    /// A client is gone and its connection was stored.
    Disconnected {
        /// The sequence number of the stored connection.
        seq: i64,
        /// The client's IP address, written out.
        ip: String,
        /// When the client was admitted.
        connected_at: Timestamp,
        /// When the client was let go.
        disconnected_at: Timestamp,
        /// The delays that the client has sat through.
        time_spent: Duration,
        /// The bytes that were written to the client.
        bytes_sent: usize,
        /// Two-letter country code of ISO 3166-1.
        country_code: Option<String>,
        /// The country's name in English.
        country_name: Option<String>,
        /// The city's name in English.
        city: Option<String>,
        /// The latitude of where the client is.
        lat: Option<Coordinate>,
        /// The longitude of where the client is.
        lon: Option<Coordinate>,
    },
}

/// The latitude that `geo` gives, if anything is known and a latitude is.
pub open spec fn latitude_of(geo: Option<GeoInfo>) -> Option<Coordinate> {
    match geo {
        Some(info) => info.latitude,
        None => None,
    }
}

/// The longitude that `geo` gives, if anything is known and a longitude is.
pub open spec fn longitude_of(geo: Option<GeoInfo>) -> Option<Coordinate> {
    match geo {
        Some(info) => info.longitude,
        None => None,
    }
}

/// The country code that `geo` gives, if anything is known and a country is.
pub open spec fn country_code_of(geo: Option<GeoInfo>) -> Option<String> {
    match geo {
        Some(info) => info.country_code,
        None => None,
    }
}

/// The country's name that `geo` gives, if anything is known and a country is.
pub open spec fn country_name_of(geo: Option<GeoInfo>) -> Option<String> {
    match geo {
        Some(info) => info.country_name,
        None => None,
    }
}

/// The city that `geo` gives, if anything is known and a city is.
pub open spec fn city_of(geo: Option<GeoInfo>) -> Option<String> {
    match geo {
        Some(info) => info.city,
        None => None,
    }
}

/// How the dashboard shows a client from the address that `ip` spells, admitted
/// at `connected_at`, of whose address `geo` is known.
pub fn connection_info(ip: String, connected_at: Timestamp, geo: Option<GeoInfo>) -> (info:
    ActiveConnectionInfo)
    ensures
        info.ip == ip,
        info.connected_at == connected_at,
        info.lat == latitude_of(geo),
        info.lon == longitude_of(geo),
        info.country_code == country_code_of(geo),
{
    match geo {
        Some(known) => ActiveConnectionInfo {
            ip,
            connected_at,
            lat: known.latitude,
            lon: known.longitude,
            country_code: known.country_code,
        },
        None => ActiveConnectionInfo { ip, connected_at, lat: None, lon: None, country_code: None },
    }
}

impl ActiveConnectionInfo {
    /// What the live feeds are sent when this client was admitted.
    pub fn connected_event(&self) -> (event: WsEvent)
        ensures
            event matches WsEvent::Connected { ip, connected_at, lat, lon } && ip == self.ip
                && connected_at == self.connected_at && lat == self.lat && lon == self.lon,
    {
        WsEvent::Connected {
            ip: self.ip.clone(),
            connected_at: self.connected_at,
            lat: self.lat,
            lon: self.lon,
        }
    }
}

/// What the live feeds are sent when a client is gone and its connection was
/// stored under the number `seq`.
pub fn disconnected_event(
    seq: i64,
    ip: String,
    connected_at: Timestamp,
    disconnected_at: Timestamp,
    time_spent: Duration,
    bytes_sent: usize,
    geo: Option<GeoInfo>,
) -> (event: WsEvent)
    ensures
        event matches WsEvent::Disconnected {
            seq: s,
            ip: i,
            connected_at: c,
            disconnected_at: d,
            time_spent: t,
            bytes_sent: b,
            country_code,
            country_name,
            city,
            lat,
            lon,
        } && s == seq && i == ip && c == connected_at && d == disconnected_at && t == time_spent
            && b == bytes_sent && country_code == country_code_of(geo) && country_name
            == country_name_of(geo) && city == city_of(geo) && lat == latitude_of(geo) && lon
            == longitude_of(geo),
{
    match geo {
        Some(known) => WsEvent::Disconnected {
            seq,
            ip,
            connected_at,
            disconnected_at,
            time_spent,
            bytes_sent,
            country_code: known.country_code,
            country_name: known.country_name,
            city: known.city,
            lat: known.latitude,
            lon: known.longitude,
        },
        None => WsEvent::Disconnected {
            seq,
            ip,
            connected_at,
            disconnected_at,
            time_spent,
            bytes_sent,
            country_code: None,
            country_name: None,
            city: None,
            lat: None,
            lon: None,
        },
    }
}

/// What the live feeds are sent when the stored connection `record`, of a client
/// from the address that `ip` spells, is replayed.
pub fn replayed_event(record: ConnectionRecord, ip: String) -> (event: WsEvent)
    ensures
        event matches WsEvent::Disconnected {
            seq: s,
            ip: i,
            connected_at: c,
            disconnected_at: d,
            time_spent: t,
            bytes_sent: b,
            country_code,
            country_name,
            city,
            lat,
            lon,
        } && s == record.id && i == ip && c == record.connected_at && d == record.disconnected_at
            && t == record.time_spent && b == (if 0 <= record.bytes_sent <= usize::MAX {
            record.bytes_sent as usize
        } else {
            0usize
        }) && country_code == record.country_code && country_name == record.country_name && city
            == record.city && lat == record.latitude && lon == record.longitude,
{
    WsEvent::Disconnected {
        seq: record.id,
        ip,
        connected_at: record.connected_at,
        disconnected_at: record.disconnected_at,
        time_spent: record.time_spent,
        bytes_sent: stored_bytes(record.bytes_sent),
        country_code: record.country_code,
        country_name: record.country_name,
        city: record.city,
        lat: record.latitude,
        lon: record.longitude,
    }
}

impl WsEvent {
    /// The sequence number of the stored connection that the event tells of, if
    /// it tells of one.
    pub fn seq(&self) -> (seq: Option<i64>)
        ensures
            *self is Disconnected ==> seq == Some(self->Disconnected_seq),
            !(*self is Disconnected) ==> seq is None,
    {
        match self {
            WsEvent::Disconnected { seq, .. } => Some(*seq),
            _ => None,
        }
    }
}

} // verus!
