//! The core of an SSH tarpit: pacing, admission and accounting for connections
//! that are fed an endless, slow stream of banner-like lines.
//!
//! The library decides and keeps accounts; it neither waits nor touches a socket.
//! The acceptor's part is in [`listener`], the scheduler in [`scheduler`] on top
//! of [`client_queue`], the lines in [`line`], the totals in [`statistics`], and
//! the order of the shutdown in [`supervisor`]. What the dashboard and its
//! database need worked out is in [`events`], [`db`], [`geoip`] and [`router`].

pub mod client;
pub mod client_order;
pub mod client_queue;
pub mod config;
pub mod db;
pub mod events;
pub mod ffi_wrapper;
pub mod geoip;
pub mod line;
pub mod listener;
pub mod net;
pub mod router;
pub mod scheduler;
pub mod statistics;
pub mod supervisor;
pub mod tally;
pub mod test_utils;
pub mod text;
pub mod timing;
pub mod traits;
pub mod utils;
