//! Helpers for writing values out.

pub mod pretty_formatter;
