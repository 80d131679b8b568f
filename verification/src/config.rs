//! The settings of a run. They are checked once and then only read.

use vstd::prelude::*;
use crate::line::MIN_LINE_LENGTH;
use crate::net::IpAddress;
use crate::timing::Duration;

verus! {

/// The port that is listened on unless another is asked for.
pub const DEFAULT_PORT: u16 = 22;

/// Seconds that a client waits between two lines unless another delay is asked
/// for.
pub const DEFAULT_DELAY_SECONDS: u64 = 10;

/// The longest line, in bytes, unless another length is asked for.
pub const DEFAULT_MAX_LINE_LENGTH: usize = 32;

/// The number of clients admitted at a time unless another is asked for.
pub const DEFAULT_MAX_CLIENTS: usize = 4096;

/// The longest line that can be asked for, in bytes.
pub const MAX_LINE_LENGTH_LIMIT: usize = 255;

/// The settings of a run.
#[derive(Clone, Copy, Debug, PartialEq, Eq, Structural)]
pub struct Config {
    /// The port to listen on.
    pub port: u16,
    /// The time that a client waits between two lines.
    pub delay: Duration,
    /// The longest line, in bytes, line ending included.
    pub max_line_length: usize,
    /// The number of clients admitted at a time.
    pub max_clients: usize,
    /// The address to listen on.
    pub bind_addr: IpAddress,
}

/// Why settings were refused.
#[derive(Clone, Copy, Debug, PartialEq, Eq, Structural)]
pub enum ConfigError {
    /// The longest line is shorter than a line can be, or longer than can be asked
    /// for.
    MaxLineLengthOutOfRange,
    /// No client could ever be admitted.
    NoClients,
}

impl Config {
    /// Whether the settings can be run with: the longest line is between 3 and 255
    /// bytes, and at least one client is admitted at a time.
    pub open spec fn valid(self) -> bool {
        &&& MIN_LINE_LENGTH <= self.max_line_length <= MAX_LINE_LENGTH_LIMIT
        &&& self.max_clients >= 1
    }

    /// The settings of a run for which nothing was asked.
    pub open spec fn spec_default() -> Config {
        Config {
            port: DEFAULT_PORT,
            delay: Duration { nanos: 10_000_000_000 },
            max_line_length: DEFAULT_MAX_LINE_LENGTH,
            max_clients: DEFAULT_MAX_CLIENTS,
            bind_addr: IpAddress::V4(0),
        }
    }

    /// Why `max_line_length` and `max_clients` are refused, if they are. Where
    /// both are to be refused, the line length is named.
    pub open spec fn refusal(max_line_length: usize, max_clients: usize) -> Option<ConfigError> {
        if max_line_length < MIN_LINE_LENGTH || max_line_length > MAX_LINE_LENGTH_LIMIT {
            Some(ConfigError::MaxLineLengthOutOfRange)
        } else if max_clients < 1 {
            Some(ConfigError::NoClients)
        } else {
            None
        }
    }

    /// The settings made of what was asked for, or why they are refused.
    pub fn new(
        port: u16,
        delay: Duration,
        max_line_length: usize,
        max_clients: usize,
        bind_addr: IpAddress,
    ) -> (result: Result<Config, ConfigError>)
        ensures
            Self::refusal(max_line_length, max_clients) is None ==> result == Ok::<
                Config,
                ConfigError,
            >(Config { port, delay, max_line_length, max_clients, bind_addr }),
            Self::refusal(max_line_length, max_clients) is Some ==> result == Err::<
                Config,
                ConfigError,
            >(Self::refusal(max_line_length, max_clients)->Some_0),
            result is Ok ==> result->Ok_0.valid(),
    {
        if max_line_length < MIN_LINE_LENGTH || max_line_length > MAX_LINE_LENGTH_LIMIT {
            Err(ConfigError::MaxLineLengthOutOfRange)
        } else if max_clients < 1 {
            Err(ConfigError::NoClients)
        } else {
            Ok(Config { port, delay, max_line_length, max_clients, bind_addr })
        }
    }
}

impl Default for Config {
    /// The settings of a run for which nothing was asked.
    fn default() -> (config: Config)
        ensures
            config == Config::spec_default(),
            config.valid(),
    {
        Config {
            port: DEFAULT_PORT,
            delay: Duration::from_secs(DEFAULT_DELAY_SECONDS),
            max_line_length: DEFAULT_MAX_LINE_LENGTH,
            max_clients: DEFAULT_MAX_CLIENTS,
            bind_addr: IpAddress::V4(0),
        }
    }
}

} // verus!
