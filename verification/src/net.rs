//! Addresses of the remote ends of connections, as plain numbers.

use vstd::prelude::*;

verus! {

/// An IP address, held as the number that its bytes spell in network order.
#[derive(Clone, Copy, Debug, PartialEq, Eq, Structural)]
pub enum IpAddress {
    /// An IPv4 address: 32 bits.
    V4(u32),
    /// An IPv6 address: 128 bits.
    V6(u128),
}

/// The remote end of a connection: an IP address and a port.
#[derive(Clone, Copy, Debug, PartialEq, Eq, Structural)]
pub struct SocketAddress {
    /// The IP address.
    pub ip: IpAddress,
    /// The port.
    pub port: u16,
}

impl SocketAddress {
    /// The address made of `ip` and `port`.
    pub fn new(ip: IpAddress, port: u16) -> (addr: SocketAddress)
        ensures
            addr == (SocketAddress { ip, port }),
    {
        SocketAddress { ip, port }
    }

    /// The IP address.
    pub fn ip(&self) -> (ip: IpAddress)
        ensures
            ip == self.ip,
    {
        self.ip
    }

    /// The port.
    pub fn port(&self) -> (port: u16)
        ensures
            port == self.port,
    {
        self.port
    }
}

} // verus!
