//! Network connections owned by processes.
use vstd::prelude::*;

use crate::context::identity::{ConnectionKey, ProcessKey};

verus! {

/// Transport protocol of a socket.
#[derive(Debug, Clone, Copy, PartialEq, Eq, Structural, Hash)]
pub enum SocketProtocol {
    /// TCP.
    Tcp,
    /// UDP.
    Udp,
    /// Raw IP.
    Raw,
}

/// An IP address, by its octets.
#[derive(Debug, Clone, Copy, PartialEq, Eq, Hash)]
pub enum IpAddress {
    /// IPv4.
    V4([u8; 4]),
    /// IPv6.
    V6([u8; 16]),
}

/// An IP address and port.
#[derive(Debug, Clone, Copy, PartialEq, Eq, Hash)]
pub struct SocketAddress {
    /// The address.
    pub ip: IpAddress,
    /// The port.
    pub port: u16,
}

/// The address is a loopback address: `127.0.0.0/8` for IPv4, `::1` for IPv6.
pub open spec fn is_loopback_ip(ip: IpAddress) -> bool {
    match ip {
        IpAddress::V4(o) => o[0] == 127,
        IpAddress::V6(o) => (forall|i: int| 0 <= i < 15 ==> o[i] == 0) && o[15] == 1,
    }
}

impl IpAddress {
    /// The address is a loopback address (see [`is_loopback_ip`]).
    pub fn is_loopback(&self) -> (b: bool)
        ensures
            b == is_loopback_ip(*self),
    {
        match self {
            IpAddress::V4(o) => o[0] == 127,
            IpAddress::V6(o) => {
                let mut i: usize = 0;
                while i < 15
                    invariant
                        *self == IpAddress::V6(*o),
                        i <= 15,
                        forall|j: int| 0 <= j < i ==> o[j] == 0,
                    decreases 15 - i,
                {
                    if o[i] != 0 {
                        assert(o[i as int] != 0);
                        return false;
                    }
                    i = i + 1;
                }
                o[15] == 1
            },
        }
    }
}

impl SocketAddress {
    /// The address.
    pub fn ip(&self) -> (ip: IpAddress)
        ensures
            ip == self.ip,
    {
        self.ip
    }

    /// The port.
    pub fn port(&self) -> (p: u16)
        ensures
            p == self.port,
    {
        self.port
    }
}

/// One observed connection.
#[derive(Debug, Clone)]
pub struct NetworkConnection {
    /// Synthetic key of the connection.
    pub key: ConnectionKey,
    /// Key of the owning process.
    pub owner_process: ProcessKey,
    /// Transport protocol.
    pub protocol: SocketProtocol,
    /// Local endpoint.
    pub local_addr: SocketAddress,
    /// Remote endpoint.
    pub remote_addr: SocketAddress,
    /// When the connection was established.
    pub start_time: i64,
    /// When it closed, if it has.
    pub end_time: Option<i64>,
}

} // verus!
