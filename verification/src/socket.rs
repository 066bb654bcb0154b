//! Socket endpoints: an address together with a port.

use crate::ip::Address;
use vstd::prelude::*;

verus! {

/// An address and a port.
#[derive(Debug, Clone, Copy, PartialEq, Eq, Hash)]
pub struct SocketEndpoint {
    pub address: Address,
    pub port: u16,
}

impl SocketEndpoint {
    /// The endpoint at `port` of `address`.
    pub fn new(address: Address, port: u16) -> (endpoint: SocketEndpoint)
        ensures
            endpoint == (SocketEndpoint { address, port }),
    {
        SocketEndpoint { address, port }
    }

    /// The address of the endpoint.
    pub fn ip(&self) -> (address: Address)
        ensures
            address == self.address,
    {
        self.address
    }

    /// The port of the endpoint.
    pub fn port(&self) -> (port: u16)
        ensures
            port == self.port,
    {
        self.port
    }
}

} // verus!
