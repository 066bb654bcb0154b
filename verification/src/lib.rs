//! Network semantics: classification and validation of IP addresses, ports
//! and socket endpoints.

pub mod error;
pub mod ip;
pub mod port;
pub mod probe;
pub mod socket;

pub use error::NetSemError;
pub use ip::{classify_ip, Address, Family, IpClass, Ipv4Address, Ipv6Address};
pub use port::{classify_port, validate_port, validate_port_or_zero, PortClass};
pub use probe::{Probe, ProbeKind, ProbeStep, SocketCall, Transport};
pub use socket::SocketEndpoint;
