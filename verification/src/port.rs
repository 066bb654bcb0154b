//! Port validation and classification by IANA range.

use crate::error::NetSemError;
use vstd::prelude::*;

verus! {

/// IANA range of a port number.
#[derive(Debug, Clone, Copy, PartialEq, Eq, Hash, Structural)]
#[non_exhaustive]
pub enum PortClass {
    /// System ports (0-1023).
    System,
    /// User ports (1024-49151).
    User,
    /// Dynamic/Private ports (49152-65535).
    Dynamic,
}

/// The range that holds port `p`.
pub open spec fn port_class(p: u16) -> PortClass {
    if p <= 1023 {
        PortClass::System
    } else if p <= 49151 {
        PortClass::User
    } else {
        PortClass::Dynamic
    }
}

/// Classifies a port number into its IANA range.
#[must_use]
pub fn classify_port(p: u16) -> (class: PortClass)
    ensures
        class == port_class(p),
{
    if p < 1024 {
        PortClass::System
    } else if p < 49152 {
        PortClass::User
    } else {
        PortClass::Dynamic
    }
}

/// Whether `p` is acceptable as a port: every port is, but for port 0 where
/// the wildcard is not allowed.
pub open spec fn port_accepted(p: u16, allow_zero: bool) -> bool {
    allow_zero || p != 0
}

/// What validating port `p` gives: nothing to report for an acceptable port,
/// else the port itself as the invalid one.
pub open spec fn port_verdict(p: u16, allow_zero: bool) -> Result<(), NetSemError> {
    if port_accepted(p, allow_zero) {
        Ok(())
    } else {
        Err(NetSemError::InvalidPort(p))
    }
}

/// Validates a port number where port 0 is not allowed.
pub fn validate_port(p: u16) -> (r: Result<(), NetSemError>)
    ensures
        r == port_verdict(p, false),
{
    if p == 0 {
        return Err(NetSemError::InvalidPort(0));
    }
    Ok(())
}

/// Validates a port number where port 0, the wildcard for an ephemeral port,
/// is allowed: every port passes.
pub fn validate_port_or_zero(p: u16) -> (r: Result<(), NetSemError>)
    ensures
        r == port_verdict(p, true),
        r is Ok,
{
    let _ = p;
    Ok(())
}

/// The first and the last port of a range.
pub open spec fn port_range(class: PortClass) -> (int, int) {
    match class {
        PortClass::System => (0, 1023),
        PortClass::User => (1024, 49151),
        PortClass::Dynamic => (49152, 65535),
    }
}

/// Whether port `p` lies in the range of `class`.
pub open spec fn in_port_range(p: int, class: PortClass) -> bool {
    port_range(class).0 <= p <= port_range(class).1
}

/// The three ranges partition the ports: every port from 0 to 65535 lies in
/// one range, no port lies in two, and the class of a port is the range that
/// holds it.
pub proof fn lemma_port_ranges_partition(p: u16)
    ensures
        in_port_range(p as int, PortClass::System) || in_port_range(p as int, PortClass::User)
            || in_port_range(p as int, PortClass::Dynamic),
        !(in_port_range(p as int, PortClass::System) && in_port_range(p as int, PortClass::User)),
        !(in_port_range(p as int, PortClass::System) && in_port_range(
            p as int,
            PortClass::Dynamic,
        )),
        !(in_port_range(p as int, PortClass::User) && in_port_range(p as int, PortClass::Dynamic)),
        forall|class: PortClass| port_class(p) == class <==> in_port_range(p as int, class),
{
}

} // verus!
