//! The errors that validation and probing report.

use vstd::prelude::*;

verus! {

/// `std::io::Error`, the operating system's account of a failed call. The
/// library never looks inside one: it only carries the value from the failed
/// call to the caller.
#[verifier::external_type_specification]
#[verifier::external_body]
pub struct ExIoError(std::io::Error);

/// Errors reported by this crate.
#[derive(Debug)]
#[non_exhaustive]
pub enum NetSemError {
    /// The text is not an IP address literal.
    InvalidIp(String),
    /// The text is not a socket address of the form `ip:port` or `[ip]:port`.
    InvalidSocketAddr(String),
    /// The port is not acceptable.
    InvalidPort(u16),
    /// A bind probe failed.
    BindFailed {
        /// The endpoint that the probe tried to bind to, as text.
        addr: String,
        /// The operating system's error.
        source: std::io::Error,
    },
    /// A connect probe failed.
    ConnectFailed {
        /// The endpoint that the probe tried to connect to, as text.
        addr: String,
        /// The operating system's error.
        source: std::io::Error,
    },
}

/// What an error says: the error with each text as a sequence of characters.
pub enum ErrorView {
    /// The text is not an IP address literal.
    InvalidIp(Seq<char>),
    /// The text is not a socket address.
    InvalidSocketAddr(Seq<char>),
    /// The port is not acceptable.
    InvalidPort(u16),
    /// A bind probe failed at the endpoint `addr`, for the reason `source`.
    BindFailed { addr: Seq<char>, source: std::io::Error },
    /// A connect probe failed at the endpoint `addr`, for the reason `source`.
    ConnectFailed { addr: Seq<char>, source: std::io::Error },
}

impl View for NetSemError {
    type V = ErrorView;

    open spec fn view(&self) -> ErrorView {
        match *self {
            NetSemError::InvalidIp(text) => ErrorView::InvalidIp(text@),
            NetSemError::InvalidSocketAddr(text) => ErrorView::InvalidSocketAddr(text@),
            NetSemError::InvalidPort(port) => ErrorView::InvalidPort(port),
            NetSemError::BindFailed { addr, source } => ErrorView::BindFailed {
                addr: addr@,
                source,
            },
            NetSemError::ConnectFailed { addr, source } => ErrorView::ConnectFailed {
                addr: addr@,
                source,
            },
        }
    }
}

} // verus!
