//! The closed error taxonomy of the proxy core and the HTTP statuses
//! synthesized for errors that surface on an HTTP path.

use vstd::prelude::*;

verus! {

/// Why a connection had no server-side TLS.
#[derive(Clone, Copy, Debug, PartialEq, Eq, Hash, Structural)]
pub enum NoServerTls {
    /// Identity is administratively disabled.
    Disabled,
    /// The connection is a loopback connection which does not need TLS.
    Loopback,
    /// The target port is configured to skip protocol detection.
    PortSkipped,
    /// No TLS ClientHello was detected on the connection.
    NoClientHello,
}

/// The closed set of error kinds spoken by the inner layers of the proxy.
/// Only the HTTP server boundary turns a kind into a response status.
#[derive(Clone, Copy, Debug, PartialEq, Eq, Structural)]
pub enum ErrorKind {
    Io,
    Timeout,
    DetectFailed,
    TlsHandshake,
    IdentityRequired,
    DiscoveryRejected,
    NoAuthority,
    BadDomain,
    NotFound,
    GatewayLoop,
    LoadShed,
    FailFast,
    Cancelled,
    Internal,
}

/// The HTTP status synthesized for an error kind:
/// `NotFound`, `BadDomain` and `NoAuthority` map to 502,
/// `IdentityRequired` to 403, `GatewayLoop` to 502,
/// `LoadShed` and `FailFast` to 503 and `Timeout` to 504.
/// Every other kind tears the connection down as a bad gateway, 502.
pub open spec fn spec_http_status(kind: ErrorKind) -> u16 {
    match kind {
        ErrorKind::IdentityRequired => 403,
        ErrorKind::LoadShed => 503,
        ErrorKind::FailFast => 503,
        ErrorKind::Timeout => 504,
        _ => 502,
    }
}

/// Synthesizes the HTTP response status for an error kind.
pub fn http_status_of(kind: ErrorKind) -> (status: u16)
    ensures
        status == spec_http_status(kind),
{
    match kind {
        ErrorKind::IdentityRequired => 403,
        ErrorKind::LoadShed => 503,
        ErrorKind::FailFast => 503,
        ErrorKind::Timeout => 504,
        _ => 502,
    }
}

/// The connection was neither opaque-transport nor HTTP on the direct path.
#[derive(Clone, Copy, Debug, Default, PartialEq, Eq, Structural)]
pub struct NonOpaqueRefused;

impl NonOpaqueRefused {
    /// The kind surfaced when a direct connection carries no known preamble:
    /// the connection is refused as an I/O error.
    pub fn kind(&self) -> (kind: ErrorKind)
        ensures
            kind == ErrorKind::Io,
    {
        ErrorKind::Io
    }
}

} // verus!
