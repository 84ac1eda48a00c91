//! The HTTP client selector: one connector, two protocols.
//!
//! A client is built per target; the target's HTTP version decides
//! whether requests ride an HTTP/1 connection or an HTTP/2 one.

use crate::config::H2Settings;
use crate::detect::HttpVersion;
use vstd::prelude::*;

verus! {

/// A layer holding the HTTP/2 settings until a connector arrives.
#[derive(Clone, Copy, Debug, PartialEq, Eq, Structural)]
pub struct MakeClientLayer {
    pub h2_settings: H2Settings,
}

impl MakeClientLayer {
    /// The client layer with the given HTTP/2 settings.
    pub fn new(h2_settings: H2Settings) -> (r: MakeClientLayer)
        ensures
            r.h2_settings == h2_settings,
    {
        MakeClientLayer { h2_settings }
    }

    /// Wraps a connector into a client factory.
    pub fn layer<C>(&self, connect: C) -> (r: MakeClient<C>)
        ensures
            r.connect == connect,
            r.h2_settings == self.h2_settings,
    {
        MakeClient { connect, h2_settings: self.h2_settings }
    }
}

/// Builds a client speaking either HTTP/1 or HTTP/2.
#[derive(Clone, Debug)]
pub struct MakeClient<C> {
    pub connect: C,
    pub h2_settings: H2Settings,
}

/// A client bound to one protocol over its connector.
#[derive(Clone, Debug)]
pub enum Client<C> {
    Http1 { connect: C },
    Http2 { connect: C, h2_settings: H2Settings },
}

impl<C> MakeClient<C> {
    /// Builds the client for a target: HTTP/1 targets get an HTTP/1
    /// client, HTTP/2 targets an HTTP/2 connection with the configured
    /// settings.
    pub fn call(self, version: HttpVersion) -> (r: Client<C>)
        ensures
            match version {
                HttpVersion::Http1 => r matches Client::Http1 { connect } && connect
                    == self.connect,
                HttpVersion::H2 => r matches Client::Http2 { connect, h2_settings } && connect
                    == self.connect && h2_settings == self.h2_settings,
            },
    {
        match version {
            HttpVersion::Http1 => Client::Http1 { connect: self.connect },
            HttpVersion::H2 => Client::Http2 {
                connect: self.connect,
                h2_settings: self.h2_settings,
            },
        }
    }
}

/// Downgrades the transport protocol when a peer's outbound proxy had
/// upgraded it: a request advertising its original protocol is served at
/// that protocol, any other request keeps the connection's version.
pub fn orig_proto_downgrade(current: HttpVersion, advertised: Option<HttpVersion>) -> (r:
    HttpVersion)
    ensures
        r == (match advertised {
            Some(orig) => orig,
            None => current,
        }),
{
    match advertised {
        Some(orig) => orig,
        None => current,
    }
}

impl<C> Client<C> {
    /// The version this client speaks.
    pub fn version(&self) -> (v: HttpVersion)
        ensures
            v == (match self {
                Client::Http1 { .. } => HttpVersion::Http1,
                Client::Http2 { .. } => HttpVersion::H2,
            }),
    {
        match self {
            Client::Http1 { .. } => HttpVersion::Http1,
            Client::Http2 { .. } => HttpVersion::H2,
        }
    }
}

} // verus!
