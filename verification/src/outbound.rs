//! The outbound pipeline: logical, concrete and endpoint targets.
//!
//! An outbound request is keyed by a logical destination resolved from its
//! headers, split into weighted concrete destinations by the profile, and
//! finally dispatched to a discovered endpoint.  The decisions live here;
//! connecting and resolving are fed in from outside.

use crate::addr::Addr;
use crate::addr::InetAddr;
use crate::addr::NameAddr;
use crate::config::ExponentialBackoff;
use crate::errors::ErrorKind;
use crate::profiles::Receiver;
use vstd::prelude::*;

verus! {

/// Endpoint metadata carried by discovery.
#[derive(Clone, Debug, PartialEq, Eq)]
pub struct Metadata {
    pub identity: Option<Vec<u8>>,
    pub authority_override: Option<NameAddr>,
    pub protocol_h2: bool,
}

impl Metadata {
    /// Metadata that promises nothing.
    pub fn empty() -> (r: Metadata)
        ensures
            r.identity is None,
            r.authority_override is None,
            !r.protocol_h2,
    {
        Metadata { identity: None, authority_override: None, protocol_h2: false }
    }
}

/// A routable logical destination and the socket it was accepted for.
#[derive(Clone, Debug, PartialEq, Eq)]
pub struct Logical {
    pub dst: Addr,
    pub orig_target: InetAddr,
}

impl Logical {
    /// The destination this logical routes to.
    pub fn addr(&self) -> (r: &Addr)
        ensures
            r == self.dst,
    {
        &self.dst
    }
}

/// A concrete split target within a logical destination.
#[derive(Clone, Debug, PartialEq, Eq)]
pub struct Concrete {
    pub dst: Addr,
    pub logical: Logical,
}

impl Concrete {
    /// The concrete destination `dst` within `profile`'s logical.
    pub fn from_profile(dst: Addr, profile: Profile) -> (r: Concrete)
        ensures
            r.dst == dst,
            r.logical == profile.logical,
    {
        Concrete { dst, logical: profile.logical }
    }
}

/// A logical destination together with its live profile watch.
#[derive(Clone, Debug, PartialEq, Eq)]
pub struct Profile {
    pub rx: Receiver,
    pub logical: Logical,
}

impl Profile {
    /// Joins a profile watch with the logical it configures.
    pub fn new(rx: Receiver, logical: Logical) -> (r: Profile)
        ensures
            r.rx == rx,
            r.logical == logical,
    {
        Profile { rx, logical }
    }
}

/// A resolved HTTP endpoint.
#[derive(Clone, Debug, PartialEq, Eq)]
pub struct HttpEndpoint {
    pub addr: InetAddr,
    pub identity: Option<Vec<u8>>,
    pub metadata: Metadata,
    pub concrete: Concrete,
}

/// A resolved opaque TCP endpoint.
#[derive(Clone, Debug, PartialEq, Eq)]
pub struct TcpEndpoint {
    pub addr: InetAddr,
    pub identity: Option<Vec<u8>>,
}

impl TcpEndpoint {
    /// The forward endpoint for a logical with no usable profile.
    pub fn from_logical(logical: &Logical) -> (r: TcpEndpoint)
        ensures
            r.addr == logical.orig_target,
            r.identity is None,
    {
        TcpEndpoint { addr: logical.orig_target, identity: None }
    }
}

/// Maps a discovered address and its metadata into an HTTP endpoint.
#[derive(Clone, Copy, Debug, Default, PartialEq, Eq, Structural)]
pub struct FromMetadata;

impl FromMetadata {
    /// The endpoint for `addr` within `concrete`: the TLS identity comes
    /// from discovery metadata, and an endpoint without one stays
    /// unauthenticated.
    pub fn map_endpoint(&self, concrete: Concrete, addr: InetAddr, metadata: Metadata) -> (r:
        HttpEndpoint)
        ensures
            r.addr == addr,
            match &metadata.identity {
                Some(id) => r.identity matches Some(v) && v@ == id@,
                None => r.identity is None,
            },
            r.metadata == metadata,
            r.concrete == concrete,
    {
        let identity = match &metadata.identity {
            Some(id) => Some(crate::addr::clone_bytes(id)),
            None => None,
        };
        HttpEndpoint { addr, identity, metadata, concrete }
    }
}

/// Builds the logical key for each request.
#[derive(Clone, Copy, Debug, PartialEq, Eq, Structural)]
pub struct LogicalPerRequest(pub InetAddr);

impl LogicalPerRequest {
    /// The logical destination of a request, in priority order: the
    /// dst-override header, then the request authority, then the `Host`
    /// header, and finally the accepted socket destination.
    pub fn recognize(&self, dst_override: Option<Addr>, authority: Option<Addr>, host: Option<
        Addr,
    >) -> (r: Logical)
        ensures
            r.orig_target == self.0,
            r.dst == (match dst_override {
                Some(a) => a,
                None => match authority {
                    Some(a) => a,
                    None => match host {
                        Some(a) => a,
                        None => Addr::Sock(self.0),
                    },
                },
            }),
    {
        let dst = match dst_override {
            Some(a) => a,
            None => match authority {
                Some(a) => a,
                None => match host {
                    Some(a) => a,
                    None => Addr::Sock(self.0),
                },
            },
        };
        Logical { dst, orig_target: self.0 }
    }
}

/// The route key for a matched profile route on the outbound side: the
/// logical name of the profile's target, or a bare port for a socket
/// target.
pub fn route(route_spec: crate::profiles::RouteSpec, profile: &Profile) -> (r: crate::dst::Route)
    ensures
        r.route == route_spec,
        r.direction == crate::dst::Direction::Out,
        match &profile.logical.dst {
            Addr::Name(na) => r.addr.host@ == na.host@ && r.addr.port == na.port,
            Addr::Sock(sa) => r.addr.host@.len() == 0 && r.addr.port == sa.port,
        },
{
    let addr = match &profile.logical.dst {
        Addr::Name(na) => NameAddr { host: crate::addr::clone_bytes(&na.host), port: na.port },
        Addr::Sock(sa) => NameAddr { host: Vec::new(), port: sa.port },
    };
    crate::dst::Route::outbound(route_spec, addr)
}

/// Where a TCP connection to a logical destination goes.
#[derive(Clone, Debug, PartialEq, Eq)]
pub enum TcpRoute {
    /// The profile resolved a canonical logical address: balance over the
    /// discovered endpoints of the named service.
    Balance(TcpProfile),
    /// No profile or no canonical address: forward to the original
    /// destination directly.
    Forward(TcpEndpoint),
}

/// The balanced path's target: the canonical address, its watch and the
/// original destination.
#[derive(Clone, Debug, PartialEq, Eq)]
pub struct TcpProfile {
    pub addr: NameAddr,
    pub profile: Receiver,
    pub orig_dst: InetAddr,
}

/// The switch of the logical TCP stack: a logical with a profile whose
/// snapshot names a canonical address takes the balanced path; any other
/// logical is forwarded to its original destination.
pub fn tcp_logical_route(logical: &Logical, profile: Option<Receiver>) -> (r: TcpRoute)
    ensures
        match &profile {
            Some(rx) => match &rx.current.logical_addr {
                Some(na) => r matches TcpRoute::Balance(p) && p.addr.host@ == na.host@
                    && p.addr.port == na.port && p.profile == rx && p.orig_dst
                    == logical.orig_target,
                None => r == TcpRoute::Forward(
                    TcpEndpoint { addr: logical.orig_target, identity: None },
                ),
            },
            None => r == TcpRoute::Forward(
                TcpEndpoint { addr: logical.orig_target, identity: None },
            ),
        },
{
    match profile {
        Some(rx) => {
            let has_addr = rx.current.logical_addr.is_some();
            if has_addr {
                let addr = match &rx.current.logical_addr {
                    Some(na) => NameAddr {
                        host: crate::addr::clone_bytes(&na.host),
                        port: na.port,
                    },
                    None => NameAddr { host: Vec::new(), port: 0 },
                };
                proof {
                    assert(rx.current.logical_addr matches Some(na) ==> addr.host@ == na.host@
                        && addr.port == na.port);
                }
                TcpRoute::Balance(
                    TcpProfile { addr, profile: rx, orig_dst: logical.orig_target },
                )
            } else {
                TcpRoute::Forward(TcpEndpoint::from_logical(logical))
            }
        },
        None => TcpRoute::Forward(TcpEndpoint::from_logical(logical)),
    }
}

/// The outbound proxy: a connect stack and the settings its layers use.
#[derive(Clone, Debug)]
pub struct Outbound<S> {
    pub stack: S,
    pub dispatch_timeout_ms: u64,
    pub buffer_capacity: usize,
    pub cache_max_idle_age_ms: u64,
}

/// The logical TCP stack: the connect stack and an endpoint resolver
/// under the per-logical cache, buffer and fail-fast settings, switched
/// per logical by `route`.
#[derive(Clone, Debug)]
pub struct TcpLogical<S, R> {
    pub connect: S,
    pub resolve: R,
    pub dispatch_timeout_ms: u64,
    pub buffer_capacity: usize,
    pub cache_max_idle_age_ms: u64,
}

impl<S> Outbound<S> {
    /// Pushes the logical TCP stack over the connect stack: discovered
    /// endpoints are balanced behind a fail-fast of the dispatch timeout,
    /// a buffer of the configured capacity and the idle-evicting cache,
    /// while a logical without a usable profile forwards directly.
    pub fn push_tcp_logical<R>(self, resolve: R) -> (r: Outbound<TcpLogical<S, R>>)
        ensures
            r.stack.connect == self.stack,
            r.stack.resolve == resolve,
            r.stack.dispatch_timeout_ms == self.dispatch_timeout_ms,
            r.stack.buffer_capacity == self.buffer_capacity,
            r.stack.cache_max_idle_age_ms == self.cache_max_idle_age_ms,
            r.dispatch_timeout_ms == self.dispatch_timeout_ms,
            r.buffer_capacity == self.buffer_capacity,
            r.cache_max_idle_age_ms == self.cache_max_idle_age_ms,
    {
        Outbound {
            stack: TcpLogical {
                connect: self.stack,
                resolve,
                dispatch_timeout_ms: self.dispatch_timeout_ms,
                buffer_capacity: self.buffer_capacity,
                cache_max_idle_age_ms: self.cache_max_idle_age_ms,
            },
            dispatch_timeout_ms: self.dispatch_timeout_ms,
            buffer_capacity: self.buffer_capacity,
            cache_max_idle_age_ms: self.cache_max_idle_age_ms,
        }
    }
}

impl<S, R> TcpLogical<S, R> {
    /// The switch of this stack, per logical: see `tcp_logical_route`.
    pub fn route(&self, logical: &Logical, profile: Option<Receiver>) -> (r: TcpRoute)
        ensures
            match &profile {
                Some(rx) => match &rx.current.logical_addr {
                    Some(na) => r matches TcpRoute::Balance(p) && p.addr.host@ == na.host@
                        && p.addr.port == na.port && p.profile == rx && p.orig_dst
                        == logical.orig_target,
                    None => r == TcpRoute::Forward(
                        TcpEndpoint { addr: logical.orig_target, identity: None },
                    ),
                },
                None => r == TcpRoute::Forward(
                    TcpEndpoint { addr: logical.orig_target, identity: None },
                ),
            },
    {
        tcp_logical_route(logical, profile)
    }
}

/// What the reconnect loop does after a failed connect attempt: while the
/// next backoff delay still fits inside the dispatch window it retries
/// after that delay; once the window would be overrun the caller is given
/// the bad-gateway I/O error.
#[derive(Clone, Copy, Debug, PartialEq, Eq, Structural)]
pub enum ReconnectStep {
    RetryAfter(u64),
    GiveUp(ErrorKind),
}

/// Decides one step of the reconnect loop for attempt `attempt`, with
/// `elapsed_ms` already spent since dispatch began.
pub fn reconnect_decision(backoff: &ExponentialBackoff, attempt: u32, elapsed_ms: u64,
    dispatch_timeout_ms: u64) -> (r: ReconnectStep)
    requires
        backoff.wf(),
    ensures
        ({
            let delay = crate::config::spec_backoff_delay(backoff.min_ms, backoff.max_ms,
                attempt as nat);
            if elapsed_ms + delay < dispatch_timeout_ms {
                r == ReconnectStep::RetryAfter(delay as u64)
            } else {
                r == ReconnectStep::GiveUp(ErrorKind::Io)
            }
        }),
{
    let delay = backoff.delay_ms(attempt);
    if elapsed_ms <= u64::MAX - delay && elapsed_ms + delay < dispatch_timeout_ms {
        ReconnectStep::RetryAfter(delay)
    } else {
        ReconnectStep::GiveUp(ErrorKind::Io)
    }
}

} // verus!
