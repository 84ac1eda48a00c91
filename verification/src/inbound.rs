//! The inbound pipeline: admission decisions for accepted connections.
//!
//! A connection entering the proxy passes a port-skip switch, TLS
//! detection, an identity requirement, a loop-prevention switch and HTTP
//! detection.  Each stage is a decision function here; the I/O that feeds
//! them lives outside the library.

use crate::addr::Addr;
use crate::addr::InetAddr;
use crate::addr::LOOPBACK_IP;
use crate::addr::Suffix;
use crate::config::ConnectConfig;
use crate::config::H2Settings;
use crate::config::ProxyConfig;
use crate::detect::HttpVersion;
use crate::errors::ErrorKind;
use crate::errors::NonOpaqueRefused;
use crate::ports::port_set_view;
use crate::tls::ConditionalServerTls;
use crate::tls::LocalIdentity;
use vstd::prelude::*;

verus! {

/// A set of name suffixes allowed to resolve through discovery.
#[derive(Debug)]
pub struct NameMatch {
    pub suffixes: Vec<Suffix>,
}

impl NameMatch {
    /// Whether some configured suffix matches the name.
    pub open spec fn spec_matches(&self, name: Seq<u8>) -> bool {
        exists|i: int| 0 <= i < self.suffixes@.len() && self.suffixes@[i].spec_contains(name)
    }

    /// Whether some configured suffix matches the name.
    pub fn matches(&self, name: &Vec<u8>) -> (r: bool)
        ensures
            r == self.spec_matches(name@),
    {
        let mut i: usize = 0;
        while i < self.suffixes.len()
            invariant
                i <= self.suffixes@.len(),
                forall|j: int| 0 <= j < i ==> !self.suffixes@[j].spec_contains(name@),
            decreases self.suffixes@.len() - i,
        {
            if self.suffixes[i].contains(name) {
                proof {
                    assert(self.suffixes@[i as int].spec_contains(name@));
                }
                return true;
            }
            i = i + 1;
        }
        false
    }
}

/// Ports that skip TLS and HTTP detection entirely.
#[derive(Debug)]
pub struct SkipByPort(pub indexmap::IndexSet<u16, std::collections::hash_map::RandomState>);

impl SkipByPort {
    /// Whether the connection takes the primary, detecting path.
    pub fn use_primary(&self, target_port: u16) -> (r: bool)
        ensures
            r == !port_set_view(self.0).contains(target_port),
    {
        !crate::ports::port_set_contains(&self.0, target_port)
    }
}

/// Ports whose connections must carry a TLS client identity.
#[derive(Debug)]
pub struct RequireIdentityForPorts(
    pub indexmap::IndexSet<u16, std::collections::hash_map::RandomState>,
);

impl RequireIdentityForPorts {
    /// Whether the port requires an authenticated client.
    pub fn required(&self, port: u16) -> (r: bool)
        ensures
            r == port_set_view(self.0).contains(port),
    {
        crate::ports::port_set_contains(&self.0, port)
    }
}

/// The proxy's own listening port; traffic targeting it is mesh-to-mesh
/// and takes the direct, gateway path.
#[derive(Clone, Copy, Debug, PartialEq, Eq, Structural)]
pub struct PreventLoop {
    pub port: u16,
}

/// The meta of a newly accepted connection.
#[derive(Clone, Debug, PartialEq, Eq)]
pub struct TcpAccept {
    pub target_addr: InetAddr,
    pub peer_addr: InetAddr,
    pub tls: ConditionalServerTls,
}

/// The loopback endpoint an inbound connection is forwarded to.
#[derive(Clone, Copy, Debug, PartialEq, Eq, Hash, Structural)]
pub struct TcpEndpoint {
    pub port: u16,
}

impl TcpEndpoint {
    /// The endpoint forwarding to the accepted target's port.
    pub fn from_accept(accept: &TcpAccept) -> (r: TcpEndpoint)
        ensures
            r.port == accept.target_addr.port,
    {
        TcpEndpoint { port: accept.target_addr.port }
    }
}

/// The key the inbound HTTP router routes on.
#[derive(Clone, Debug, PartialEq, Eq)]
pub struct Target {
    pub dst: Addr,
    pub socket_addr: InetAddr,
    pub tls_client_id: Option<Vec<u8>>,
    pub http_version: Option<HttpVersion>,
}

/// Inbound proxy configuration.
#[derive(Debug)]
pub struct Config {
    pub allow_discovery: NameMatch,
    pub proxy: ProxyConfig,
    pub require_identity_for_inbound_ports: RequireIdentityForPorts,
    pub disable_protocol_detection_for_ports: SkipByPort,
    pub profile_idle_timeout_ms: u64,
}

/// Establishes loopback connections for forwarded inbound traffic.
#[derive(Clone, Copy, Debug, PartialEq, Eq, Structural)]
pub struct LoopbackConnect {
    pub timeout_ms: u64,
    pub keepalive_ms: Option<u64>,
}

impl LoopbackConnect {
    /// The address a forwarded endpoint connects to: loopback, same port.
    pub fn target_addr(&self, t: &TcpEndpoint) -> (a: InetAddr)
        ensures
            a.ip == LOOPBACK_IP,
            a.port == t.port,
    {
        InetAddr { ip: LOOPBACK_IP, port: t.port }
    }
}

/// The loopback connector for the given connect configuration: its
/// timeout and keepalive bound every forwarded connection.
pub fn tcp_connect_loopback(config: &ConnectConfig) -> (c: LoopbackConnect)
    ensures
        c.timeout_ms == config.timeout_ms,
        c.keepalive_ms == config.keepalive_ms,
{
    LoopbackConnect { timeout_ms: config.timeout_ms, keepalive_ms: config.keepalive_ms }
}

/// The assembled inbound proxy.
#[derive(Debug)]
pub struct Inbound<C, P> {
    pub config: Config,
    pub prevent_loop: PreventLoop,
    pub local_identity: Option<LocalIdentity>,
    pub connect: C,
    pub profiles: P,
}

impl<P> Inbound<LoopbackConnect, P> {
    /// The TCP-forward plan for an endpoint: connect to loopback at the
    /// endpoint's port, bounded by the configured connect timeout, then
    /// run the copy loop.
    pub fn tcp_forward(&self, ep: &TcpEndpoint) -> (r: (InetAddr, u64))
        ensures
            r.0.ip == LOOPBACK_IP,
            r.0.port == ep.port,
            r.1 == self.connect.timeout_ms,
    {
        (self.connect.target_addr(ep), self.connect.timeout_ms)
    }
}

impl Config {
    /// Assembles the inbound proxy with a loopback connector.
    pub fn build<P>(self, prevent_loop: PreventLoop, local_identity: Option<LocalIdentity>,
        profiles: P) -> (r: Inbound<LoopbackConnect, P>)
        ensures
            r.config == self,
            r.prevent_loop == prevent_loop,
            r.local_identity == local_identity,
            r.connect.timeout_ms == self.proxy.connect.timeout_ms,
            r.connect.keepalive_ms == self.proxy.connect.keepalive_ms,
            r.profiles == profiles,
    {
        let connect = tcp_connect_loopback(&self.proxy.connect);
        Inbound { config: self, prevent_loop, local_identity, connect, profiles }
    }
}

/// The first decision taken for an accepted connection.
#[derive(Clone, Copy, Debug, PartialEq, Eq, Structural)]
pub enum AcceptPlan {
    /// The target port is in the disable set: forward to loopback with no
    /// TLS and no HTTP detection of any kind.
    ForwardNoDetect(TcpEndpoint),
    /// Run the detecting path: TLS sniff, then the switches below.
    Detect,
}

/// Which sub-stack serves a detected connection.
#[derive(Clone, Copy, Debug, PartialEq, Eq, Structural)]
pub enum PathChoice {
    /// The connection targets the proxy's own port: the gateway path.
    Direct,
    /// An ordinary inbound connection.
    Regular,
}

/// Where a regular connection goes after HTTP detection.
#[derive(Clone, Copy, Debug, PartialEq, Eq, Structural)]
pub enum RegularRoute {
    /// HTTP traffic of the detected version enters the HTTP router.
    Http(HttpVersion),
    /// Anything else is forwarded opaquely to loopback.
    TcpForward(TcpEndpoint),
}

/// What the inbound server does with one detected connection.
#[derive(Clone, Copy, Debug, PartialEq, Eq, Structural)]
pub enum ServerDecision {
    /// Skipped port: forwarded to loopback, no detection ever ran.
    ForwardNoDetect(TcpEndpoint),
    /// The connection is refused with this error kind.
    Reject(ErrorKind),
    /// HTTP on the proxy's own port: the gateway path serves it.
    DirectHttp(HttpVersion),
    /// HTTP on a regular port: the HTTP router serves it.
    RegularHttp(HttpVersion),
    /// Not HTTP: forwarded opaquely to loopback.
    TcpForward(TcpEndpoint),
}

/// Connection-level settings of the inbound HTTP server.
#[derive(Clone, Copy, Debug, PartialEq, Eq, Structural)]
pub struct ServerParams {
    pub max_in_flight: usize,
    pub dispatch_timeout_ms: u64,
    pub h2_settings: H2Settings,
}

impl<C, P> Inbound<C, P> {
    /// The port-skip switch: a port in `disable_protocol_detection_for_ports`
    /// bypasses TLS and HTTP detection entirely and is forwarded to
    /// loopback; every other connection enters the detecting path.
    pub fn plan_accept(&self, target: InetAddr) -> (p: AcceptPlan)
        ensures
            match p {
                AcceptPlan::ForwardNoDetect(ep) => port_set_view(
                    self.config.disable_protocol_detection_for_ports.0,
                ).contains(target.port) && ep.port == target.port,
                AcceptPlan::Detect => !port_set_view(
                    self.config.disable_protocol_detection_for_ports.0,
                ).contains(target.port),
            },
    {
        if self.config.disable_protocol_detection_for_ports.use_primary(target.port) {
            AcceptPlan::Detect
        } else {
            AcceptPlan::ForwardNoDetect(TcpEndpoint { port: target.port })
        }
    }

    /// Serves one detected connection: the whole admission pipeline of
    /// the inbound server, composed of the port-skip switch, the identity
    /// requirement, the loop-prevention switch and HTTP routing.  TLS
    /// detection has already run (its outcome sits in the accept meta)
    /// and `http` is the HTTP detection outcome, unused on the skipped
    /// path where no detection ever runs.
    pub fn server(&self, accept: &TcpAccept, http: Option<HttpVersion>) -> (d: ServerDecision)
        ensures
            ({
                let port = accept.target_addr.port;
                let skipped = port_set_view(self.config.disable_protocol_detection_for_ports.0)
                    .contains(port);
                let required = port_set_view(self.config.require_identity_for_inbound_ports.0)
                    .contains(port);
                if skipped {
                    d == ServerDecision::ForwardNoDetect(TcpEndpoint { port })
                } else if required && !accept.tls.spec_has_client_id() {
                    d == ServerDecision::Reject(ErrorKind::IdentityRequired)
                } else if port == self.prevent_loop.port {
                    match http {
                        Some(v) => d == ServerDecision::DirectHttp(v),
                        None => d == ServerDecision::Reject(ErrorKind::Io),
                    }
                } else {
                    match http {
                        Some(v) => d == ServerDecision::RegularHttp(v),
                        None => d == ServerDecision::TcpForward(TcpEndpoint { port }),
                    }
                }
            }),
    {
        match self.plan_accept(accept.target_addr) {
            AcceptPlan::ForwardNoDetect(ep) => ServerDecision::ForwardNoDetect(ep),
            AcceptPlan::Detect => {
                match self.admit_tls(accept) {
                    Err(kind) => ServerDecision::Reject(kind),
                    Ok(PathChoice::Direct) => match self.direct_route(http) {
                        Ok(v) => ServerDecision::DirectHttp(v),
                        Err(kind) => ServerDecision::Reject(kind),
                    },
                    Ok(PathChoice::Regular) => match self.route_http(accept, http) {
                        RegularRoute::Http(v) => ServerDecision::RegularHttp(v),
                        RegularRoute::TcpForward(ep) => ServerDecision::TcpForward(ep),
                    },
                }
            },
        }
    }

    /// The identity gate and the loop-prevention switch, after TLS
    /// detection: a port that requires identity rejects connections
    /// without a TLS client identity; the proxy's own port takes the
    /// direct path; everything else is regular inbound traffic.
    pub fn admit_tls(&self, accept: &TcpAccept) -> (r: Result<PathChoice, ErrorKind>)
        ensures
            ({
                let required = port_set_view(self.config.require_identity_for_inbound_ports.0)
                    .contains(accept.target_addr.port);
                if required && !accept.tls.spec_has_client_id() {
                    r == Err::<PathChoice, ErrorKind>(ErrorKind::IdentityRequired)
                } else if accept.target_addr.port == self.prevent_loop.port {
                    r == Ok::<PathChoice, ErrorKind>(PathChoice::Direct)
                } else {
                    r == Ok::<PathChoice, ErrorKind>(PathChoice::Regular)
                }
            }),
    {
        let required = self.config.require_identity_for_inbound_ports.required(
            accept.target_addr.port,
        );
        if required && !accept.tls.has_client_id() {
            return Err(ErrorKind::IdentityRequired);
        }
        if accept.target_addr.port == self.prevent_loop.port {
            Ok(PathChoice::Direct)
        } else {
            Ok(PathChoice::Regular)
        }
    }

    /// Routes a regular connection after HTTP detection: HTTP traffic is
    /// promoted to the router and anything else is forwarded to loopback.
    pub fn route_http(&self, accept: &TcpAccept, http: Option<HttpVersion>) -> (r: RegularRoute)
        ensures
            match http {
                Some(v) => r == RegularRoute::Http(v),
                None => r == RegularRoute::TcpForward(
                    TcpEndpoint { port: accept.target_addr.port },
                ),
            },
    {
        match http {
            Some(v) => RegularRoute::Http(v),
            None => RegularRoute::TcpForward(TcpEndpoint::from_accept(accept)),
        }
    }

    /// Routes a direct-path connection: the gateway serves HTTP only, and
    /// a connection with no HTTP preamble is refused.
    pub fn direct_route(&self, http: Option<HttpVersion>) -> (r: Result<HttpVersion, ErrorKind>)
        ensures
            match http {
                Some(v) => r == Ok::<HttpVersion, ErrorKind>(v),
                None => r == Err::<HttpVersion, ErrorKind>(ErrorKind::Io),
            },
    {
        match http {
            Some(v) => Ok(v),
            None => Err(NonOpaqueRefused.kind()),
        }
    }

    /// Whether a request should wait on the profile stack: once the
    /// profile has been unready for `profile_idle_timeout`, requests fall
    /// back to the stack without a profile so latency stays bounded.
    pub fn use_profile_stack(&self, profile_ready: bool, waited_ms: u64) -> (r: bool)
        ensures
            r == (profile_ready || waited_ms < self.config.profile_idle_timeout_ms),
    {
        profile_ready || waited_ms < self.config.profile_idle_timeout_ms
    }

    /// Whether the destination of a target may be resolved through
    /// discovery: only named destinations matched by the allow list.
    pub fn should_discover(&self, dst: &Addr) -> (r: bool)
        ensures
            match dst {
                Addr::Name(na) => r == self.config.allow_discovery.spec_matches(na.host@),
                Addr::Sock(_) => r == false,
            },
    {
        match dst {
            Addr::Name(na) => self.config.allow_discovery.matches(&na.host),
            Addr::Sock(_) => false,
        }
    }

    /// The connection-level settings of the inbound HTTP server: the
    /// in-flight cap, the dispatch timeout and the HTTP/2 settings all
    /// come from the proxy configuration.
    pub fn http_server(&self) -> (r: ServerParams)
        ensures
            r.max_in_flight == self.config.proxy.max_in_flight_requests,
            r.dispatch_timeout_ms == self.config.proxy.dispatch_timeout_ms,
            r.h2_settings == self.config.proxy.server.h2_settings,
    {
        ServerParams {
            max_in_flight: self.config.proxy.max_in_flight_requests,
            dispatch_timeout_ms: self.config.proxy.dispatch_timeout_ms,
            h2_settings: self.config.proxy.server.h2_settings,
        }
    }

    /// Replaces the connection implementation.
    pub fn with_connect<C2>(self, connect: C2) -> (r: Inbound<C2, P>)
        ensures
            r.config == self.config,
            r.prevent_loop == self.prevent_loop,
            r.local_identity == self.local_identity,
            r.connect == connect,
            r.profiles == self.profiles,
    {
        Inbound {
            config: self.config,
            prevent_loop: self.prevent_loop,
            local_identity: self.local_identity,
            connect,
            profiles: self.profiles,
        }
    }
}

/// The structured log labels of the inbound proxy.
pub fn trace_labels() -> (r: Vec<(String, String)>)
    ensures
        r@.len() == 1,
        r@[0].0@ == "direction"@,
        r@[0].1@ == "inbound"@,
{
    let mut l: Vec<(String, String)> = Vec::new();
    l.push((String::from_str("direction"), String::from_str("inbound")));
    l
}

} // verus!
