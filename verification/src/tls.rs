//! Server-side TLS: detection outcome, handshake decision and identity.
//!
//! The handshake itself is I/O and lives outside the library; here are the
//! decisions around it: whether a detected SNI calls for terminating the
//! handshake locally, forwarding the stream opaquely, or carrying on
//! without TLS, and how a client identity is read off a peer certificate's
//! subject alternative names.

use crate::detect::SniStep;
use crate::errors::ErrorKind;
use crate::errors::NoServerTls;
use vstd::prelude::*;

verus! {

/// A remote client identity: the first DNS name of the peer certificate.
#[derive(Clone, Debug, PartialEq, Eq, Hash)]
pub struct ClientId(pub Vec<u8>);

impl ClientId {
    /// The name this identity holds.
    pub fn name(&self) -> (n: &Vec<u8>)
        ensures
            n@ == self.0@,
    {
        &self.0
    }
}

/// The local identity the proxy serves TLS with.
#[derive(Clone, Debug, PartialEq, Eq, Hash)]
pub struct LocalIdentity {
    pub name: Vec<u8>,
}

/// A serverside connection's TLS status once established or passed through.
#[derive(Clone, Debug, PartialEq, Eq, Hash)]
pub enum ServerTls {
    Established { client_id: Option<ClientId>, negotiated_protocol: Option<Vec<u8>> },
    Passthru { sni: Vec<u8> },
}

/// Whether TLS was established on an accepted connection, and if not, why.
#[derive(Clone, Debug, PartialEq, Eq, Hash)]
pub enum ConditionalServerTls {
    Tls(ServerTls),
    NoTls(NoServerTls),
}

impl ConditionalServerTls {
    /// Whether the connection carries a TLS-authenticated client identity.
    pub open spec fn spec_has_client_id(&self) -> bool {
        match self {
            ConditionalServerTls::Tls(ServerTls::Established { client_id, .. }) => client_id
                is Some,
            _ => false,
        }
    }

    /// Whether the connection carries a TLS-authenticated client identity.
    pub fn has_client_id(&self) -> (r: bool)
        ensures
            r == self.spec_has_client_id(),
    {
        match self {
            ConditionalServerTls::Tls(ServerTls::Established { client_id, .. }) => client_id
                .is_some(),
            _ => false,
        }
    }
}

/// TLS detection ran out of time.
#[derive(Clone, Copy, Debug, PartialEq, Eq, Structural)]
pub struct DetectTimeout;

impl DetectTimeout {
    /// The error kind counted for a connection whose sniff timed out.
    pub fn kind(&self) -> (kind: ErrorKind)
        ensures
            kind == ErrorKind::DetectFailed,
    {
        ErrorKind::DetectFailed
    }
}

/// Marker for the SNI detector run ahead of the handshake decision.
#[derive(Clone, Copy, Debug, Default, PartialEq, Eq, Structural)]
pub struct DetectSni;

/// Applies the detection timeout: a verdict reached in time stands, and an
/// expired window fails the connection with a detection error whatever the
/// detector had.  A peer that sent nothing within the timeout ends here.
pub fn detect_verdict(step: SniStep, expired: bool) -> (r: Result<SniStep, ErrorKind>)
    ensures
        expired ==> r == Err::<SniStep, ErrorKind>(ErrorKind::DetectFailed),
        !expired ==> r == Ok::<SniStep, ErrorKind>(step),
{
    if expired {
        Err(ErrorKind::DetectFailed)
    } else {
        Ok(step)
    }
}

/// What the accept stack does with a connection after SNI detection.
#[derive(Clone, Debug, PartialEq, Eq)]
pub enum Handshake<T> {
    /// The SNI names the local identity: terminate TLS here.
    Enabled { target: T, identity: LocalIdentity },
    /// No handshake: serve the connection with this TLS status.
    Disabled(ConditionalServerTls, T),
}

/// Builds the handshake decision for each accepted connection.
#[derive(Clone, Debug)]
pub struct NewHandshake<N> {
    pub identity: Option<LocalIdentity>,
    pub inner: N,
}

/// A layer holding the local identity until an inner stack arrives.
#[derive(Clone, Debug)]
pub struct HandshakeLayer {
    pub identity: Option<LocalIdentity>,
}

impl HandshakeLayer {
    /// Wraps an inner stack with this layer's identity.
    pub fn wrap<N>(self, inner: N) -> (r: NewHandshake<N>)
        ensures
            r.identity == self.identity,
            r.inner == inner,
    {
        NewHandshake { identity: self.identity, inner }
    }
}

impl<N> NewHandshake<N> {
    /// A decision maker for the given local identity.
    pub fn new(identity: Option<LocalIdentity>, inner: N) -> (r: NewHandshake<N>)
        ensures
            r.identity == identity,
            r.inner == inner,
    {
        NewHandshake { identity, inner }
    }

    /// The handshake layer for the given local identity.
    pub fn layer(identity: Option<LocalIdentity>) -> (r: HandshakeLayer)
        ensures
            r.identity == identity,
    {
        HandshakeLayer { identity }
    }

    /// Decides what to do with a connection whose SNI detection returned
    /// `sni`:
    /// - with a local identity and an SNI equal to it, terminate TLS;
    /// - with an SNI naming someone else, pass the stream through opaquely;
    /// - with no SNI, carry on without TLS (`NoClientHello`);
    /// - with identity administratively disabled, carry on without TLS.
    pub fn new_service<T>(&self, sni: Option<Vec<u8>>, target: T) -> (r: Handshake<T>)
        ensures
            match (&self.identity, &sni) {
                (Some(id), Some(name)) => {
                    if name@ == id.name@ {
                        r matches Handshake::Enabled { target: t, identity: i } && t == target
                            && i.name@ == id.name@
                    } else {
                        r == Handshake::Disabled(
                            ConditionalServerTls::Tls(ServerTls::Passthru { sni: sni.unwrap() }),
                            target,
                        )
                    }
                },
                (Some(_), None) => r == Handshake::Disabled(
                    ConditionalServerTls::NoTls(NoServerTls::NoClientHello),
                    target,
                ),
                (None, _) => r == Handshake::Disabled(
                    ConditionalServerTls::NoTls(NoServerTls::Disabled),
                    target,
                ),
            },
    {
        match (&self.identity, sni) {
            (Some(id), Some(name)) => {
                if crate::addr::bytes_eq(&name, &id.name) {
                    Handshake::Enabled {
                        target,
                        identity: LocalIdentity { name: crate::addr::clone_bytes(&id.name) },
                    }
                } else {
                    Handshake::Disabled(
                        ConditionalServerTls::Tls(ServerTls::Passthru { sni: name }),
                        target,
                    )
                }
            },
            (Some(_), None) => Handshake::Disabled(
                ConditionalServerTls::NoTls(NoServerTls::NoClientHello),
                target,
            ),
            (None, _) => Handshake::Disabled(
                ConditionalServerTls::NoTls(NoServerTls::Disabled),
                target,
            ),
        }
    }
}

/// One subject-alternative-name entry of a peer certificate.
#[derive(Clone, Debug, PartialEq, Eq)]
pub enum San {
    DnsName(Vec<u8>),
    Wildcard(Vec<u8>),
}

/// Reads the client identity off a peer certificate's DNS names: the first
/// entry when it is a plain DNS name; wildcard names are ignored and an
/// empty list leaves the client anonymous.
pub fn client_identity(sans: &Vec<San>) -> (r: Option<ClientId>)
    ensures
        match r {
            Some(c) => sans@.len() > 0 && (sans@[0] matches San::DnsName(n) && c.0@ == n@),
            None => sans@.len() == 0 || sans@[0] is Wildcard,
        },
{
    if sans.len() == 0 {
        return None;
    }
    match &sans[0] {
        San::DnsName(n) => Some(ClientId(crate::addr::clone_bytes(n))),
        San::Wildcard(_) => None,
    }
}

/// The TLS status of a connection whose handshake succeeded.
pub fn established(client_id: Option<ClientId>, negotiated_protocol: Option<Vec<u8>>) -> (r:
    ServerTls)
    ensures
        r matches ServerTls::Established { client_id: c, negotiated_protocol: p } && c == client_id
            && p == negotiated_protocol,
{
    ServerTls::Established { client_id, negotiated_protocol }
}

/// Builds connection-accept TLS handling for a stack: the detector marker,
/// the handshake decision and the detection timeout, around `inner`.
#[derive(Clone, Debug)]
pub struct NewTransparentTls<L, A> {
    pub identity: Option<L>,
    pub inner: A,
    pub timeout_ms: u64,
}

/// Accept-side TLS around `inner` with the given identity and timeout.
pub fn new<L, A>(identity: Option<L>, inner: A, timeout_ms: u64) -> (r: NewTransparentTls<L, A>)
    ensures
        r.identity == identity,
        r.inner == inner,
        r.timeout_ms == timeout_ms,
{
    NewTransparentTls { identity, inner, timeout_ms }
}

/// A layer holding the identity and timeout until an inner stack arrives.
#[derive(Clone, Debug)]
pub struct TlsLayer<L> {
    pub identity: Option<L>,
    pub timeout_ms: u64,
}

/// The accept-side TLS layer with the given identity and timeout.
pub fn layer<L>(identity: Option<L>, timeout_ms: u64) -> (r: TlsLayer<L>)
    ensures
        r.identity == identity,
        r.timeout_ms == timeout_ms,
{
    TlsLayer { identity, timeout_ms }
}

impl<L> TlsLayer<L> {
    /// Wraps an inner stack with this layer's identity and timeout.
    pub fn wrap<A>(self, inner: A) -> (r: NewTransparentTls<L, A>)
        ensures
            r.identity == self.identity,
            r.inner == inner,
            r.timeout_ms == self.timeout_ms,
    {
        NewTransparentTls { identity: self.identity, inner, timeout_ms: self.timeout_ms }
    }
}

} // verus!
