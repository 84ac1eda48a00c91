//! The HTTP gateway for mesh-to-mesh traffic, with loop prevention.
//!
//! Traffic that targets the proxy's own port is forwarded onwards by
//! name.  The gateway requires identities on both sides, resolves the
//! destination through the profile's canonical name, rewrites the `Host`
//! header for HTTP/1, appends a `Forwarded` header naming this hop, and —
//! before anything else — refuses any request whose incoming `Forwarded`
//! headers already name the local identity as a `by=` hop: the only
//! defense against cross-cluster forwarding cycles.

use crate::addr::Addr;
use crate::addr::InetAddr;
use crate::addr::NameAddr;
use crate::addr::bytes_eq;
use crate::addr::clone_bytes;
use crate::addr::spec_authority_of;
use crate::addr::sub_bytes;
use crate::detect::HttpVersion;
use crate::detect::spec_find;
use crate::detect::find_byte;
use crate::errors::ErrorKind;
use crate::inbound::Target;
use vstd::prelude::*;

verus! {

/// `by=` (98 121 61).
pub open spec fn lit_by() -> Seq<u8> {
    seq![98u8, 121u8, 61u8]
}

/// `by` (98 121).
pub open spec fn lit_by_key() -> Seq<u8> {
    seq![98u8, 121u8]
}

/// `;for=` (59 102 111 114 61).
pub open spec fn lit_semi_for() -> Seq<u8> {
    seq![59u8, 102u8, 111u8, 114u8, 61u8]
}

/// `;host=` (59 104 111 115 116 61).
pub open spec fn lit_semi_host() -> Seq<u8> {
    seq![59u8, 104u8, 111u8, 115u8, 116u8, 61u8]
}

/// `;proto=https` (59 112 114 111 116 111 61 104 116 116 112 115).
pub open spec fn lit_semi_proto() -> Seq<u8> {
    seq![59u8, 112u8, 114u8, 111u8, 116u8, 111u8, 61u8, 104u8, 116u8, 116u8, 112u8, 115u8]
}

/// The `Forwarded` header this gateway appends:
/// `by=<local>;for=<peer>;host=<host>;proto=https`.
pub open spec fn spec_forwarded(local: Seq<u8>, src: Seq<u8>, host: Seq<u8>) -> Seq<u8> {
    lit_by() + local + lit_semi_for() + src + lit_semi_host() + host + lit_semi_proto()
}

/// The `by=` parameter of a `Forwarded` header value: parameters are
/// separated by `;` (59), a parameter is a key, `=` (61) and a value, and
/// the value runs only to the next `=`, never across one.  A bare
/// `by` parameter without `=` ends the search empty-handed.
pub open spec fn spec_fwd_by(s: Seq<u8>) -> Option<Seq<u8>>
    decreases s.len(),
    via spec_fwd_by_decreases
{
    let k = spec_find(s, 59u8, 0);
    let seg = if k < 0 {
        s
    } else {
        s.take(k)
    };
    let e = spec_find(seg, 61u8, 0);
    let key = if e < 0 {
        seg
    } else {
        seg.take(e)
    };
    if key == lit_by_key() {
        if e < 0 {
            None
        } else {
            let rest = seg.skip(e + 1);
            let e2 = spec_find(rest, 61u8, 0);
            if e2 < 0 {
                Some(rest)
            } else {
                Some(rest.take(e2))
            }
        }
    } else if k < 0 {
        None
    } else {
        spec_fwd_by(s.skip(k + 1))
    }
}

#[via_fn]
proof fn spec_fwd_by_decreases(s: Seq<u8>) {
    crate::detect::lemma_find_range(s, 59u8, 0);
}

/// Extracts the `by=` parameter of a `Forwarded` header value.
pub fn fwd_by(s: &Vec<u8>) -> (r: Option<Vec<u8>>)
    ensures
        match r {
            Some(v) => spec_fwd_by(s@) == Some(v@),
            None => spec_fwd_by(s@) is None,
        },
    decreases s@.len(),
{
    let k_opt = find_byte(s, 59u8, 0);
    let seg: Vec<u8> = match k_opt {
        Some(k) => sub_bytes(s, 0, k),
        None => clone_bytes(s),
    };
    proof {
        match k_opt {
            Some(k) => {
                assert(seg@ =~= s@.take(k as int));
            },
            None => {},
        }
    }
    let e_opt = find_byte(&seg, 61u8, 0);
    let is_by = match e_opt {
        Some(e) => e == 2 && seg.len() >= 2 && seg[0] == 98 && seg[1] == 121,
        None => seg.len() == 2 && seg[0] == 98 && seg[1] == 121,
    };
    proof {
        let e = spec_find(seg@, 61u8, 0);
        let key = if e < 0 {
            seg@
        } else {
            seg@.take(e)
        };
        if is_by {
            assert(key =~= lit_by_key());
        } else {
            if key.len() == 2 && key[0] == 98 && key[1] == 121 {
                assert(is_by);
            }
            assert(key != lit_by_key());
        }
    }
    if is_by {
        match e_opt {
            None => None,
            Some(e) => {
                let rest = sub_bytes(&seg, e + 1, seg.len());
                proof {
                    assert(rest@ =~= seg@.skip(e + 1));
                }
                match find_byte(&rest, 61u8, 0) {
                    None => Some(rest),
                    Some(e2) => {
                        let v = sub_bytes(&rest, 0, e2);
                        proof {
                            assert(v@ =~= rest@.take(e2 as int));
                        }
                        Some(v)
                    },
                }
            },
        }
    } else {
        match k_opt {
            None => None,
            Some(k) => {
                let n = s.len();
                let tail = sub_bytes(s, k + 1, n);
                proof {
                    assert(tail@ =~= s@.skip(k + 1));
                }
                fwd_by(&tail)
            },
        }
    }
}

/// Whether some incoming `Forwarded` header names `local_id` as a `by=`
/// hop — the mark of a request that already transited this gateway.
pub open spec fn spec_loops(headers: Seq<Vec<u8>>, local_id: Seq<u8>) -> bool {
    exists|i: int| 0 <= i < headers.len() && spec_fwd_by(headers[i]@) == Some(local_id)
}

/// Scans every incoming `Forwarded` header for a `by=` hop equal to the
/// local identity.
pub fn check_loop(headers: &Vec<Vec<u8>>, local_id: &Vec<u8>) -> (r: bool)
    ensures
        r == spec_loops(headers@, local_id@),
{
    let mut i: usize = 0;
    while i < headers.len()
        invariant
            i <= headers@.len(),
            forall|j: int| 0 <= j < i ==> spec_fwd_by(headers@[j]@) != Some(local_id@),
        decreases headers@.len() - i,
    {
        match fwd_by(&headers[i]) {
            Some(by) => {
                if bytes_eq(&by, local_id) {
                    proof {
                        assert(spec_fwd_by(headers@[i as int]@) == Some(local_id@));
                    }
                    return true;
                }
            },
            None => {},
        }
        i = i + 1;
    }
    false
}

/// Builds the `Forwarded` header value for this hop.
pub fn build_forwarded(local: &Vec<u8>, src: &Vec<u8>, host: &Vec<u8>) -> (r: Vec<u8>)
    ensures
        r@ == spec_forwarded(local@, src@, host@),
{
    let mut out: Vec<u8> = Vec::new();
    out.push(98);
    out.push(121);
    out.push(61);
    crate::addr::append_bytes(&mut out, local);
    out.push(59);
    out.push(102);
    out.push(111);
    out.push(114);
    out.push(61);
    crate::addr::append_bytes(&mut out, src);
    out.push(59);
    out.push(104);
    out.push(111);
    out.push(115);
    out.push(116);
    out.push(61);
    crate::addr::append_bytes(&mut out, host);
    out.push(59);
    out.push(112);
    out.push(114);
    out.push(111);
    out.push(116);
    out.push(111);
    out.push(61);
    out.push(104);
    out.push(116);
    out.push(116);
    out.push(112);
    out.push(115);
    proof {
        assert(out@ =~= spec_forwarded(local@, src@, host@));
    }
    out
}

/// The sentinel original destination handed to the outbound pipeline for
/// name-resolved gateway traffic: the unroutable address, original port.
pub fn sentinel_orig_dst(port: u16) -> (a: InetAddr)
    ensures
        a.ip == 0,
        a.port == port,
{
    InetAddr { ip: 0, port }
}

/// One gateway service, readied per target.
#[derive(Clone, Debug)]
pub enum HttpGateway<O> {
    /// The target names no authority: every request fails.
    NoAuthority,
    /// A side is missing its identity: every request fails.
    NoIdentity,
    /// The destination name is not resolvable here: every request fails.
    BadDomain(Vec<u8>),
    /// Forwarding into the outbound pipeline with rewritten headers.
    Outbound {
        outbound: O,
        local_identity: Vec<u8>,
        host_header: Vec<u8>,
        forwarded_header: Vec<u8>,
    },
}

/// What the gateway does with one request.
#[derive(Clone, Debug, PartialEq, Eq)]
pub struct ForwardPlan {
    /// The `Forwarded` header to append.
    pub append_forwarded: Vec<u8>,
    /// The `Host` header to overwrite, on HTTP/1 only.
    pub set_host: Option<Vec<u8>>,
}

impl<O> HttpGateway<O> {
    /// A gateway forwarding towards `dst` with both identities known.
    pub fn new(outbound: O, dst: &NameAddr, source_identity: &Vec<u8>, local_identity: &Vec<u8>)
        -> (r: HttpGateway<O>)
        ensures
            r matches HttpGateway::Outbound {
                local_identity: l,
                host_header: h,
                forwarded_header: f,
                ..
            } && l@ == local_identity@ && h@ == dst.spec_authority() && f@ == spec_forwarded(
                local_identity@,
                source_identity@,
                dst.spec_authority(),
            ),
    {
        let host = dst.as_http_authority();
        let fwd = build_forwarded(local_identity, source_identity, &host);
        HttpGateway::Outbound {
            outbound,
            local_identity: clone_bytes(local_identity),
            host_header: host,
            forwarded_header: fwd,
        }
    }

    /// Serves one request: a request whose incoming `Forwarded` headers
    /// already name the local identity fails with the gateway-loop error
    /// and nothing is dispatched outbound; otherwise the request goes out
    /// with this hop's `Forwarded` header appended and, on HTTP/1, the
    /// `Host` header overwritten.  The terminal states fail every request
    /// with their fixed error.
    pub fn call(&self, version: HttpVersion, forwarded_headers: &Vec<Vec<u8>>) -> (r: Result<
        ForwardPlan,
        ErrorKind,
    >)
        ensures
            match self {
                HttpGateway::NoAuthority => r == Err::<ForwardPlan, ErrorKind>(
                    ErrorKind::NoAuthority,
                ),
                HttpGateway::NoIdentity => r == Err::<ForwardPlan, ErrorKind>(
                    ErrorKind::IdentityRequired,
                ),
                HttpGateway::BadDomain(_) => r == Err::<ForwardPlan, ErrorKind>(
                    ErrorKind::BadDomain,
                ),
                HttpGateway::Outbound { local_identity, host_header, forwarded_header, .. } => {
                    if spec_loops(forwarded_headers@, local_identity@) {
                        r == Err::<ForwardPlan, ErrorKind>(ErrorKind::GatewayLoop)
                    } else {
                        r matches Ok(plan) && plan.append_forwarded@ == forwarded_header@
                            && match version {
                            HttpVersion::Http1 => plan.set_host matches Some(h) && h@
                                == host_header@,
                            HttpVersion::H2 => plan.set_host is None,
                        }
                    }
                },
            },
    {
        match self {
            HttpGateway::NoAuthority => Err(ErrorKind::NoAuthority),
            HttpGateway::NoIdentity => Err(ErrorKind::IdentityRequired),
            HttpGateway::BadDomain(_) => Err(ErrorKind::BadDomain),
            HttpGateway::Outbound { local_identity, host_header, forwarded_header, .. } => {
                if check_loop(forwarded_headers, local_identity) {
                    return Err(ErrorKind::GatewayLoop);
                }
                let set_host = match version {
                    HttpVersion::Http1 => Some(clone_bytes(host_header)),
                    HttpVersion::H2 => None,
                };
                Ok(ForwardPlan { append_forwarded: clone_bytes(forwarded_header), set_host })
            },
        }
    }
}

/// Builds a gateway service for each target.
#[derive(Clone, Debug)]
pub struct NewHttpGateway<O> {
    pub outbound: O,
    pub local_id: Option<Vec<u8>>,
}

/// A layer holding the local identity until an outbound stack arrives.
#[derive(Clone, Debug)]
pub struct GatewayLayer {
    pub local_id: Option<Vec<u8>>,
}

impl<O> NewHttpGateway<O> {
    /// A gateway factory over the given outbound stack.
    pub fn new(outbound: O, local_id: Option<Vec<u8>>) -> (r: NewHttpGateway<O>)
        ensures
            r.outbound == outbound,
            r.local_id == local_id,
    {
        NewHttpGateway { outbound, local_id }
    }

    /// The gateway layer for the given local identity.
    pub fn layer(local_id: Option<Vec<u8>>) -> (r: GatewayLayer)
        ensures
            r.local_id == local_id,
    {
        GatewayLayer { local_id }
    }

    /// Builds the gateway for one target: both sides must present
    /// identities; the destination is the profile's canonical name at the
    /// target's port, and without one a named target is a bad domain and
    /// a socket target has no authority.
    pub fn new_service(self, profile_name: Option<Vec<u8>>, target: Target) -> (r: HttpGateway<O>)
        ensures
            match (&target.tls_client_id, &self.local_id) {
                (Some(src), Some(local)) => match &profile_name {
                    Some(name) => r matches HttpGateway::Outbound {
                        local_identity: l,
                        host_header: h,
                        forwarded_header: f,
                        ..
                    } && l@ == local@ && h@ == spec_authority_of(name@, target.dst.spec_port())
                        && f@ == spec_forwarded(
                        local@,
                        src@,
                        spec_authority_of(name@, target.dst.spec_port()),
                    ),
                    None => match &target.dst {
                        Addr::Name(na) => r matches HttpGateway::BadDomain(d) && d@ == na.host@,
                        Addr::Sock(_) => r is NoAuthority,
                    },
                },
                _ => r is NoIdentity,
            },
    {
        let local = match self.local_id {
            Some(l) => l,
            None => {
                return HttpGateway::NoIdentity;
            },
        };
        let src = match target.tls_client_id {
            Some(s) => s,
            None => {
                return HttpGateway::NoIdentity;
            },
        };
        let port = target.dst.port();
        match profile_name {
            Some(name) => {
                let dst = NameAddr { host: name, port };
                HttpGateway::new(self.outbound, &dst, &src, &local)
            },
            None => match target.dst {
                Addr::Name(na) => HttpGateway::BadDomain(na.host),
                Addr::Sock(_) => HttpGateway::NoAuthority,
            },
        }
    }
}

} // verus!
