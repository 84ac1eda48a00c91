//! TLS handshake decisions, identities, routing types and the stack
//! combinators.

use proxy_core::addr::{Addr, InetAddr, NameAddr};
use proxy_core::client::{Client, MakeClientLayer};
use proxy_core::config::H2Settings;
use proxy_core::detect::HttpVersion;
use proxy_core::dst::{Direction, Route};
use proxy_core::errors::{ErrorKind, NoServerTls};
use proxy_core::outbound::{
    tcp_logical_route, FromMetadata, Logical, LogicalPerRequest, Metadata, TcpRoute,
};
use proxy_core::profiles::{
    match_route, ProfileValue, Receiver, RequestMatch, RequestMeta, RouteSpec,
};
use proxy_core::stack::{
    ConcurrencyLimit, Either, FailFast, FailFastState, NewOptional, Poll, SpawnBuffer,
    SpawnReadyLayer, MakeSpawnReady,
};
use proxy_core::tls::{
    client_identity, established, Handshake, LocalIdentity, NewHandshake, San,
};

fn local() -> LocalIdentity {
    LocalIdentity { name: b"gw.linkerd.example".to_vec() }
}

#[test]
fn matching_sni_terminates_tls() {
    let nh = NewHandshake::new(Some(local()), ());
    match nh.new_service(Some(b"gw.linkerd.example".to_vec()), 7u8) {
        Handshake::Enabled { target, identity } => {
            assert_eq!(target, 7);
            assert_eq!(identity.name, b"gw.linkerd.example".to_vec());
        }
        other => panic!("expected termination, got {:?}", other),
    }
}

#[test]
fn foreign_sni_passes_through() {
    let nh = NewHandshake::new(Some(local()), ());
    match nh.new_service(Some(b"other.example".to_vec()), 7u8) {
        Handshake::Disabled(tls, target) => {
            assert_eq!(target, 7);
            match tls {
                proxy_core::tls::ConditionalServerTls::Tls(
                    proxy_core::tls::ServerTls::Passthru { sni },
                ) => assert_eq!(sni, b"other.example".to_vec()),
                other => panic!("expected passthru, got {:?}", other),
            }
        }
        other => panic!("expected passthru, got {:?}", other),
    }
}

#[test]
fn missing_client_hello_disables_tls() {
    let nh = NewHandshake::new(Some(local()), ());
    match nh.new_service(None, 7u8) {
        Handshake::Disabled(
            proxy_core::tls::ConditionalServerTls::NoTls(reason),
            _,
        ) => assert_eq!(reason, NoServerTls::NoClientHello),
        other => panic!("expected no TLS, got {:?}", other),
    }
}

#[test]
fn disabled_identity_disables_tls() {
    let nh: NewHandshake<()> = NewHandshake::new(None, ());
    match nh.new_service(Some(b"any".to_vec()), 7u8) {
        Handshake::Disabled(
            proxy_core::tls::ConditionalServerTls::NoTls(reason),
            _,
        ) => assert_eq!(reason, NoServerTls::Disabled),
        other => panic!("expected no TLS, got {:?}", other),
    }
}

#[test]
fn client_identity_reads_the_first_dns_san() {
    let sans = vec![
        San::DnsName(b"foo.ns1.serviceaccount.identity.linkerd.example".to_vec()),
        San::DnsName(b"second.example".to_vec()),
    ];
    let id = client_identity(&sans).expect("first SAN is a DNS name");
    assert_eq!(id.0, b"foo.ns1.serviceaccount.identity.linkerd.example".to_vec());
}

#[test]
fn wildcard_sans_leave_the_client_anonymous() {
    let sans = vec![San::Wildcard(b"*.example".to_vec())];
    assert!(client_identity(&sans).is_none());
    assert!(client_identity(&Vec::new()).is_none());
    let tls = established(None, Some(b"h2".to_vec()));
    match tls {
        proxy_core::tls::ServerTls::Established { client_id, negotiated_protocol } => {
            assert!(client_id.is_none());
            assert_eq!(negotiated_protocol, Some(b"h2".to_vec()));
        }
        other => panic!("unexpected {:?}", other),
    }
}

#[test]
fn recognize_priority_is_override_authority_host_socket() {
    let per = LogicalPerRequest(InetAddr { ip: 9, port: 80 });
    let o = Addr::Name(NameAddr { host: b"override".to_vec(), port: 1 });
    let a = Addr::Name(NameAddr { host: b"authority".to_vec(), port: 2 });
    let h = Addr::Name(NameAddr { host: b"host".to_vec(), port: 3 });
    assert_eq!(
        per.recognize(Some(o.clone()), Some(a.clone()), Some(h.clone())).dst,
        o
    );
    assert_eq!(per.recognize(None, Some(a.clone()), Some(h.clone())).dst, a);
    assert_eq!(per.recognize(None, None, Some(h.clone())).dst, h);
    assert_eq!(
        per.recognize(None, None, None).dst,
        Addr::Sock(InetAddr { ip: 9, port: 80 })
    );
}

#[test]
fn tcp_logical_switch_follows_the_profile() {
    let logical = Logical {
        dst: Addr::Sock(InetAddr { ip: 5, port: 90 }),
        orig_target: InetAddr { ip: 5, port: 90 },
    };
    // No profile: forward to the original destination.
    match tcp_logical_route(&logical, None) {
        TcpRoute::Forward(ep) => assert_eq!(ep.addr, InetAddr { ip: 5, port: 90 }),
        other => panic!("expected a forward, got {:?}", other),
    }
    // A profile naming a canonical address: balance over it.
    let mut p = ProfileValue::empty();
    p.logical_addr = Some(NameAddr { host: b"svc".to_vec(), port: 90 });
    match tcp_logical_route(&logical, Some(Receiver::new(p))) {
        TcpRoute::Balance(t) => {
            assert_eq!(t.addr.host, b"svc".to_vec());
            assert_eq!(t.orig_dst, InetAddr { ip: 5, port: 90 });
        }
        other => panic!("expected the balancer, got {:?}", other),
    }
}

#[test]
fn endpoints_carry_discovery_metadata() {
    let concrete = proxy_core::outbound::Concrete {
        dst: Addr::Sock(InetAddr { ip: 1, port: 1 }),
        logical: Logical {
            dst: Addr::Sock(InetAddr { ip: 1, port: 1 }),
            orig_target: InetAddr { ip: 1, port: 1 },
        },
    };
    let meta = Metadata {
        identity: Some(b"server.id".to_vec()),
        authority_override: None,
        protocol_h2: true,
    };
    let ep = FromMetadata.map_endpoint(concrete, InetAddr { ip: 2, port: 2 }, meta);
    assert_eq!(ep.identity, Some(b"server.id".to_vec()));
    assert!(ep.metadata.protocol_h2);
}

#[test]
fn routes_match_first_in_insertion_order() {
    let mk = |prefix: &[u8]| RouteSpec {
        matcher: RequestMatch { method: None, path_prefix: prefix.to_vec() },
        response_classes: Vec::new(),
        timeout_ms: None,
        retryable: false,
    };
    let routes = vec![mk(b"/api"), mk(b"/"), mk(b"/api/v2")];
    let req = RequestMeta { method: b"GET".to_vec(), path: b"/api/v2/x".to_vec() };
    assert_eq!(match_route(&routes, &req), Some(0));
    let req2 = RequestMeta { method: b"GET".to_vec(), path: b"/other".to_vec() };
    assert_eq!(match_route(&routes, &req2), Some(1));
    let strict = vec![RouteSpec {
        matcher: RequestMatch { method: Some(b"POST".to_vec()), path_prefix: b"/".to_vec() },
        response_classes: Vec::new(),
        timeout_ms: None,
        retryable: false,
    }];
    assert_eq!(match_route(&strict, &req2), None);
}

#[test]
fn route_keys_carry_their_direction() {
    let spec = RouteSpec {
        matcher: RequestMatch { method: None, path_prefix: b"/".to_vec() },
        response_classes: Vec::new(),
        timeout_ms: Some(250),
        retryable: true,
    };
    let addr = NameAddr { host: b"svc".to_vec(), port: 80 };
    let out = Route::outbound(spec.clone(), addr.clone());
    assert_eq!(out.direction, Direction::Out);
    assert_eq!(out.timeout(), Some(250));
    let inb = Route::inbound(spec, addr);
    assert_eq!(inb.direction, Direction::In);
}

#[test]
fn client_follows_the_detected_version() {
    let layer = MakeClientLayer::new(H2Settings::default());
    let mk = layer.layer(0u8);
    match mk.clone().call(HttpVersion::Http1) {
        Client::Http1 { connect } => assert_eq!(connect, 0),
        other => panic!("unexpected {:?}", other),
    }
    let c2 = mk.call(HttpVersion::H2);
    assert_eq!(c2.version(), HttpVersion::H2);
}

#[test]
fn fail_fast_sheds_after_its_timeout() {
    let mut ff = FailFast::new(3000);
    assert_eq!(ff.poll(0, true), Poll::Ready);
    assert_eq!(ff.poll(10, false), Poll::Pending);
    assert_eq!(ff.poll(2000, false), Poll::Pending);
    assert_eq!(ff.poll(3010, false), Poll::Shed(ErrorKind::FailFast));
    assert_eq!(ff.state, FailFastState::Failing);
    // Recovery: the inner stack becomes ready again.
    assert_eq!(ff.poll(4000, true), Poll::Ready);
}

#[test]
fn concurrency_limit_caps_in_flight_calls() {
    let mut limit = ConcurrencyLimit::new(2);
    assert_eq!(limit.acquire(), Poll::Ready);
    assert_eq!(limit.acquire(), Poll::Ready);
    assert_eq!(limit.acquire(), Poll::Shed(ErrorKind::LoadShed));
    limit.release();
    assert_eq!(limit.acquire(), Poll::Ready);
}

#[test]
fn spawn_buffer_is_first_in_first_out() {
    let mut buffer: SpawnBuffer<u8> = SpawnBuffer::new(2);
    assert!(buffer.ready());
    buffer.push(1).expect("room");
    buffer.push(2).expect("room");
    assert!(!buffer.ready());
    assert_eq!(buffer.push(3), Err(ErrorKind::LoadShed));
    assert_eq!(buffer.pop(), Some(1));
    assert_eq!(buffer.pop(), Some(2));
    assert_eq!(buffer.pop(), None);
}

#[test]
fn optional_factory_prefers_the_alternate() {
    let chosen = NewOptional::new(1u8, Some(2u8)).new_service();
    assert_eq!(chosen, Either::B(2));
    let fallback = NewOptional::<u8, u8>::new(1u8, None).new_service();
    assert_eq!(fallback, Either::A(1));
}

#[test]
fn spawn_ready_wraps_its_service() {
    let made = SpawnReadyLayer::new().layer(5u8);
    assert_eq!(made.inner, 5);
    let fut = MakeSpawnReady::new(6u8).call();
    assert_eq!(fut.inner, 6);
}

#[test]
fn handshake_layer_carries_the_identity() {
    let layer = NewHandshake::<()>::layer(Some(local()));
    let nh = layer.wrap(());
    match nh.new_service(Some(b"gw.linkerd.example".to_vec()), 1u8) {
        Handshake::Enabled { .. } => {}
        other => panic!("expected termination, got {:?}", other),
    }
}

#[test]
fn tcp_logical_stack_keeps_its_settings() {
    let outbound = proxy_core::outbound::Outbound {
        stack: 0u8,
        dispatch_timeout_ms: 3000,
        buffer_capacity: 10_000,
        cache_max_idle_age_ms: 60_000,
    };
    let layered = outbound.push_tcp_logical(1u8);
    assert_eq!(layered.stack.dispatch_timeout_ms, 3000);
    assert_eq!(layered.stack.buffer_capacity, 10_000);
    assert_eq!(layered.stack.cache_max_idle_age_ms, 60_000);
    let logical = Logical {
        dst: Addr::Sock(InetAddr { ip: 5, port: 90 }),
        orig_target: InetAddr { ip: 5, port: 90 },
    };
    match layered.stack.route(&logical, None) {
        TcpRoute::Forward(ep) => assert_eq!(ep.addr, InetAddr { ip: 5, port: 90 }),
        other => panic!("expected a forward, got {:?}", other),
    }
}

#[test]
fn authorities_render_as_host_and_port() {
    let a = NameAddr { host: b"app".to_vec(), port: 4143 };
    assert_eq!(a.as_http_authority(), b"app:4143".to_vec());
    let b = NameAddr { host: b"x.y".to_vec(), port: 0 };
    assert_eq!(b.as_http_authority(), b"x.y:0".to_vec());
    let c = NameAddr { host: b"z".to_vec(), port: 65535 };
    assert_eq!(c.as_http_authority(), b"z:65535".to_vec());
}
