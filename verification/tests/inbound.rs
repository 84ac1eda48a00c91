//! The inbound admission pipeline, its configuration and error mapping.

use proxy_core::addr::{Addr, InetAddr, NameAddr, Suffix, IpNet, LOOPBACK_IP};
use proxy_core::config::{default_connect, default_proxy, ExponentialBackoff};
use proxy_core::detect::{classify_http, Classify, HttpVersion};
use proxy_core::errors::{http_status_of, ErrorKind, NonOpaqueRefused};
use proxy_core::inbound::{
    tcp_connect_loopback, trace_labels, AcceptPlan, Config, NameMatch, PathChoice, PreventLoop,
    RegularRoute, RequireIdentityForPorts, ServerDecision, SkipByPort, TcpAccept, TcpEndpoint,
};
use proxy_core::outbound::{reconnect_decision, ReconnectStep};
use proxy_core::permit::PermitConfiguredDsts;
use proxy_core::ports::{port_set_from, port_set_new};
use proxy_core::tls::{ConditionalServerTls, ServerTls};

fn config(skip: Vec<u16>, require_id: Vec<u16>) -> Config {
    Config {
        allow_discovery: NameMatch {
            suffixes: vec![Suffix::Name(b"svc.example.com".to_vec())],
        },
        proxy: default_proxy(InetAddr { ip: LOOPBACK_IP, port: 4143 }),
        require_identity_for_inbound_ports: RequireIdentityForPorts(port_set_from(&require_id)),
        disable_protocol_detection_for_ports: SkipByPort(port_set_from(&skip)),
        profile_idle_timeout_ms: 500,
    }
}

fn accept(port: u16, tls: ConditionalServerTls) -> TcpAccept {
    TcpAccept {
        target_addr: InetAddr { ip: 0x0a00_0001, port },
        peer_addr: InetAddr { ip: 0x0a00_0002, port: 39999 },
        tls,
    }
}

fn no_tls() -> ConditionalServerTls {
    ConditionalServerTls::NoTls(proxy_core::errors::NoServerTls::NoClientHello)
}

fn established_with_id() -> ConditionalServerTls {
    ConditionalServerTls::Tls(ServerTls::Established {
        client_id: Some(proxy_core::tls::ClientId(b"peer".to_vec())),
        negotiated_protocol: None,
    })
}

#[test]
fn skipped_port_bypasses_all_detection() {
    // A port in disable_protocol_detection_for_ports is forwarded with no
    // TLS and no HTTP detection attempted.
    let inbound = config(vec![25, 3306], vec![]).build(
        PreventLoop { port: 4143 },
        None,
        (),
    );
    match inbound.plan_accept(InetAddr { ip: 0x0a00_0001, port: 3306 }) {
        AcceptPlan::ForwardNoDetect(ep) => assert_eq!(ep.port, 3306),
        AcceptPlan::Detect => panic!("a skipped port must not be detected"),
    }
    assert_eq!(
        inbound.plan_accept(InetAddr { ip: 0x0a00_0001, port: 8080 }),
        AcceptPlan::Detect
    );
}

#[test]
fn port_set_distinguishes_members() {
    // The insertion-ordered set answers members and non-members apart.
    let set = port_set_from(&vec![25, 3306]);
    let skip = SkipByPort(set);
    assert!(!skip.use_primary(25));
    assert!(!skip.use_primary(3306));
    assert!(skip.use_primary(80));
    let empty = SkipByPort(port_set_new());
    assert!(empty.use_primary(25));
}

#[test]
fn identity_required_rejects_anonymous_connections() {
    let inbound = config(vec![], vec![8080]).build(PreventLoop { port: 4143 }, None, ());
    let r = inbound.admit_tls(&accept(8080, no_tls()));
    assert_eq!(r, Err(ErrorKind::IdentityRequired));
    let r = inbound.admit_tls(&accept(8080, established_with_id()));
    assert_eq!(r, Ok(PathChoice::Regular));
}

#[test]
fn proxy_port_takes_the_direct_path() {
    let inbound = config(vec![], vec![]).build(PreventLoop { port: 4143 }, None, ());
    assert_eq!(
        inbound.admit_tls(&accept(4143, no_tls())),
        Ok(PathChoice::Direct)
    );
    assert_eq!(
        inbound.admit_tls(&accept(8080, no_tls())),
        Ok(PathChoice::Regular)
    );
}

#[test]
fn non_http_regular_traffic_is_forwarded() {
    let inbound = config(vec![], vec![]).build(PreventLoop { port: 4143 }, None, ());
    let a = accept(8080, no_tls());
    assert_eq!(
        inbound.route_http(&a, None),
        RegularRoute::TcpForward(TcpEndpoint { port: 8080 })
    );
    assert_eq!(
        inbound.route_http(&a, Some(HttpVersion::Http1)),
        RegularRoute::Http(HttpVersion::Http1)
    );
}

#[test]
fn direct_path_refuses_non_http() {
    let inbound = config(vec![], vec![]).build(PreventLoop { port: 4143 }, None, ());
    assert_eq!(inbound.direct_route(None), Err(ErrorKind::Io));
    assert_eq!(NonOpaqueRefused.kind(), ErrorKind::Io);
    assert_eq!(inbound.direct_route(Some(HttpVersion::H2)), Ok(HttpVersion::H2));
}

#[test]
fn inbound_http1_to_loopback() {
    // A plain HTTP/1.1 connection to port 4143: no ClientHello, the port
    // requires no identity, the preamble classifies as HTTP/1, no profile
    // gates it, and a TCP-forward target maps to 127.0.0.1:4143.
    let inbound = config(vec![], vec![]).build(PreventLoop { port: 4999 }, None, ());
    let a = accept(4143, no_tls());
    assert_eq!(inbound.plan_accept(a.target_addr), AcceptPlan::Detect);
    assert_eq!(inbound.admit_tls(&a), Ok(PathChoice::Regular));
    let c = classify_http(&b"GET / HTTP/1.1\r\nHost: app\r\n\r\n".to_vec());
    assert_eq!(c, Classify::Matched(HttpVersion::Http1));
    let ep = TcpEndpoint::from_accept(&a);
    let connect = tcp_connect_loopback(&default_connect());
    let target = connect.target_addr(&ep);
    assert_eq!(target, InetAddr { ip: LOOPBACK_IP, port: 4143 });
}

#[test]
fn server_composes_every_switch() {
    let inbound = config(vec![3306], vec![8443]).build(PreventLoop { port: 4143 }, None, ());
    // Skipped port: forwarded untouched.
    assert_eq!(
        inbound.server(&accept(3306, no_tls()), None),
        ServerDecision::ForwardNoDetect(TcpEndpoint { port: 3306 })
    );
    // Identity-required port without a client identity: refused.
    assert_eq!(
        inbound.server(&accept(8443, no_tls()), Some(HttpVersion::Http1)),
        ServerDecision::Reject(ErrorKind::IdentityRequired)
    );
    // The proxy's own port: HTTP goes to the gateway, the rest is refused.
    assert_eq!(
        inbound.server(&accept(4143, no_tls()), Some(HttpVersion::H2)),
        ServerDecision::DirectHttp(HttpVersion::H2)
    );
    assert_eq!(
        inbound.server(&accept(4143, no_tls()), None),
        ServerDecision::Reject(ErrorKind::Io)
    );
    // A regular port: HTTP is routed, the rest forwarded to loopback.
    assert_eq!(
        inbound.server(&accept(8080, no_tls()), Some(HttpVersion::Http1)),
        ServerDecision::RegularHttp(HttpVersion::Http1)
    );
    assert_eq!(
        inbound.server(&accept(8080, no_tls()), None),
        ServerDecision::TcpForward(TcpEndpoint { port: 8080 })
    );
}

#[test]
fn tcp_forward_connects_to_loopback_with_the_connect_timeout() {
    let inbound = config(vec![], vec![]).build(PreventLoop { port: 4143 }, None, ());
    let (addr, timeout_ms) = inbound.tcp_forward(&TcpEndpoint { port: 8080 });
    assert_eq!(addr, InetAddr { ip: LOOPBACK_IP, port: 8080 });
    assert_eq!(timeout_ms, 1000);
}

#[test]
fn profile_stack_falls_back_when_slow() {
    let inbound = config(vec![], vec![]).build(PreventLoop { port: 4143 }, None, ());
    assert!(inbound.use_profile_stack(true, 10_000));
    assert!(inbound.use_profile_stack(false, 499));
    assert!(!inbound.use_profile_stack(false, 500));
}

#[test]
fn discovery_is_gated_by_the_allow_list() {
    let inbound = config(vec![], vec![]).build(PreventLoop { port: 4143 }, None, ());
    let allowed = Addr::Name(NameAddr { host: b"foo.ns1.svc.example.com".to_vec(), port: 80 });
    let denied = Addr::Name(NameAddr { host: b"foo.elsewhere.io".to_vec(), port: 80 });
    let sock = Addr::Sock(InetAddr { ip: 1, port: 2 });
    assert!(inbound.should_discover(&allowed));
    assert!(!inbound.should_discover(&denied));
    assert!(!inbound.should_discover(&sock));
}

#[test]
fn permit_filter_matches_suffixes_and_networks() {
    let permit = PermitConfiguredDsts::new(
        vec![Suffix::Name(b"svc.example.com".to_vec())],
        vec![IpNet { addr: 0x0a00_0000, prefix: 8 }],
    );
    let in_net = Addr::Sock(InetAddr { ip: 0x0a01_0203, port: 80 });
    let out_net = Addr::Sock(InetAddr { ip: 0x0b00_0001, port: 80 });
    assert_eq!(permit.filter(in_net.clone()), Ok(in_net));
    assert_eq!(permit.filter(out_net), Err(ErrorKind::DiscoveryRejected));
    let named = Addr::Name(NameAddr { host: b"a.svc.example.com".to_vec(), port: 80 });
    assert_eq!(permit.filter(named.clone()), Ok(named));
    let other = Addr::Name(NameAddr { host: b"a.other.io".to_vec(), port: 80 });
    let strict = PermitConfiguredDsts::new(vec![], vec![]).with_error(ErrorKind::NotFound);
    assert_eq!(strict.filter(other), Err(ErrorKind::NotFound));
}

#[test]
fn suffix_matching_is_on_label_boundaries() {
    let suf = Suffix::Name(b"example.com".to_vec());
    assert!(suf.contains(&b"example.com".to_vec()));
    assert!(suf.contains(&b"a.example.com".to_vec()));
    assert!(!suf.contains(&b"notexample.com".to_vec()));
    assert!(Suffix::Root.contains(&b"anything.at.all".to_vec()));
}

#[test]
fn error_kinds_map_to_their_statuses() {
    assert_eq!(http_status_of(ErrorKind::NotFound), 502);
    assert_eq!(http_status_of(ErrorKind::BadDomain), 502);
    assert_eq!(http_status_of(ErrorKind::NoAuthority), 502);
    assert_eq!(http_status_of(ErrorKind::IdentityRequired), 403);
    assert_eq!(http_status_of(ErrorKind::GatewayLoop), 502);
    assert_eq!(http_status_of(ErrorKind::FailFast), 503);
    assert_eq!(http_status_of(ErrorKind::LoadShed), 503);
    assert_eq!(http_status_of(ErrorKind::Timeout), 504);
    assert_eq!(http_status_of(ErrorKind::Io), 502);
}

#[test]
fn connect_reset_becomes_bad_gateway() {
    // An endpoint whose connects keep failing: once the next backoff
    // delay overruns the dispatch window the caller sees 502.
    let backoff = default_connect().backoff;
    let mut elapsed: u64 = 0;
    let mut attempt: u32 = 0;
    let status = loop {
        match reconnect_decision(&backoff, attempt, elapsed, 3000) {
            ReconnectStep::RetryAfter(d) => {
                elapsed += d;
                attempt += 1;
            }
            ReconnectStep::GiveUp(kind) => break http_status_of(kind),
        }
    };
    assert_eq!(status, 502);
}

#[test]
fn backoff_doubles_and_clamps() {
    let b = ExponentialBackoff::new(100, 500, 100).expect("well formed");
    assert_eq!(b.delay_ms(0), 100);
    assert_eq!(b.delay_ms(1), 200);
    assert_eq!(b.delay_ms(2), 400);
    assert_eq!(b.delay_ms(3), 500);
    assert_eq!(b.delay_ms(9), 500);
    assert!(ExponentialBackoff::new(500, 100, 100).is_err());
    assert!(ExponentialBackoff::new(0, 100, 100).is_err());
}

#[test]
fn backoff_jitter_is_a_fraction_of_the_delay() {
    let b = ExponentialBackoff::new(100, 500, 100).expect("well formed");
    // A full draw adds jitter * delay: 10% of 500 is 50.
    assert_eq!(b.jittered(500, 1000), 550);
    assert_eq!(b.jittered(500, 0), 500);
}

#[test]
fn default_configuration_values() {
    let cfg = default_proxy(InetAddr { ip: LOOPBACK_IP, port: 0 });
    assert_eq!(cfg.buffer_capacity, 10_000);
    assert_eq!(cfg.cache_max_idle_age_ms, 60_000);
    assert_eq!(cfg.dispatch_timeout_ms, 3_000);
    assert_eq!(cfg.max_in_flight_requests, 10_000);
    assert_eq!(cfg.detect_protocol_timeout_ms, 3_000);
    let connect = default_connect();
    assert_eq!(connect.timeout_ms, 1_000);
    assert_eq!(connect.keepalive_ms, None);
}

#[test]
fn trace_labels_name_the_direction() {
    let labels = trace_labels();
    assert_eq!(labels.len(), 1);
    assert_eq!(labels[0].0, "direction");
    assert_eq!(labels[0].1, "inbound");
}

#[test]
fn server_params_come_from_the_config() {
    let inbound = config(vec![], vec![]).build(PreventLoop { port: 4143 }, None, ());
    let params = inbound.http_server();
    assert_eq!(params.max_in_flight, 10_000);
    assert_eq!(params.dispatch_timeout_ms, 3_000);
}
