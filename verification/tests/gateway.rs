//! The gateway: loop prevention, header rewriting and terminal states.

use proxy_core::addr::{Addr, InetAddr, NameAddr};
use proxy_core::detect::HttpVersion;
use proxy_core::errors::{http_status_of, ErrorKind};
use proxy_core::gateway::{
    build_forwarded, fwd_by, sentinel_orig_dst, HttpGateway, NewHttpGateway,
};
use proxy_core::inbound::Target;

fn local_id() -> Vec<u8> {
    b"spiffe://cluster.local/gw".to_vec()
}

fn target_to(dst: Addr) -> Target {
    Target {
        dst,
        socket_addr: InetAddr { ip: 0x0a00_0001, port: 4143 },
        tls_client_id: Some(b"spiffe://cluster.local/peer".to_vec()),
        http_version: Some(HttpVersion::Http1),
    }
}

#[test]
fn fwd_by_reads_the_by_parameter() {
    assert_eq!(
        fwd_by(&b"by=a;for=b;host=h;proto=https".to_vec()),
        Some(b"a".to_vec())
    );
}

#[test]
fn fwd_by_scans_later_parameters() {
    assert_eq!(fwd_by(&b"for=b;by=me;host=h".to_vec()), Some(b"me".to_vec()));
}

#[test]
fn fwd_by_value_stops_at_the_next_equals() {
    // A value runs only to the next `=`, so `by=a=b` reads as `a`.
    assert_eq!(fwd_by(&b"by=a=b".to_vec()), Some(b"a".to_vec()));
}

#[test]
fn fwd_by_without_equals_is_empty_handed() {
    assert_eq!(fwd_by(&b"by;for=b".to_vec()), None);
    assert_eq!(fwd_by(&b"host=h;proto=https".to_vec()), None);
}

#[test]
fn forwarded_header_has_the_exact_shape() {
    let fwd = build_forwarded(
        &b"gw.example".to_vec(),
        &b"peer.example".to_vec(),
        &b"app.ns:8080".to_vec(),
    );
    assert_eq!(
        fwd,
        b"by=gw.example;for=peer.example;host=app.ns:8080;proto=https".to_vec()
    );
}

#[test]
fn gateway_loop_is_refused_with_502() {
    // An inbound request already carrying `Forwarded: by=<local id>` fails
    // with the gateway-loop error; nothing is dispatched outbound.
    let dst = NameAddr { host: b"app.ns.svc.example.com".to_vec(), port: 8080 };
    let gw = HttpGateway::new((), &dst, &b"peer".to_vec(), &local_id());
    let headers = vec![b"by=spiffe://cluster.local/gw;for=x;host=h;proto=https".to_vec()];
    let r = gw.call(HttpVersion::Http1, &headers);
    assert_eq!(r, Err(ErrorKind::GatewayLoop));
    assert_eq!(http_status_of(ErrorKind::GatewayLoop), 502);
}

#[test]
fn gateway_forwards_when_no_loop_is_present() {
    let dst = NameAddr { host: b"app.ns".to_vec(), port: 8080 };
    let gw = HttpGateway::new((), &dst, &b"peer".to_vec(), &local_id());
    let headers = vec![b"by=spiffe://other.cluster/gw;for=x".to_vec()];
    let plan = gw.call(HttpVersion::Http1, &headers).expect("must forward");
    assert_eq!(
        plan.append_forwarded,
        b"by=spiffe://cluster.local/gw;for=peer;host=app.ns:8080;proto=https".to_vec()
    );
    // HTTP/1 requests get their Host header rewritten to the authority.
    assert_eq!(plan.set_host, Some(b"app.ns:8080".to_vec()));
}

#[test]
fn gateway_leaves_h2_host_alone() {
    let dst = NameAddr { host: b"app.ns".to_vec(), port: 8080 };
    let gw = HttpGateway::new((), &dst, &b"peer".to_vec(), &local_id());
    let plan = gw.call(HttpVersion::H2, &Vec::new()).expect("must forward");
    assert_eq!(plan.set_host, None);
}

#[test]
fn gateway_requires_identities() {
    let factory = NewHttpGateway::new((), None);
    let gw = factory.new_service(Some(b"app".to_vec()), target_to(Addr::Name(NameAddr {
        host: b"app".to_vec(),
        port: 80,
    })));
    let r = gw.call(HttpVersion::Http1, &Vec::new());
    assert_eq!(r, Err(ErrorKind::IdentityRequired));
    assert_eq!(http_status_of(ErrorKind::IdentityRequired), 403);
}

#[test]
fn gateway_without_profile_name_is_a_bad_domain() {
    let factory = NewHttpGateway::new((), Some(local_id()));
    let gw = factory.new_service(
        None,
        target_to(Addr::Name(NameAddr { host: b"app.elsewhere".to_vec(), port: 80 })),
    );
    let r = gw.call(HttpVersion::Http1, &Vec::new());
    assert_eq!(r, Err(ErrorKind::BadDomain));
    assert_eq!(http_status_of(ErrorKind::BadDomain), 502);
}

#[test]
fn gateway_socket_target_has_no_authority() {
    let factory = NewHttpGateway::new((), Some(local_id()));
    let gw = factory.new_service(
        None,
        target_to(Addr::Sock(InetAddr { ip: 0x0a00_0001, port: 80 })),
    );
    let r = gw.call(HttpVersion::Http1, &Vec::new());
    assert_eq!(r, Err(ErrorKind::NoAuthority));
    assert_eq!(http_status_of(ErrorKind::NoAuthority), 502);
}

#[test]
fn gateway_builds_outbound_from_profile_name() {
    let factory = NewHttpGateway::new((), Some(local_id()));
    let gw = factory.new_service(
        Some(b"app.ns.svc.example.com".to_vec()),
        target_to(Addr::Sock(InetAddr { ip: 0x0a00_0001, port: 8080 })),
    );
    let plan = gw.call(HttpVersion::Http1, &Vec::new()).expect("must forward");
    assert_eq!(plan.set_host, Some(b"app.ns.svc.example.com:8080".to_vec()));
}

#[test]
fn gateway_orig_dst_is_the_unroutable_sentinel() {
    let a = sentinel_orig_dst(8080);
    assert_eq!(a, InetAddr { ip: 0, port: 8080 });
}
