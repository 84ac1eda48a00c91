//! The in-memory discovery resolver.

use proxy_core::addr::{Addr, InetAddr, NameAddr};
use proxy_core::balance::Update;
use proxy_core::profiles::ProfileValue;
use proxy_core::resolver::{no_destinations, no_profiles, Dst, Profiles, Resolver};

fn name(host: &[u8]) -> NameAddr {
    NameAddr { host: host.to_vec(), port: 5550 }
}

#[test]
fn configured_endpoint_resolves_once() {
    let dst: Dst<u8> = Resolver::default();
    let mut dst = dst.endpoint_exists(name(b"foo.ns1.svc.example.com"), ep(41), 7);
    let frames = dst.resolve(&name(b"foo.ns1.svc.example.com"));
    assert_eq!(frames.len(), 1);
    match &frames[0] {
        Ok(Update::Add(v)) => assert_eq!(v[0], (ep(41), 7)),
        other => panic!("expected an add frame, got {:?}", other),
    }
    // The answer was handed out: the table is empty and only configured
    // targets were asked for.
    let h = dst.handle();
    assert!(h.is_empty());
    assert!(h.only_configured());
}

fn ep(n: u32) -> InetAddr {
    InetAddr { ip: 0x0a00_0000 + n, port: 5550 }
}

#[test]
fn unconfigured_endpoint_does_not_exist() {
    let (mut dst, _) = Dst::<u8>::with_handle();
    let frames = dst.resolve(&name(b"unknown.example.com"));
    assert_eq!(frames.len(), 1);
    assert_eq!(frames[0], Ok(Update::DoesNotExist));
    assert!(!dst.handle().only_configured());
}

#[test]
fn sender_pushes_frames_at_the_subscription() {
    let (mut dst, _) = Dst::<u8>::with_handle();
    let tx = dst.endpoint_tx(name(b"svc.example.com"));
    tx.add(&mut dst, vec![(ep(1), 9)]).expect("subscribed");
    tx.reset(&mut dst, vec![(ep(2), 9)]).expect("subscribed");
    tx.does_not_exist(&mut dst).expect("subscribed");
    let frames = dst.resolve(&name(b"svc.example.com"));
    assert_eq!(frames.len(), 3);
    assert_eq!(frames[2], Ok(Update::DoesNotExist));
    // Once resolved away, sends fail.
    assert!(tx.add(&mut dst, vec![(ep(3), 9)]).is_err());
}

#[test]
fn profiles_hand_out_configured_snapshots() {
    let profiles: Profiles = Resolver::default();
    let addr = Addr::Sock(ep(41));
    let mut snapshot = ProfileValue::empty();
    snapshot.name = Some(b"foo".to_vec());
    let mut profiles = profiles.profile(addr.clone(), snapshot);
    let rx = profiles.lookup(&addr).expect("configured");
    assert_eq!(rx.current.name, Some(b"foo".to_vec()));
    assert!(profiles.handle().is_empty());
}

#[test]
fn no_profile_answers_none_without_marking() {
    let profiles: Profiles = Resolver::default();
    let addr = Addr::Sock(ep(41));
    let mut profiles = profiles.no_profile(addr.clone());
    assert!(profiles.lookup(&addr).is_none());
    assert!(profiles.handle().only_configured());
}

#[test]
fn unconfigured_profile_lookup_is_marked() {
    let (mut profiles, _) = Profiles::with_handle();
    assert!(profiles.lookup(&Addr::Sock(ep(1))).is_none());
    assert!(!profiles.handle().only_configured());
}

#[test]
fn profile_sender_replaces_snapshots() {
    let (mut profiles, _) = Profiles::with_handle();
    let addr = Addr::Name(name(b"foo.ns1.svc.example.com"));
    let tx = profiles.profile_tx(addr.clone());
    let mut next = ProfileValue::empty();
    next.opaque_protocol = true;
    tx.send(&mut profiles, next).expect("still watched");
    let rx = profiles.lookup(&addr).expect("configured");
    assert!(rx.current.opaque_protocol);
    assert_eq!(rx.generation, 1);
    // The profile was taken away; later sends fail.
    assert!(tx.send(&mut profiles, ProfileValue::empty()).is_err());
}

#[test]
fn silent_resolvers_exist_for_tests_expecting_no_lookups() {
    let _ = no_destinations::<u8>();
    let _ = no_profiles();
}
