//! The endpoint balancer and the weighted split.

use proxy_core::addr::InetAddr;
use proxy_core::balance::{
    pick_split, Balancer, Update, EWMA_DEFAULT_RTT_MS,
};
use proxy_core::errors::ErrorKind;
use proxy_core::profiles::{ProfileValue, Receiver};

fn ep(n: u32) -> InetAddr {
    InetAddr { ip: 0x0a00_0000 + n, port: 5550 }
}

#[test]
fn picks_come_from_the_reset_set_only() {
    // After Reset(S), every subsequent pick is from S.
    let mut b: Balancer<u8> = Balancer::new();
    b.apply(Update::Add(vec![(ep(1), 0), (ep(2), 0)]));
    b.apply(Update::Reset(vec![(ep(3), 0), (ep(4), 0)]));
    for _ in 0..4 {
        let picked = b.pick().expect("live").expect("nonempty");
        assert!(picked == ep(3) || picked == ep(4));
        assert!(picked != ep(1) && picked != ep(2));
    }
}

#[test]
fn add_and_remove_maintain_the_table() {
    let mut b: Balancer<u8> = Balancer::new();
    b.apply(Update::Add(vec![(ep(1), 0), (ep(2), 0)]));
    b.apply(Update::Remove(vec![ep(1)]));
    let picked = b.pick().expect("live").expect("nonempty");
    assert_eq!(picked, ep(2));
}

#[test]
fn empty_table_picks_nothing() {
    let b: Balancer<u8> = Balancer::new();
    assert_eq!(b.pick(), Ok(None));
}

#[test]
fn does_not_exist_is_terminal_not_found() {
    let mut b: Balancer<u8> = Balancer::new();
    b.apply(Update::Add(vec![(ep(1), 0)]));
    b.apply(Update::DoesNotExist);
    assert_eq!(b.pick(), Err(ErrorKind::NotFound));
}

#[test]
fn pick_prefers_the_lowest_cost() {
    let mut b: Balancer<u8> = Balancer::new();
    b.apply(Update::Reset(vec![(ep(1), 0), (ep(2), 0)]));
    // Ten slow samples on ep1 raise its average above the default.
    for _ in 0..10 {
        b.update_rtt(ep(1), 900);
    }
    let picked = b.pick().expect("live").expect("nonempty");
    assert_eq!(picked, ep(2));
}

#[test]
fn rtt_average_follows_the_decay_formula() {
    // One sample folds in as (old * 9 + sample * 1) / 10.
    let mut b: Balancer<u8> = Balancer::new();
    b.apply(Update::Reset(vec![(ep(1), 0)]));
    b.update_rtt(ep(1), 130);
    let expected = (EWMA_DEFAULT_RTT_MS * 9 + 130) / 10;
    assert_eq!(b.eps[0].1.cost, expected);
    assert_eq!(expected, 40);
}

#[test]
fn add_refreshes_metadata_and_keeps_costs() {
    let mut b: Balancer<u8> = Balancer::new();
    b.apply(Update::Add(vec![(ep(1), 1)]));
    b.update_rtt(ep(1), 130);
    // A later add of a known address takes the new metadata but keeps
    // the learned cost.
    b.apply(Update::Add(vec![(ep(1), 2)]));
    assert_eq!(b.eps.len(), 1);
    assert_eq!(b.eps[0].1.meta, 2);
    assert_eq!(b.eps[0].1.cost, 40);
}

#[test]
fn split_follows_the_weights() {
    // A 100/0 split always picks the first entry; 0/100 the second.
    let w_all_first: Vec<u32> = vec![100, 0];
    for draw in [0u64, 1, 50, 99, 100, 1000] {
        assert_eq!(pick_split(&w_all_first, draw), Some(0));
    }
    let w_all_second: Vec<u32> = vec![0, 100];
    for draw in [0u64, 7, 99, 5550] {
        assert_eq!(pick_split(&w_all_second, draw), Some(1));
    }
}

#[test]
fn split_boundaries_are_exact() {
    let w: Vec<u32> = vec![10, 30];
    assert_eq!(pick_split(&w, 0), Some(0));
    assert_eq!(pick_split(&w, 9), Some(0));
    assert_eq!(pick_split(&w, 10), Some(1));
    assert_eq!(pick_split(&w, 39), Some(1));
    // Draws reduce modulo the total weight.
    assert_eq!(pick_split(&w, 40), Some(0));
}

#[test]
fn all_zero_split_picks_nothing() {
    assert_eq!(pick_split(&vec![0, 0, 0], 5), None);
    assert_eq!(pick_split(&Vec::new(), 5), None);
}

#[test]
fn profile_switch_redirects_new_requests_only() {
    // Request A reads snapshot P0 (split 100/0) and keeps it; discovery
    // pushes P1 (split 0/100); request B reads P1.  A's snapshot is
    // unaffected by the push.
    let mut p0 = ProfileValue::empty();
    p0.split = vec![
        (proxy_core::addr::NameAddr { host: b"e1".to_vec(), port: 1 }, 100),
        (proxy_core::addr::NameAddr { host: b"e2".to_vec(), port: 2 }, 0),
    ];
    let mut rx = Receiver::new(p0);

    let snapshot_a = rx.borrow().clone();
    let weights_a: Vec<u32> = snapshot_a.split.iter().map(|s| s.1).collect();
    assert_eq!(pick_split(&weights_a, 41), Some(0)); // dispatched to e1

    let mut p1 = ProfileValue::empty();
    p1.split = vec![
        (proxy_core::addr::NameAddr { host: b"e1".to_vec(), port: 1 }, 0),
        (proxy_core::addr::NameAddr { host: b"e2".to_vec(), port: 2 }, 100),
    ];
    rx.update(p1);

    let weights_b: Vec<u32> = rx.borrow().split.iter().map(|s| s.1).collect();
    assert_eq!(pick_split(&weights_b, 41), Some(1)); // dispatched to e2

    // Request A's in-flight snapshot still splits 100/0.
    let weights_a_again: Vec<u32> = snapshot_a.split.iter().map(|s| s.1).collect();
    assert_eq!(pick_split(&weights_a_again, 41), Some(0));
    assert_eq!(rx.generation, 1);
}
