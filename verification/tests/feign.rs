use feign::cache::AddressCache;
use feign::client::Builder;
use feign::endpoint::{Endpoint, IpAddress};
use feign::error::ResolutionError;
use feign::laws::next_rounds;
use feign::resolver::{resolve_answer, AddressRecord, Answer, SrvRecord};
use feign::selector::{select, EndpointSelector};
use feign::shared::SharedCache;

fn srv(target: &str, port: u16, ttl: u32) -> SrvRecord {
    SrvRecord { target: target.to_string(), port, ttl }
}

fn addr(name: &str, address: IpAddress, ttl: u32) -> AddressRecord {
    AddressRecord { name: name.to_string(), address, ttl }
}

fn ep(a: u8, b: u8, c: u8, d: u8, port: u16) -> Endpoint {
    Endpoint { address: IpAddress::V4(a, b, c, d), port }
}

/// Two instances, as one discovery answer: 10.0.0.1:9001 and 10.0.0.2:9002.
fn two_endpoint_answer(ttl: u32) -> Answer {
    Answer {
        srvs: vec![srv("a.node.consul", 9001, ttl), srv("b.node.consul", 9002, ttl)],
        addrs: vec![
            addr("a.node.consul", IpAddress::V4(10, 0, 0, 1), ttl),
            addr("b.node.consul", IpAddress::V4(10, 0, 0, 2), ttl),
        ],
    }
}

#[test]
fn scenario_ttl_five_alternates_then_refreshes() {
    let builder = Builder::new((), ());
    let mut client = builder
        .build("svc.service.consul".to_string(), Ok(two_endpoint_answer(5)), 0)
        .unwrap();
    assert_eq!(client.host(), "svc.service.consul");
    let e1 = ep(10, 0, 0, 1, 9001);
    let e2 = ep(10, 0, 0, 2, 9002);
    // TTL 5 at t=0: fresh through t=5, so t=1,2,3 alternate without resolving.
    assert_eq!(client.next_addr(1), Some(e1));
    assert_eq!(client.next_addr(2), Some(e2));
    assert_eq!(client.next_addr(3), Some(e1));
    // t=6 is past the expiry: the cache refuses to serve and asks for a refresh.
    assert_eq!(client.next_addr(6), None);
    let got = client.next_addr_refreshed(Ok(two_endpoint_answer(5)), 6).unwrap();
    // The counter carried over the refresh: this is the fourth pick.
    assert_eq!(got, e2);
    // The new snapshot is fresh until t=11.
    assert_eq!(client.next_addr(7), Some(e1));
    assert_eq!(client.next_addr(11), Some(e2));
    assert_eq!(client.next_addr(12), None);
}

#[test]
fn round_robin_cycles_without_repeat() {
    let eps = vec![ep(10, 0, 0, 1, 1), ep(10, 0, 0, 2, 2), ep(10, 0, 0, 3, 3)];
    let mut sel = EndpointSelector::new();
    let mut seen = Vec::new();
    for _ in 0..7 {
        seen.push(sel.next(&eps));
    }
    assert_eq!(
        seen,
        vec![eps[0], eps[1], eps[2], eps[0], eps[1], eps[2], eps[0]],
    );
    // No endpoint comes round again before all three were served.
    assert_ne!(seen[0], seen[1]);
    assert_ne!(seen[0], seen[2]);
    assert_ne!(seen[1], seen[2]);
}

#[test]
fn consecutive_rounds_advance_counter_once_per_call() {
    let eps = vec![ep(10, 0, 0, 1, 1), ep(10, 0, 0, 2, 2), ep(10, 0, 0, 3, 3)];
    let mut sel = EndpointSelector::new();
    let r = next_rounds(&mut sel, &eps, 7);
    assert_eq!(r, vec![eps[0], eps[1], eps[2], eps[0], eps[1], eps[2], eps[0]]);
    assert_eq!(sel.count, 7);
}

#[test]
fn round_robin_starts_at_given_counter() {
    let eps = vec![ep(10, 0, 0, 1, 1), ep(10, 0, 0, 2, 2), ep(10, 0, 0, 3, 3)];
    let mut sel = EndpointSelector::starting_at(5);
    assert_eq!(sel.next(&eps), eps[2]);
    assert_eq!(sel.next(&eps), eps[0]);
}

#[test]
fn counter_wraps_around_silently() {
    let eps = vec![ep(10, 0, 0, 1, 1), ep(10, 0, 0, 2, 2)];
    let mut sel = EndpointSelector::starting_at(u64::MAX);
    // u64::MAX is odd: it picks the second endpoint, then wraps to zero.
    assert_eq!(sel.next(&eps), eps[1]);
    assert_eq!(sel.count, 0);
    assert_eq!(sel.next(&eps), eps[0]);
}

#[test]
fn shared_counter_select_is_pure_modulo() {
    let eps = vec![ep(10, 0, 0, 1, 1), ep(10, 0, 0, 2, 2), ep(10, 0, 0, 3, 3)];
    assert_eq!(select(&eps, 0), eps[0]);
    assert_eq!(select(&eps, 1), eps[1]);
    assert_eq!(select(&eps, 5), eps[2]);
    assert_eq!(select(&eps, u64::MAX), eps[0]);
}

#[test]
fn empty_answer_surfaces_not_found() {
    let empty = Answer { srvs: vec![], addrs: vec![] };
    let r = resolve_answer(&empty, 0);
    assert!(matches!(r, Err(ResolutionError::NotFound)));
}

#[test]
fn uncorrelated_answer_surfaces_not_found() {
    // SRV records whose targets have no address record yield no endpoint.
    let answer = Answer {
        srvs: vec![srv("a.node.consul", 9001, 5)],
        addrs: vec![addr("other.node.consul", IpAddress::V4(10, 0, 0, 9), 5)],
    };
    let r = resolve_answer(&answer, 0);
    assert!(matches!(r, Err(ResolutionError::NotFound)));
}

#[test]
fn correlation_goes_by_target_name_not_position() {
    // The matching address record comes second: positional zipping would
    // pair the SRV record with 10.0.0.9.
    let answer = Answer {
        srvs: vec![srv("a.node.consul", 9001, 5)],
        addrs: vec![
            addr("b.node.consul", IpAddress::V4(10, 0, 0, 9), 5),
            addr("a.node.consul", IpAddress::V4(10, 0, 0, 1), 5),
        ],
    };
    let s = resolve_answer(&answer, 0).unwrap();
    assert_eq!(s.endpoints, vec![ep(10, 0, 0, 1, 9001)]);
}

#[test]
fn one_target_with_two_addresses_yields_two_endpoints() {
    let answer = Answer {
        srvs: vec![srv("a.node.consul", 9001, 5)],
        addrs: vec![
            addr("a.node.consul", IpAddress::V4(10, 0, 0, 1), 5),
            addr("a.node.consul", IpAddress::V6(1), 5),
        ],
    };
    let s = resolve_answer(&answer, 0).unwrap();
    assert_eq!(
        s.endpoints,
        vec![ep(10, 0, 0, 1, 9001), Endpoint { address: IpAddress::V6(1), port: 9001 }],
    );
}

#[test]
fn expiry_is_minimum_ttl_across_all_records() {
    let answer = Answer {
        srvs: vec![srv("a.node.consul", 9001, 5), srv("b.node.consul", 9002, 7)],
        addrs: vec![
            addr("a.node.consul", IpAddress::V4(10, 0, 0, 1), 3),
            addr("b.node.consul", IpAddress::V4(10, 0, 0, 2), 9),
        ],
    };
    let s = resolve_answer(&answer, 100).unwrap();
    assert_eq!(s.valid_until, 103);
}

#[test]
fn expiry_saturates_at_the_largest_instant() {
    let answer = Answer {
        srvs: vec![srv("a.node.consul", 9001, 10)],
        addrs: vec![addr("a.node.consul", IpAddress::V4(10, 0, 0, 1), 10)],
    };
    let s = resolve_answer(&answer, u64::MAX - 2).unwrap();
    assert_eq!(s.valid_until, u64::MAX);
}

#[test]
fn freshness_is_inclusive_at_the_expiry_instant() {
    let builder = Builder::new((), ());
    let mut client = builder
        .build("svc.service.consul".to_string(), Ok(two_endpoint_answer(5)), 0)
        .unwrap();
    // valid_until is 5: a call at 5 is still served, a call at 6 is not.
    assert!(client.next_addr(5).is_some());
    assert!(client.next_addr(6).is_none());
}

#[test]
fn failed_refresh_keeps_the_prior_snapshot() {
    let builder = Builder::new((), ());
    let mut client = builder
        .build("svc.service.consul".to_string(), Ok(two_endpoint_answer(5)), 0)
        .unwrap();
    let e1 = ep(10, 0, 0, 1, 9001);
    assert_eq!(client.next_addr(10), None);
    // An empty re-resolution is a hard failure for that call ...
    let r = client.next_addr_refreshed(Ok(Answer { srvs: vec![], addrs: vec![] }), 10);
    assert!(matches!(r, Err(ResolutionError::NotFound)));
    // ... and so is a transport failure; neither touches the prior snapshot.
    let r = client.next_addr_refreshed(Err(ResolutionError::Transport), 10);
    assert!(matches!(r, Err(ResolutionError::Transport)));
    // The prior snapshot is still the current one (fresh through t=5),
    // and the counter did not advance on the failed attempts.
    assert_eq!(client.next_addr(5), Some(e1));
}

#[test]
fn construction_is_fail_fast() {
    let builder = Builder::new((), ());
    let r = builder.build(
        "svc.service.consul".to_string(),
        Err(ResolutionError::Transport),
        0,
    );
    assert!(matches!(r, Err(ResolutionError::Transport)));
    let r = builder.build(
        "svc.service.consul".to_string(),
        Ok(Answer { srvs: vec![], addrs: vec![] }),
        0,
    );
    assert!(matches!(r, Err(ResolutionError::NotFound)));
    let r = builder.build(
        "svc.service.consul".to_string(),
        Err(ResolutionError::Decode),
        0,
    );
    assert!(matches!(r, Err(ResolutionError::Decode)));
}

#[test]
fn address_cache_reads_and_publishes_whole_snapshots() {
    let snapshot = resolve_answer(&two_endpoint_answer(5), 0).unwrap();
    let mut cache = AddressCache::new(snapshot);
    assert_eq!(cache.read().valid_until, 5);
    assert!(!cache.needs_refresh(5));
    assert!(cache.needs_refresh(6));
    let renewed = resolve_answer(&two_endpoint_answer(50), 6).unwrap();
    cache.publish(renewed);
    assert_eq!(cache.read().valid_until, 56);
    assert_eq!(
        cache.read().endpoints,
        vec![ep(10, 0, 0, 1, 9001), ep(10, 0, 0, 2, 9002)],
    );
    assert!(!cache.needs_refresh(56));
}

#[test]
fn shared_cache_serves_fresh_and_refuses_stale() {
    let snapshot = resolve_answer(&two_endpoint_answer(5), 0).unwrap();
    let cache = SharedCache::new(snapshot);
    let e1 = ep(10, 0, 0, 1, 9001);
    let e2 = ep(10, 0, 0, 2, 9002);
    assert_eq!(cache.pick_if_fresh(1, 0), Some(e1));
    assert_eq!(cache.pick_if_fresh(2, 1), Some(e2));
    assert_eq!(cache.pick_if_fresh(5, 2), Some(e1));
    assert_eq!(cache.pick_if_fresh(6, 2), None);
}

#[test]
fn shared_cache_refresh_publishes_or_keeps_prior() {
    let snapshot = resolve_answer(&two_endpoint_answer(5), 0).unwrap();
    let cache = SharedCache::new(snapshot);
    let e1 = ep(10, 0, 0, 1, 9001);
    let e2 = ep(10, 0, 0, 2, 9002);
    assert_eq!(cache.pick_if_fresh(6, 0), None);
    // A successful refresh publishes the new snapshot (fresh until t=11) ...
    let got = cache.refresh_with(Ok(two_endpoint_answer(5)), 6, 0).unwrap();
    assert_eq!(got, e1);
    assert_eq!(cache.pick_if_fresh(7, 1), Some(e2));
    // ... a failed one propagates and leaves that snapshot current.
    let r = cache.refresh_with(Ok(Answer { srvs: vec![], addrs: vec![] }), 20, 2);
    assert!(matches!(r, Err(ResolutionError::NotFound)));
    let r = cache.refresh_with(Err(ResolutionError::Transport), 20, 2);
    assert!(matches!(r, Err(ResolutionError::Transport)));
    assert_eq!(cache.pick_if_fresh(11, 2), Some(e1));
}

#[test]
fn shared_cache_publish_replaces_wholesale() {
    let snapshot = resolve_answer(&two_endpoint_answer(5), 0).unwrap();
    let cache = SharedCache::new(snapshot);
    let other = Answer {
        srvs: vec![srv("c.node.consul", 7001, 50)],
        addrs: vec![addr("c.node.consul", IpAddress::V4(10, 0, 0, 3), 50)],
    };
    cache.publish(resolve_answer(&other, 0).unwrap());
    assert_eq!(cache.pick_if_fresh(1, 0), Some(ep(10, 0, 0, 3, 7001)));
    assert_eq!(cache.pick_if_fresh(1, 1), Some(ep(10, 0, 0, 3, 7001)));
}

#[test]
fn served_endpoints_stay_within_the_resolved_set() {
    let builder = Builder::new((), ());
    let mut client = builder
        .build("svc.service.consul".to_string(), Ok(two_endpoint_answer(100)), 0)
        .unwrap();
    let set = [ep(10, 0, 0, 1, 9001), ep(10, 0, 0, 2, 9002)];
    for t in 0..50u64 {
        let got = client.next_addr(t).unwrap();
        assert!(set.contains(&got));
    }
}
