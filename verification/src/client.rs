use vstd::prelude::*;

use crate::cache::{AddressCache, CacheSnapshot};
use crate::endpoint::Endpoint;
use crate::error::ResolutionError;
use crate::resolver::{answer_ttl_min, correlated, expiry_at, resolve_answer, Answer};
use crate::selector::{next_count, pick, EndpointSelector};

verus! {

/// A service-discovery client for one service name: the current resolved
/// snapshot, a shared round-robin counter, and the two handles the
/// surrounding program supplies — an address resolver and an HTTP transport.
/// The handles are opaque here; resolving and transport happen outside, and
/// their outcomes are handed in as plain values.
#[derive(Debug)]
pub struct FeignClient<AddrResolver, HttpClient> {
    resolver: AddrResolver,
    /// The HTTP transport handle, for the caller that performs requests.
    pub client: HttpClient,
    host: String,
    next: EndpointSelector,
    cache: AddressCache,
}

/// Pairs a resolver handle with an HTTP transport handle; one builder may
/// back any number of clients for different service names.
#[derive(Debug)]
pub struct Builder<AddrResolver, HttpClient> {
    resolver: AddrResolver,
    client: HttpClient,
}

impl<R, C> FeignClient<R, C> {
    /// The currently published snapshot.
    pub closed spec fn snapshot(&self) -> CacheSnapshot {
        self.cache.snapshot()
    }

    /// The round-robin counter's current value.
    pub closed spec fn counter(&self) -> u64 {
        self.next.count
    }

    /// The service host name this client resolves.
    pub closed spec fn host_name(&self) -> Seq<char> {
        self.host@
    }

    /// A client is well formed when its published snapshot is: the endpoint
    /// set is never empty.
    pub open spec fn wf(&self) -> bool {
        self.snapshot().wf()
    }

    /// The service host name to resolve, for the caller that performs the
    /// DNS round trip.
    pub fn host(&self) -> (h: &String)
        ensures
            h@ == self.host_name(),
    {
        &self.host
    }

    /// Whether a caller at `now` must resolve anew before an endpoint can
    /// be served.
    pub fn needs_refresh(&self, now: u64) -> (r: bool)
        ensures
            r == !self.snapshot().fresh_at(now),
    {
        self.cache.needs_refresh(now)
    }

    /// Serve one endpoint from the cache. While the snapshot is fresh at
    /// `now` this picks the next endpoint in round-robin order without any
    /// resolution; once the snapshot is stale it returns `None` and changes
    /// nothing — the caller must resolve and hand the outcome to
    /// `next_addr_refreshed`.
    pub fn next_addr(&mut self, now: u64) -> (r: Option<Endpoint>)
        requires
            old(self).wf(),
        ensures
            final(self).wf(),
            final(self).snapshot() == old(self).snapshot(),
            final(self).host_name() == old(self).host_name(),
            r is Some <==> old(self).snapshot().fresh_at(now),
            match r {
                Some(e) => {
                    &&& e == pick(old(self).snapshot().endpoints@, old(self).counter())
                    &&& old(self).snapshot().endpoints@.contains(e)
                    &&& final(self).counter() == next_count(old(self).counter())
                },
                None => *final(self) == *old(self),
            },
    {
        if self.cache.needs_refresh(now) {
            None
        } else {
            let e = self.next.next(&self.cache.read().endpoints);
            Some(e)
        }
    }

    /// Apply the outcome of one resolution round trip and serve an endpoint
    /// from it. A successful answer with at least one correlated endpoint is
    /// published wholesale as the new snapshot and an endpoint is picked from
    /// it; an answer with none surfaces `NotFound`; a failed round trip
    /// propagates its error. On every failure the prior snapshot stays
    /// current untouched — a stale value is kept, but never served by this
    /// call.
    pub fn next_addr_refreshed(&mut self, outcome: Result<Answer, ResolutionError>, now: u64) -> (r:
        Result<Endpoint, ResolutionError>)
        requires
            old(self).wf(),
        ensures
            final(self).wf(),
            final(self).host_name() == old(self).host_name(),
            match outcome {
                Ok(a) => {
                    &&& (r is Ok <==> correlated(a.srvs@, a.addrs@).len() > 0)
                    &&& match r {
                        Ok(e) => {
                            &&& final(self).snapshot().endpoints@ == correlated(a.srvs@, a.addrs@)
                            &&& final(self).snapshot().valid_until == expiry_at(
                                now,
                                answer_ttl_min(a.srvs@, a.addrs@),
                            )
                            &&& e == pick(correlated(a.srvs@, a.addrs@), old(self).counter())
                            &&& final(self).counter() == next_count(old(self).counter())
                        },
                        Err(e) => e == ResolutionError::NotFound && *final(self) == *old(self),
                    }
                },
                Err(e0) => r == Err::<Endpoint, ResolutionError>(e0) && *final(self) == *old(self),
            },
    {
        match outcome {
            Ok(answer) => match resolve_answer(&answer, now) {
                Ok(snapshot) => {
                    self.cache.publish(snapshot);
                    let e = self.next.next(&self.cache.read().endpoints);
                    Ok(e)
                },
                Err(e) => Err(e),
            },
            Err(e) => Err(e),
        }
    }
}

impl<R, C> Builder<R, C> {
    /// Pair a resolver handle with an HTTP transport handle.
    pub fn new(resolver: R, client: C) -> (b: Builder<R, C>) {
        Builder { resolver, client }
    }
}

impl<R: Clone, C: Clone> Builder<R, C> {
    /// Build a client for one service host name from the outcome of its
    /// eager resolution. Construction is fail-fast: a failed round trip
    /// propagates its error, an answer with no correlated endpoint surfaces
    /// `NotFound`, and in either case no client comes into existence. On
    /// success the client starts with the resolved snapshot current and its
    /// round-robin counter at zero.
    pub fn build(&self, host: String, outcome: Result<Answer, ResolutionError>, now: u64) -> (r:
        Result<FeignClient<R, C>, ResolutionError>)
        ensures
            match outcome {
                Ok(a) => {
                    &&& (r is Ok <==> correlated(a.srvs@, a.addrs@).len() > 0)
                    &&& match r {
                        Ok(c) => {
                            &&& c.wf()
                            &&& c.snapshot().endpoints@ == correlated(a.srvs@, a.addrs@)
                            &&& c.snapshot().valid_until == expiry_at(
                                now,
                                answer_ttl_min(a.srvs@, a.addrs@),
                            )
                            &&& c.counter() == 0
                            &&& c.host_name() == host@
                        },
                        Err(e) => e == ResolutionError::NotFound,
                    }
                },
                Err(e0) => r matches Err(e) && e == e0,
            },
    {
        match outcome {
            Ok(answer) => match resolve_answer(&answer, now) {
                Ok(snapshot) => Ok(
                    FeignClient {
                        resolver: self.resolver.clone(),
                        client: self.client.clone(),
                        host,
                        next: EndpointSelector::new(),
                        cache: AddressCache::new(snapshot),
                    },
                ),
                Err(e) => Err(e),
            },
            Err(e) => Err(e),
        }
    }
}

} // verus!
