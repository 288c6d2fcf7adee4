use vstd::prelude::*;

use crate::endpoint::Endpoint;

verus! {

/// An immutable resolved snapshot: the endpoint set of one discovery answer
/// and the instant until which it counts as fresh. The cache replaces a
/// snapshot as a whole, never a field of one.
#[derive(Debug)]
pub struct CacheSnapshot {
    /// The endpoints of one answer, in answer order.
    pub endpoints: Vec<Endpoint>,
    /// The instant up to which (inclusive) the snapshot is fresh.
    pub valid_until: u64,
}

impl CacheSnapshot {
    /// A snapshot is well formed when its endpoint set is non-empty;
    /// only such snapshots are ever published.
    pub open spec fn wf(&self) -> bool {
        self.endpoints@.len() >= 1
    }

    /// Freshness at an instant: a snapshot is fresh while `now` has not
    /// passed `valid_until`; it is stale strictly after.
    pub open spec fn fresh_at(&self, now: u64) -> bool {
        now <= self.valid_until
    }

    /// Whether the snapshot is still fresh at `now`.
    pub fn is_fresh_at(&self, now: u64) -> (r: bool)
        ensures
            r == self.fresh_at(now),
    {
        now <= self.valid_until
    }
}

/// Holds the single current snapshot. A read hands out the published value;
/// a publish replaces it wholesale, so no reader ever sees a half-replaced
/// value.
#[derive(Debug)]
pub struct AddressCache {
    current: CacheSnapshot,
}

impl AddressCache {
    /// The currently published snapshot.
    pub closed spec fn snapshot(&self) -> CacheSnapshot {
        self.current
    }

    /// The cache is well formed when the snapshot it holds is.
    pub open spec fn wf(&self) -> bool {
        self.snapshot().wf()
    }

    /// Create a cache holding `initial` as the current snapshot. An empty
    /// snapshot is never handed in: the cache starts from a successful
    /// eager resolution.
    pub fn new(initial: CacheSnapshot) -> (c: AddressCache)
        requires
            initial.wf(),
        ensures
            c.wf(),
            c.snapshot() == initial,
    {
        AddressCache { current: initial }
    }

    /// Read the current snapshot. Never blocks and never fails; the value
    /// may be stale — acting on staleness is the caller's decision.
    pub fn read(&self) -> (s: &CacheSnapshot)
        ensures
            s == self.snapshot(),
    {
        &self.current
    }

    /// Whether a caller at `now` must refresh before trusting the snapshot.
    pub fn needs_refresh(&self, now: u64) -> (r: bool)
        ensures
            r == !self.snapshot().fresh_at(now),
    {
        !self.current.is_fresh_at(now)
    }

    /// Publish `next` as the new current snapshot, replacing the prior one
    /// as a whole. Only a well-formed (non-empty) snapshot can be published.
    pub fn publish(&mut self, next: CacheSnapshot)
        requires
            next.wf(),
        ensures
            final(self).wf(),
            final(self).snapshot() == next,
    {
        self.current = next;
    }
}

} // verus!
