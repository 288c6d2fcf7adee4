use vstd::prelude::*;

use vstd::rwlock::{RwLock, RwLockPredicate};

use crate::cache::CacheSnapshot;
use crate::endpoint::Endpoint;
use crate::error::ResolutionError;
use crate::resolver::{correlated, resolve_answer, Answer};
use crate::selector::{pick, select};

verus! {

/// The invariant every snapshot behind the shared lock satisfies: it is
/// well formed, so what a reader borrows is never an empty endpoint set.
pub struct WellFormed;

impl RwLockPredicate<CacheSnapshot> for WellFormed {
    open spec fn inv(self, v: CacheSnapshot) -> bool {
        v.wf()
    }
}

/// The address cache for concurrent callers: the single current snapshot
/// behind a reader-writer lock with short critical sections, so any number
/// of threads may read and replace it through `&self`. A snapshot is
/// published wholesale; a reader borrows the one published value, never a
/// mixture of two answers, and only well-formed snapshots can ever be
/// stored.
pub struct SharedCache {
    lock: RwLock<CacheSnapshot, WellFormed>,
}

impl SharedCache {
    /// Create a shared cache holding the snapshot of a successful eager
    /// resolution.
    pub fn new(initial: CacheSnapshot) -> SharedCache
        requires
            initial.wf(),
    {
        SharedCache { lock: RwLock::new(initial, Ghost(WellFormed)) }
    }

    /// Read the published snapshot and, if it is fresh at `now`, pick the
    /// endpoint the caller's `ticket` selects. Whatever interleaving put the
    /// snapshot there, a returned endpoint is drawn from one whole
    /// well-formed published snapshot that was fresh at `now`.
    pub fn pick_if_fresh(&self, now: u64, ticket: u64) -> (r: Option<Endpoint>)
        ensures
            r matches Some(e) ==> exists|s: CacheSnapshot|
                #![auto]
                {
                    &&& s.wf()
                    &&& s.fresh_at(now)
                    &&& e == pick(s.endpoints@, ticket)
                    &&& s.endpoints@.contains(e)
                },
    {
        let handle = self.lock.acquire_read();
        let snap = handle.borrow();
        let r = if snap.is_fresh_at(now) {
            Some(select(&snap.endpoints, ticket))
        } else {
            None
        };
        handle.release_read();
        r
    }

    /// Publish `next` as the new current snapshot, replacing the prior one
    /// wholesale. Concurrent publishers are tolerated; the last one wins.
    pub fn publish(&self, next: CacheSnapshot)
        requires
            next.wf(),
    {
        let (_prior, handle) = self.lock.acquire_write();
        handle.release_write(next);
    }

    /// The cache half of a stale-triggered refresh: apply the outcome of
    /// the resolution round trip some caller performed, publish on success
    /// and pick the endpoint the caller's `ticket` selects from the freshly
    /// published set. On failure the error propagates and nothing is
    /// published — the prior snapshot stays current.
    pub fn refresh_with(&self, outcome: Result<Answer, ResolutionError>, now: u64, ticket: u64) -> (r:
        Result<Endpoint, ResolutionError>)
        ensures
            match outcome {
                Ok(a) => {
                    &&& (r is Ok <==> correlated(a.srvs@, a.addrs@).len() > 0)
                    &&& match r {
                        Ok(e) => e == pick(correlated(a.srvs@, a.addrs@), ticket),
                        Err(e) => e == ResolutionError::NotFound,
                    }
                },
                Err(e0) => r == Err::<Endpoint, ResolutionError>(e0),
            },
    {
        match outcome {
            Ok(answer) => match resolve_answer(&answer, now) {
                Ok(snapshot) => {
                    let e = select(&snapshot.endpoints, ticket);
                    self.publish(snapshot);
                    Ok(e)
                },
                Err(e) => Err(e),
            },
            Err(e) => Err(e),
        }
    }
}

} // verus!
