use vstd::prelude::*;

use crate::endpoint::Endpoint;

verus! {

/// The counter value after one selection: one more, wrapping to zero at the
/// largest representable count. Wraparound is tolerated; the modulo pick
/// stays correct.
pub open spec fn next_count(c: u64) -> u64 {
    if c == u64::MAX {
        0
    } else {
        (c + 1) as u64
    }
}

/// The endpoint a counter value `c` picks from a non-empty endpoint list:
/// the one at `c` modulo the list's length.
pub open spec fn pick(eps: Seq<Endpoint>, c: u64) -> Endpoint
    recommends
        eps.len() >= 1,
{
    eps[c as int % eps.len() as int]
}

/// Pick the endpoint a given counter value selects from a non-empty list,
/// without holding any counter: for callers that draw counter values from a
/// single shared fetch-and-increment counter.
pub fn select(endpoints: &Vec<Endpoint>, count: u64) -> (e: Endpoint)
    requires
        endpoints@.len() >= 1,
    ensures
        e == pick(endpoints@, count),
        endpoints@.contains(e),
{
    let len: usize = endpoints.len();
    let idx: usize = (count % (len as u64)) as usize;
    endpoints[idx]
}

/// Picks endpoints from a list in round-robin order: a monotonically
/// advancing counter, taken modulo the list length at each call. The counter
/// is shared per client and is never reset when the endpoint list changes.
#[derive(Debug)]
pub struct EndpointSelector {
    /// The number of selections made so far, modulo wraparound.
    pub count: u64,
}

impl EndpointSelector {
    /// A selector whose counter starts at zero.
    pub fn new() -> (s: EndpointSelector)
        ensures
            s.count == 0,
    {
        EndpointSelector { count: 0 }
    }

    /// A selector whose counter starts at `start`; selection begins at the
    /// endpoint `start` picks.
    pub fn starting_at(start: u64) -> (s: EndpointSelector)
        ensures
            s.count == start,
    {
        EndpointSelector { count: start }
    }

    /// Pick one endpoint from a non-empty list and advance the counter by
    /// exactly one step.
    pub fn next(&mut self, endpoints: &Vec<Endpoint>) -> (e: Endpoint)
        requires
            endpoints@.len() >= 1,
        ensures
            e == pick(endpoints@, old(self).count),
            endpoints@.contains(e),
            final(self).count == next_count(old(self).count),
    {
        let e = select(endpoints, self.count);
        self.count = if self.count == u64::MAX {
            0
        } else {
            self.count + 1
        };
        e
    }
}

} // verus!
