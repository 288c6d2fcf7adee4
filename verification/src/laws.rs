use vstd::prelude::*;

use vstd::arithmetic::div_mod::{lemma_mod_equivalence, lemma_small_mod};

use crate::endpoint::Endpoint;
use crate::selector::{next_count, pick, EndpointSelector};

verus! {

/// The counter value after `n` single-step advances from `c`.
pub open spec fn count_after(c: u64, n: nat) -> u64
    decreases n,
{
    if n == 0 {
        c
    } else {
        next_count(count_after(c, (n - 1) as nat))
    }
}

/// The sequence of endpoints that `n` consecutive selections return when
/// the counter starts at `c` and the endpoint list stays `eps` throughout.
pub open spec fn rr_results(eps: Seq<Endpoint>, c: u64, n: nat) -> Seq<Endpoint>
    decreases n,
{
    if n == 0 {
        Seq::empty()
    } else {
        rr_results(eps, c, (n - 1) as nat).push(pick(eps, count_after(c, (n - 1) as nat)))
    }
}

/// The round-robin model is the code: `n` consecutive calls of
/// `EndpointSelector::next` against a stable endpoint list return exactly
/// the sequence the model `rr_results` describes, advancing the counter by
/// one step per call.
pub fn next_rounds(sel: &mut EndpointSelector, endpoints: &Vec<Endpoint>, n: usize) -> (r: Vec<
    Endpoint,
>)
    requires
        endpoints@.len() >= 1,
    ensures
        r@ == rr_results(endpoints@, old(sel).count, n as nat),
        final(sel).count == count_after(old(sel).count, n as nat),
{
    let ghost c0 = sel.count;
    let mut r: Vec<Endpoint> = Vec::new();
    let mut i: usize = 0;
    while i < n
        invariant
            i <= n,
            endpoints@.len() >= 1,
            r@ == rr_results(endpoints@, c0, i as nat),
            sel.count == count_after(c0, i as nat),
        decreases n - i,
    {
        let e = sel.next(endpoints);
        r.push(e);
        i += 1;
    }
    r
}

/// As long as it does not wrap, the counter after `n` advances is exactly
/// `c + n`: every selection advances it by one.
pub proof fn lemma_count_after(c: u64, n: nat)
    requires
        c + n <= u64::MAX,
    ensures
        count_after(c, n) == c + n,
    decreases n,
{
    if n > 0 {
        lemma_count_after(c, (n - 1) as nat);
    }
}

/// `n` consecutive selections yield exactly `n` results.
pub proof fn lemma_rr_results_len(eps: Seq<Endpoint>, c: u64, n: nat)
    ensures
        rr_results(eps, c, n).len() == n,
    decreases n,
{
    if n > 0 {
        lemma_rr_results_len(eps, c, (n - 1) as nat);
    }
}

/// Round-robin law: for `n` consecutive selections against a stable
/// non-empty endpoint list `eps` of length `K`, with the counter starting
/// at `c` and not wrapping within the run, the `i`-th returned endpoint is
/// `eps[(c + i) mod K]`.
pub proof fn lemma_round_robin(eps: Seq<Endpoint>, c: u64, n: nat, i: int)
    requires
        eps.len() >= 1,
        0 <= i < n,
        c + n - 1 <= u64::MAX,
    ensures
        rr_results(eps, c, n).len() == n,
        rr_results(eps, c, n)[i] == eps[(c + i) % (eps.len() as int)],
    decreases n,
{
    lemma_rr_results_len(eps, c, n);
    if i == n - 1 {
        lemma_count_after(c, (n - 1) as nat);
        assert(count_after(c, (n - 1) as nat) == c + i);
    } else {
        lemma_round_robin(eps, c, (n - 1) as nat, i);
    }
}

/// Within one cycle over `K` endpoints no position repeats: two selections
/// of the same non-wrapping run that are fewer than `K` steps apart pick
/// distinct indices, so all `K` endpoints are exhausted before any index
/// comes round again.
pub proof fn lemma_no_repeat_within_cycle(eps: Seq<Endpoint>, c: u64, i: int, j: int)
    requires
        eps.len() >= 1,
        0 <= i < j,
        j - i < eps.len(),
        c + j <= u64::MAX,
    ensures
        (c + i) % (eps.len() as int) != (c + j) % (eps.len() as int),
{
    let k = eps.len() as int;
    if (c + i) % k == (c + j) % k {
        lemma_mod_equivalence(c + j, c + i, k);
        assert((j - i) % k == 0);
        lemma_small_mod((j - i) as nat, k as nat);
        assert(false);
    }
}

/// No endpoint repeats before all `K` are exhausted: in a non-wrapping run
/// against a stable list of `K` pairwise-distinct endpoints, two selections
/// fewer than `K` steps apart return different endpoints.
pub proof fn lemma_no_endpoint_repeats_within_cycle(eps: Seq<Endpoint>, c: u64, n: nat, i: int, j: int)
    requires
        eps.len() >= 1,
        forall|p: int, q: int| 0 <= p < q < eps.len() ==> eps[p] != eps[q],
        0 <= i < j < n,
        j - i < eps.len(),
        c + n - 1 <= u64::MAX,
    ensures
        rr_results(eps, c, n)[i] != rr_results(eps, c, n)[j],
{
    lemma_round_robin(eps, c, n, i);
    lemma_round_robin(eps, c, n, j);
    lemma_no_repeat_within_cycle(eps, c, i, j);
    let k = eps.len() as int;
    let a = (c + i) % k;
    let b = (c + j) % k;
    if a < b {
        assert(eps[a] != eps[b]);
    } else {
        assert(eps[b] != eps[a]);
    }
}

/// Every selection from a non-empty list returns a member of that list:
/// the picked index is always in bounds.
pub proof fn lemma_pick_in_set(eps: Seq<Endpoint>, c: u64)
    requires
        eps.len() >= 1,
    ensures
        eps.contains(pick(eps, c)),
{
}

} // verus!
