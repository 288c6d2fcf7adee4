use vstd::prelude::*;

use crate::cache::CacheSnapshot;
use crate::endpoint::{Endpoint, IpAddress};
use crate::error::ResolutionError;

verus! {

/// One SRV record out of a discovery answer: the target host it points at,
/// the port that host serves on, and the record's time-to-live in seconds.
#[derive(Debug)]
pub struct SrvRecord {
    /// The target host name the record points at.
    pub target: String,
    /// The port the target serves on.
    pub port: u16,
    /// Time-to-live of the record, in seconds.
    pub ttl: u32,
}

/// One address record out of a discovery answer: a host name and one
/// address it resolves to, with the record's time-to-live in seconds.
#[derive(Debug)]
pub struct AddressRecord {
    /// The host name the record belongs to.
    pub name: String,
    /// The address the host resolves to.
    pub address: IpAddress,
    /// Time-to-live of the record, in seconds.
    pub ttl: u32,
}

/// A complete discovery answer: the SRV records for the queried service
/// name together with the address records that came with the answer.
#[derive(Debug)]
pub struct Answer {
    /// The SRV records of the answer, in answer order.
    pub srvs: Vec<SrvRecord>,
    /// The address records of the answer, in answer order.
    pub addrs: Vec<AddressRecord>,
}

/// The endpoints one SRV record contributes: one endpoint for every address
/// record whose name equals the record's target, in address-record order,
/// each carrying the SRV record's port.
pub open spec fn endpoints_for(srv: SrvRecord, addrs: Seq<AddressRecord>) -> Seq<Endpoint>
    decreases addrs.len(),
{
    if addrs.len() == 0 {
        Seq::empty()
    } else {
        endpoints_for(srv, addrs.drop_last()) + if addrs.last().name@ == srv.target@ {
            seq![Endpoint { address: addrs.last().address, port: srv.port }]
        } else {
            Seq::empty()
        }
    }
}

/// The endpoint set of a whole answer: each SRV record, in answer order,
/// correlated by target name with its own address records.
pub open spec fn correlated(srvs: Seq<SrvRecord>, addrs: Seq<AddressRecord>) -> Seq<Endpoint>
    decreases srvs.len(),
{
    if srvs.len() == 0 {
        Seq::empty()
    } else {
        correlated(srvs.drop_last(), addrs) + endpoints_for(srvs.last(), addrs)
    }
}

/// The smaller of two TTL values.
pub open spec fn min_u32(a: u32, b: u32) -> u32 {
    if a < b {
        a
    } else {
        b
    }
}

/// The minimum TTL over a sequence of SRV records; the largest possible
/// TTL when the sequence is empty.
pub open spec fn srv_ttl_min(srvs: Seq<SrvRecord>) -> u32
    decreases srvs.len(),
{
    if srvs.len() == 0 {
        u32::MAX
    } else {
        min_u32(srv_ttl_min(srvs.drop_last()), srvs.last().ttl)
    }
}

/// The minimum TTL over a sequence of address records; the largest possible
/// TTL when the sequence is empty.
pub open spec fn addr_ttl_min(addrs: Seq<AddressRecord>) -> u32
    decreases addrs.len(),
{
    if addrs.len() == 0 {
        u32::MAX
    } else {
        min_u32(addr_ttl_min(addrs.drop_last()), addrs.last().ttl)
    }
}

/// The minimum TTL across all records of an answer.
pub open spec fn answer_ttl_min(srvs: Seq<SrvRecord>, addrs: Seq<AddressRecord>) -> u32 {
    min_u32(srv_ttl_min(srvs), addr_ttl_min(addrs))
}

/// The instant a snapshot fetched at `now` with minimum TTL `ttl` expires:
/// `now + ttl`, saturating at the largest representable instant.
pub open spec fn expiry_at(now: u64, ttl: u32) -> u64 {
    if now + ttl <= u64::MAX {
        (now + ttl) as u64
    } else {
        u64::MAX
    }
}

/// Turn one discovery answer, taken at instant `now`, into a cache snapshot:
/// correlate every SRV record with the address records of its target, and
/// derive the expiry from the minimum TTL across all records of the answer.
/// An answer whose correlation yields no endpoint is `NotFound` and is never
/// turned into a snapshot.
pub fn resolve_answer(answer: &Answer, now: u64) -> (r: Result<CacheSnapshot, ResolutionError>)
    ensures
        r is Ok <==> correlated(answer.srvs@, answer.addrs@).len() > 0,
        r matches Ok(s) ==> {
            &&& s.wf()
            &&& s.endpoints@ == correlated(answer.srvs@, answer.addrs@)
            &&& s.valid_until == expiry_at(now, answer_ttl_min(answer.srvs@, answer.addrs@))
        },
        r matches Err(e) ==> e == ResolutionError::NotFound,
{
    let mut eps: Vec<Endpoint> = Vec::new();
    let mut i: usize = 0;
    while i < answer.srvs.len()
        invariant
            i <= answer.srvs@.len(),
            eps@ == correlated(answer.srvs@.take(i as int), answer.addrs@),
        decreases answer.srvs@.len() - i,
    {
        let mut j: usize = 0;
        while j < answer.addrs.len()
            invariant
                i < answer.srvs@.len(),
                j <= answer.addrs@.len(),
                eps@ == correlated(answer.srvs@.take(i as int), answer.addrs@) + endpoints_for(
                    answer.srvs@[i as int],
                    answer.addrs@.take(j as int),
                ),
            decreases answer.addrs@.len() - j,
        {
            if answer.addrs[j].name == answer.srvs[i].target {
                eps.push(
                    Endpoint { address: answer.addrs[j].address, port: answer.srvs[i].port },
                );
            }
            proof {
                assert(answer.addrs@.take(j + 1).drop_last() =~= answer.addrs@.take(j as int));
                assert(answer.addrs@.take(j + 1).last() == answer.addrs@[j as int]);
            }
            j += 1;
        }
        proof {
            assert(answer.addrs@.take(answer.addrs@.len() as int) =~= answer.addrs@);
            assert(answer.srvs@.take(i + 1).drop_last() =~= answer.srvs@.take(i as int));
            assert(answer.srvs@.take(i + 1).last() == answer.srvs@[i as int]);
        }
        i += 1;
    }
    proof {
        assert(answer.srvs@.take(answer.srvs@.len() as int) =~= answer.srvs@);
    }
    if eps.len() == 0 {
        return Err(ResolutionError::NotFound);
    }
    let mut ttl: u32 = u32::MAX;
    let mut k: usize = 0;
    while k < answer.srvs.len()
        invariant
            k <= answer.srvs@.len(),
            ttl == srv_ttl_min(answer.srvs@.take(k as int)),
        decreases answer.srvs@.len() - k,
    {
        if answer.srvs[k].ttl < ttl {
            ttl = answer.srvs[k].ttl;
        }
        proof {
            assert(answer.srvs@.take(k + 1).drop_last() =~= answer.srvs@.take(k as int));
            assert(answer.srvs@.take(k + 1).last() == answer.srvs@[k as int]);
        }
        k += 1;
    }
    proof {
        assert(answer.srvs@.take(answer.srvs@.len() as int) =~= answer.srvs@);
    }
    let mut attl: u32 = u32::MAX;
    let mut m: usize = 0;
    while m < answer.addrs.len()
        invariant
            m <= answer.addrs@.len(),
            attl == addr_ttl_min(answer.addrs@.take(m as int)),
        decreases answer.addrs@.len() - m,
    {
        if answer.addrs[m].ttl < attl {
            attl = answer.addrs[m].ttl;
        }
        proof {
            assert(answer.addrs@.take(m + 1).drop_last() =~= answer.addrs@.take(m as int));
            assert(answer.addrs@.take(m + 1).last() == answer.addrs@[m as int]);
        }
        m += 1;
    }
    proof {
        assert(answer.addrs@.take(answer.addrs@.len() as int) =~= answer.addrs@);
    }
    let ttl_min: u32 = if ttl < attl {
        ttl
    } else {
        attl
    };
    let valid_until: u64 = now.saturating_add(ttl_min as u64);
    Ok(CacheSnapshot { endpoints: eps, valid_until })
}

} // verus!
