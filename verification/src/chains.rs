//! The chains that a run asks, and the order in which it reports them.

use vstd::prelude::*;
use vstd::string::StringExecFns;

verus! {

/// Ethereum mainnet: the chain whose pool prices ether for every chain.
pub const MAINNET_CHAIN_ID: u64 = 1;

/// OP Mainnet.
pub const OPTIMISM_CHAIN_ID: u64 = 10;

/// Base.
pub const BASE_CHAIN_ID: u64 = 8453;

/// Arbitrum One.
pub const ARBITRUM_CHAIN_ID: u64 = 42161;

/// Where and under which name a chain is reached.
#[derive(Clone, Debug)]
pub struct ChainEndpoint {
    pub chain_id: u64,
    pub rpc_url: String,
    pub name: String,
}

/// Whether an endpoint is configured for the chain.
pub open spec fn is_configured(chain_id: u64) -> bool {
    chain_id == MAINNET_CHAIN_ID || chain_id == OPTIMISM_CHAIN_ID || chain_id == BASE_CHAIN_ID
        || chain_id == ARBITRUM_CHAIN_ID
}

/// The name under which a configured chain is reported.
pub open spec fn configured_name(chain_id: u64) -> Seq<char> {
    if chain_id == MAINNET_CHAIN_ID {
        "mainnet"@
    } else if chain_id == OPTIMISM_CHAIN_ID {
        "optimism"@
    } else if chain_id == BASE_CHAIN_ID {
        "base"@
    } else {
        "arbitrum"@
    }
}

/// The public endpoint of a configured chain.
pub open spec fn configured_rpc_url(chain_id: u64) -> Seq<char> {
    if chain_id == MAINNET_CHAIN_ID {
        "https://ethereum-rpc.publicnode.com"@
    } else if chain_id == OPTIMISM_CHAIN_ID {
        "https://mainnet.optimism.io"@
    } else if chain_id == BASE_CHAIN_ID {
        "https://mainnet.base.org"@
    } else {
        "https://arb1.arbitrum.io/rpc"@
    }
}

/// The endpoint configured for a chain, if there is one.
pub fn endpoint_for(chain_id: u64) -> (r: Option<ChainEndpoint>)
    ensures
        r is Some <==> is_configured(chain_id),
        r matches Some(e) ==> e.chain_id == chain_id && e.name@ == configured_name(chain_id)
            && e.rpc_url@ == configured_rpc_url(chain_id),
{
    if chain_id == MAINNET_CHAIN_ID {
        Some(
            ChainEndpoint {
                chain_id,
                rpc_url: String::from_str("https://ethereum-rpc.publicnode.com"),
                name: String::from_str("mainnet"),
            },
        )
    } else if chain_id == OPTIMISM_CHAIN_ID {
        Some(
            ChainEndpoint {
                chain_id,
                rpc_url: String::from_str("https://mainnet.optimism.io"),
                name: String::from_str("optimism"),
            },
        )
    } else if chain_id == BASE_CHAIN_ID {
        Some(
            ChainEndpoint {
                chain_id,
                rpc_url: String::from_str("https://mainnet.base.org"),
                name: String::from_str("base"),
            },
        )
    } else if chain_id == ARBITRUM_CHAIN_ID {
        Some(
            ChainEndpoint {
                chain_id,
                rpc_url: String::from_str("https://arb1.arbitrum.io/rpc"),
                name: String::from_str("arbitrum"),
            },
        )
    } else {
        None
    }
}

/// The chains asked besides mainnet when none is named: Arbitrum, Base and
/// Optimism.
pub fn default_alt_chain_ids() -> (ids: Vec<u64>)
    ensures
        ids@ == seq![ARBITRUM_CHAIN_ID, BASE_CHAIN_ID, OPTIMISM_CHAIN_ID],
{
    let mut ids: Vec<u64> = Vec::new();
    ids.push(ARBITRUM_CHAIN_ID);
    ids.push(BASE_CHAIN_ID);
    ids.push(OPTIMISM_CHAIN_ID);
    assert(ids@ =~= seq![ARBITRUM_CHAIN_ID, BASE_CHAIN_ID, OPTIMISM_CHAIN_ID]);
    ids
}

/// The additional chains that are asked: each requested id but the primary,
/// once, in the order of its first request.
pub open spec fn extra_chains(primary: u64, additional: Seq<u64>) -> Seq<u64>
    decreases additional.len(),
{
    if additional.len() == 0 {
        Seq::empty()
    } else {
        let earlier = additional.drop_last();
        let id = additional.last();
        if id == primary || earlier.contains(id) {
            extra_chains(primary, earlier)
        } else {
            extra_chains(primary, earlier).push(id)
        }
    }
}

/// The chains of a run in the order of its report: the primary, then the
/// additional ones.
pub open spec fn chain_plan(primary: u64, additional: Seq<u64>) -> Seq<u64> {
    seq![primary] + extra_chains(primary, additional)
}

/// An id is among the extra chains exactly if it was requested and is not
/// the primary; and no id is there twice.
pub proof fn lemma_extra_chains(primary: u64, additional: Seq<u64>)
    ensures
        forall|id: u64| #[trigger]
            extra_chains(primary, additional).contains(id) <==> id != primary
                && additional.contains(id),
        extra_chains(primary, additional).no_duplicates(),
        extra_chains(primary, additional).len() <= additional.len(),
    decreases additional.len(),
{
    if additional.len() > 0 {
        let earlier = additional.drop_last();
        let last = additional.last();
        let before = extra_chains(primary, earlier);
        let all = extra_chains(primary, additional);
        lemma_extra_chains(primary, earlier);
        assert forall|id: u64| #[trigger] all.contains(id) <==> id != primary
            && additional.contains(id) by {
            if additional.contains(id) {
                let k = choose|k: int| 0 <= k < additional.len() && additional[k] == id;
                if k < earlier.len() {
                    assert(earlier[k] == id);
                }
            }
            if earlier.contains(id) {
                let k = choose|k: int| 0 <= k < earlier.len() && earlier[k] == id;
                assert(additional[k] == id);
            }
            if before.contains(id) && all == before.push(last) {
                let k = choose|k: int| 0 <= k < before.len() && before[k] == id;
                assert(all[k] == id);
            }
            if all == before.push(last) {
                assert(all[before.len() as int] == last);
                assert(additional[additional.len() - 1] == last);
            }
        }
        if last != primary && !earlier.contains(last) {
            assert(!before.contains(last));
            assert forall|i: int, j: int| 0 <= i < all.len() && 0 <= j < all.len() && i != j
                implies all[i] != all[j] by {
                if i < before.len() {
                    assert(before.contains(all[i]));
                }
                if j < before.len() {
                    assert(before.contains(all[j]));
                }
            }
        }
    }
}

/// The place at which `id` is first requested in `ids`, for an id that is
/// requested there.
pub open spec fn first_request(ids: Seq<u64>, id: u64) -> int
    decreases ids.len(),
{
    if ids.len() == 0 {
        0
    } else if ids.drop_last().contains(id) {
        first_request(ids.drop_last(), id)
    } else {
        ids.len() - 1
    }
}

/// The first request of an id that is requested is a request of that id,
/// and none comes before it.
pub proof fn lemma_first_request(ids: Seq<u64>, id: u64)
    requires
        ids.contains(id),
    ensures
        0 <= first_request(ids, id) < ids.len(),
        ids[first_request(ids, id)] == id,
        !ids.take(first_request(ids, id)).contains(id),
    decreases ids.len(),
{
    let earlier = ids.drop_last();
    if earlier.contains(id) {
        lemma_first_request(earlier, id);
        let at = first_request(earlier, id);
        assert(earlier[at] == ids[at]);
        assert(ids.take(at) =~= earlier.take(at));
    } else {
        let k = choose|k: int| 0 <= k < ids.len() && ids[k] == id;
        if k < earlier.len() {
            assert(earlier[k] == id);
        }
        assert(ids.take(ids.len() - 1) =~= earlier);
    }
}

/// The extra chains stand in the order in which they were first requested.
pub proof fn lemma_extra_chains_keep_order(primary: u64, additional: Seq<u64>, i: int, j: int)
    requires
        0 <= i < j < extra_chains(primary, additional).len(),
    ensures
        first_request(additional, extra_chains(primary, additional)[i]) < first_request(
            additional,
            extra_chains(primary, additional)[j],
        ),
    decreases additional.len(),
{
    let all = extra_chains(primary, additional);
    if additional.len() > 0 {
        let earlier = additional.drop_last();
        let last = additional.last();
        let before = extra_chains(primary, earlier);
        lemma_extra_chains(primary, earlier);
        assert(before.contains(all[i]));
        lemma_first_request(earlier, all[i]);
        if j < before.len() {
            assert(before.contains(all[j]));
            lemma_extra_chains_keep_order(primary, earlier, i, j);
        }
    }
}

/// Whether `id` is among the first `end` entries of `ids`.
fn requested_before(ids: &Vec<u64>, end: usize, id: u64) -> (found: bool)
    requires
        end <= ids.len(),
    ensures
        found == ids@.take(end as int).contains(id),
{
    let mut k: usize = 0;
    while k < end
        invariant
            k <= end <= ids.len(),
            !ids@.take(k as int).contains(id),
        decreases end - k,
    {
        if ids[k] == id {
            assert(ids@.take(end as int)[k as int] == id);
            return true;
        }
        proof {
            let checked = ids@.take(k as int);
            let next = ids@.take(k + 1);
            assert forall|j: int| 0 <= j < next.len() implies next[j] != id by {
                if j < k {
                    assert(checked[j] == next[j]);
                }
            }
        }
        k += 1;
    }
    false
}

/// The chains of a run, in the order of its report.
pub fn plan_chains(primary: u64, additional: &Vec<u64>) -> (plan: Vec<u64>)
    ensures
        plan@ == chain_plan(primary, additional@),
{
    let mut plan: Vec<u64> = Vec::new();
    plan.push(primary);
    let mut i: usize = 0;
    assert(additional@.take(0) =~= Seq::<u64>::empty());
    while i < additional.len()
        invariant
            i <= additional.len(),
            plan@ =~= chain_plan(primary, additional@.take(i as int)),
        decreases additional.len() - i,
    {
        let id: u64 = additional[i];
        let seen: bool = requested_before(additional, i, id);
        proof {
            let upto = additional@.take(i + 1);
            assert(upto.drop_last() =~= additional@.take(i as int));
            assert(upto.last() == id);
        }
        if id != primary && !seen {
            plan.push(id);
        }
        i += 1;
    }
    assert(additional@.take(additional.len() as int) =~= additional@);
    plan
}

} // verus!
