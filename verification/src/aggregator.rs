//! The decisions of a run over several chains.
//!
//! A run asks every chain of its plan for its gas price and the primary
//! chain's pool for the price of ether, all at once. The calls are made
//! elsewhere; whoever makes them reports each answer here as it comes in,
//! in whatever order. The aggregator files every answer under the place of
//! its chain in the plan, so the report is in plan order however the answers
//! arrive, and it keeps the first failure and nothing after it.

use vstd::prelude::*;
use crate::chains::{chain_plan, endpoint_for, is_configured, configured_name, configured_rpc_url, plan_chains, ChainEndpoint};
use crate::error::GasError;
use crate::quote::{eth_usd_price, price_of_root, SqrtPriceX96, UsdPrice};

verus! {

/// What one chain answered: its name and its gas price in wei per unit of
/// gas. The primary chain's snapshot also carries the price of ether.
#[derive(Clone, Debug)]
pub struct ChainGasSnapshot {
    pub name: String,
    pub gas_per_unit_wei: u128,
    pub eth_price: Option<UsdPrice>,
}

/// How far a run has come.
#[derive(Clone, Copy, Debug, PartialEq, Eq)]
pub enum Progress {
    /// Answers are still missing and none has failed.
    Pending,
    /// A call failed: the run is over and reports this failure alone.
    Failed(GasError),
    /// Every answer is in.
    Complete,
}

/// The price in a snapshot or an answer, by its value.
pub open spec fn price_value(price: Option<UsdPrice>) -> Option<nat> {
    match price {
        Some(p) => Some(p@),
        None => None,
    }
}

/// The square-root price in an answer, by its value.
pub open spec fn root_value(root: Option<SqrtPriceX96>) -> Option<nat> {
    match root {
        Some(r) => Some(r@),
        None => None,
    }
}

/// A run as the contracts see it.
pub struct RunState {
    /// The endpoints in plan order: the primary chain first.
    pub chains: Seq<ChainEndpoint>,
    /// The gas price filed for each chain of the plan.
    pub gas_prices: Seq<Option<u128>>,
    /// The price of ether in units of `10^-39` dollars, once decoded.
    pub eth_price: Option<nat>,
    /// The first failure.
    pub failure: Option<GasError>,
}

impl RunState {
    /// Whether the run has a primary chain and a place for each chain's
    /// gas price.
    pub open spec fn well_formed(self) -> bool {
        self.chains.len() >= 1 && self.gas_prices.len() == self.chains.len()
    }

    /// A run on these endpoints before any answer.
    pub open spec fn start(chains: Seq<ChainEndpoint>) -> RunState {
        RunState {
            chains,
            gas_prices: Seq::new(chains.len(), |i: int| None::<u128>),
            eth_price: None,
            failure: None,
        }
    }

    /// The run after the chain at `index` answered its gas price call;
    /// `None` stands for a call that failed. An answer after a failure, for
    /// a place outside the plan or for a chain that has answered changes
    /// nothing.
    pub open spec fn after_gas_price(self, index: int, outcome: Option<u128>) -> RunState {
        if self.failure is Some || !(0 <= index < self.chains.len())
            || self.gas_prices[index] is Some {
            self
        } else {
            match outcome {
                Some(price) => RunState {
                    gas_prices: self.gas_prices.update(index, Some(price)),
                    ..self
                },
                None => RunState {
                    failure: Some(
                        GasError::EndpointUnavailable { chain_id: self.chains[index].chain_id },
                    ),
                    ..self
                },
            }
        }
    }

    /// The run after the pool on the primary chain answered with the
    /// square-root price `outcome`; `None` stands for a call that failed.
    pub open spec fn after_oracle(self, outcome: Option<nat>) -> RunState {
        if self.failure is Some || self.eth_price is Some {
            self
        } else {
            match outcome {
                Some(root) => if root == 0 {
                    RunState { failure: Some(GasError::OracleDecodeFailure), ..self }
                } else {
                    RunState { eth_price: Some(price_of_root(root)), ..self }
                },
                None => RunState {
                    failure: Some(
                        GasError::EndpointUnavailable { chain_id: self.chains[0].chain_id },
                    ),
                    ..self
                },
            }
        }
    }

    /// Whether the pool and every chain have answered.
    pub open spec fn all_answered(self) -> bool {
        self.eth_price is Some && forall|i: int|
            0 <= i < self.gas_prices.len() ==> (#[trigger] self.gas_prices[i]) is Some
    }

    /// How far the run has come: failed once a call has failed, complete
    /// once every answer is in, pending until then.
    pub open spec fn progress(self) -> Progress {
        match self.failure {
            Some(e) => Progress::Failed(e),
            None => if self.all_answered() {
                Progress::Complete
            } else {
                Progress::Pending
            },
        }
    }
}

/// Whether `snapshot` is what `chain` answered.
pub open spec fn snapshot_of(
    snapshot: ChainGasSnapshot,
    chain: ChainEndpoint,
    gas_price: Option<u128>,
    eth_price: Option<nat>,
) -> bool {
    snapshot.name == chain.name && gas_price == Some(snapshot.gas_per_unit_wei) && price_value(
        snapshot.eth_price,
    ) == eth_price
}

/// The answers of a complete run: the primary chain's snapshot, which
/// carries the price of ether, and those of the additional chains, which
/// carry none.
#[derive(Debug)]
pub struct Aggregation {
    primary: ChainGasSnapshot,
    additional: Vec<ChainGasSnapshot>,
    eth_price: UsdPrice,
}

impl Aggregation {
    #[verifier::type_invariant]
    spec fn one_price(self) -> bool {
        self.primary.eth_price == Some(self.eth_price) && forall|i: int|
            0 <= i < self.additional.len() ==> (#[trigger] self.additional[i]).eth_price is None
    }

    /// The primary chain's snapshot.
    pub closed spec fn primary_snapshot(self) -> ChainGasSnapshot {
        self.primary
    }

    /// The additional chains' snapshots, in plan order.
    pub closed spec fn additional_snapshots(self) -> Seq<ChainGasSnapshot> {
        self.additional@
    }

    /// Whether this is the report of `run`: one snapshot for each chain of
    /// the plan, in plan order, the price of ether on the first alone.
    pub open spec fn reports(self, run: RunState) -> bool {
        &&& snapshot_of(self.primary_snapshot(), run.chains[0], run.gas_prices[0], run.eth_price)
        &&& run.eth_price is Some
        &&& self.additional_snapshots().len() == run.chains.len() - 1
        &&& forall|i: int|
            0 <= i < self.additional_snapshots().len() ==> snapshot_of(
                #[trigger] self.additional_snapshots()[i],
                run.chains[i + 1],
                run.gas_prices[i + 1],
                None,
            )
    }

    /// The primary chain's snapshot.
    pub fn primary(&self) -> (s: &ChainGasSnapshot)
        ensures
            *s == self.primary_snapshot(),
            s.eth_price is Some,
    {
        proof {
            use_type_invariant(self);
        }
        &self.primary
    }

    /// The additional chains' snapshots, in plan order.
    pub fn additional(&self) -> (s: &Vec<ChainGasSnapshot>)
        ensures
            s@ == self.additional_snapshots(),
            forall|i: int| 0 <= i < s.len() ==> (#[trigger] s[i]).eth_price is None,
    {
        proof {
            use_type_invariant(self);
        }
        &self.additional
    }

    /// The price of ether that the run found.
    pub fn eth_price(&self) -> (p: UsdPrice)
        ensures
            Some(p) == self.primary_snapshot().eth_price,
    {
        proof {
            use_type_invariant(self);
        }
        self.eth_price
    }
}

/// The first chain of a plan for which no endpoint is configured.
pub open spec fn first_unconfigured(plan: Seq<u64>) -> Option<u64>
    decreases plan.len(),
{
    if plan.len() == 0 {
        None
    } else if !is_configured(plan[0]) {
        Some(plan[0])
    } else {
        first_unconfigured(plan.drop_first())
    }
}

/// Whether `chain` is the configured endpoint of the chain `chain_id`.
pub open spec fn configured_endpoint(chain: ChainEndpoint, chain_id: u64) -> bool {
    &&& is_configured(chain_id)
    &&& chain.chain_id == chain_id
    &&& chain.name@ == configured_name(chain_id)
    &&& chain.rpc_url@ == configured_rpc_url(chain_id)
}

/// Whether `chains` are the configured endpoints of the chains of `plan`,
/// one for one.
pub open spec fn configured_endpoints(chains: Seq<ChainEndpoint>, plan: Seq<u64>) -> bool {
    &&& chains.len() == plan.len()
    &&& forall|i: int|
        0 <= i < chains.len() ==> configured_endpoint(#[trigger] chains[i], plan[i])
}

/// A run in progress.
#[derive(Debug)]
pub struct Aggregator {
    chains: Vec<ChainEndpoint>,
    gas_prices: Vec<Option<u128>>,
    eth_price: Option<UsdPrice>,
    failure: Option<GasError>,
}

impl View for Aggregator {
    type V = RunState;

    closed spec fn view(&self) -> RunState {
        RunState {
            chains: self.chains@,
            gas_prices: self.gas_prices@,
            eth_price: price_value(self.eth_price),
            failure: self.failure,
        }
    }
}

impl Aggregator {
    /// A run on explicit endpoints, the primary chain's first. There is no
    /// run without a primary chain.
    pub fn with_endpoints(endpoints: Vec<ChainEndpoint>) -> (r: Option<Aggregator>)
        ensures
            r is Some <==> endpoints.len() >= 1,
            r matches Some(a) ==> a@ == RunState::start(endpoints@) && a@.well_formed(),
    {
        if endpoints.len() == 0 {
            return None;
        }
        let mut gas_prices: Vec<Option<u128>> = Vec::new();
        let mut i: usize = 0;
        while i < endpoints.len()
            invariant
                i <= endpoints.len(),
                gas_prices.len() == i,
                forall|k: int| 0 <= k < i ==> gas_prices[k] == None::<u128>,
            decreases endpoints.len() - i,
        {
            gas_prices.push(None);
            i += 1;
        }
        assert(gas_prices@ =~= RunState::start(endpoints@).gas_prices);
        Some(Aggregator { chains: endpoints, gas_prices, eth_price: None, failure: None })
    }

    /// A run on the primary chain and the additional chains asked for, each
    /// at its configured endpoint. A chain without one cannot be reached:
    /// the first such chain of the plan is reported, before any call.
    pub fn new(primary: u64, additional: &Vec<u64>) -> (r: Result<Aggregator, GasError>)
        ensures
            match first_unconfigured(chain_plan(primary, additional@)) {
                Some(chain_id) => r == Err::<Aggregator, GasError>(
                    GasError::EndpointUnavailable { chain_id },
                ),
                None => r matches Ok(a) && a@ == RunState::start(a@.chains) && a@.well_formed()
                    && configured_endpoints(a@.chains, chain_plan(primary, additional@)),
            },
    {
        let plan: Vec<u64> = plan_chains(primary, additional);
        let mut chains: Vec<ChainEndpoint> = Vec::new();
        let mut i: usize = 0;
        assert(plan@.skip(0) =~= plan@);
        while i < plan.len()
            invariant
                i <= plan.len(),
                plan@ == chain_plan(primary, additional@),
                first_unconfigured(plan@) == first_unconfigured(plan@.skip(i as int)),
                configured_endpoints(chains@, plan@.take(i as int)),
            decreases plan.len() - i,
        {
            proof {
                assert(plan@.skip(i as int).drop_first() =~= plan@.skip(i + 1));
                assert(plan@.skip(i as int)[0] == plan@[i as int]);
            }
            match endpoint_for(plan[i]) {
                Some(endpoint) => {
                    let ghost before = chains@;
                    let ghost pushed = endpoint;
                    chains.push(endpoint);
                    proof {
                        let upto = plan@.take(i as int);
                        let next = plan@.take(i + 1);
                        assert forall|k: int| 0 <= k < chains@.len() implies configured_endpoint(
                            #[trigger] chains@[k],
                            next[k],
                        ) by {
                            if k < i {
                                assert(chains@[k] == before[k]);
                                assert(next[k] == upto[k]);
                            } else {
                                assert(chains@[k] == pushed);
                                assert(next[k] == plan@[i as int]);
                            }
                        }
                    }
                },
                None => {
                    return Err(GasError::EndpointUnavailable { chain_id: plan[i] });
                },
            }
            i += 1;
        }
        assert(plan@.take(plan.len() as int) =~= plan@);
        assert(plan@.skip(plan.len() as int) =~= Seq::<u64>::empty());
        Ok(Aggregator::with_endpoints(chains).unwrap())
    }

    /// The number of chains in the plan.
    pub fn chain_count(&self) -> (n: usize)
        ensures
            n == self@.chains.len(),
    {
        self.chains.len()
    }

    /// The endpoint at a place of the plan.
    pub fn endpoint(&self, index: usize) -> (r: Option<&ChainEndpoint>)
        ensures
            r is Some <==> index < self@.chains.len(),
            r matches Some(e) ==> *e == self@.chains[index as int],
    {
        if index < self.chains.len() {
            Some(&self.chains[index])
        } else {
            None
        }
    }

    /// How far the run has come.
    pub fn progress(&self) -> (p: Progress)
        ensures
            p == self@.progress(),
    {
        match self.failure {
            Some(e) => {
                return Progress::Failed(e);
            },
            None => {},
        }
        if self.eth_price.is_none() {
            return Progress::Pending;
        }
        let mut i: usize = 0;
        while i < self.gas_prices.len()
            invariant
                i <= self.gas_prices.len(),
                self.failure is None,
                self.eth_price is Some,
                forall|k: int| 0 <= k < i ==> (#[trigger] self.gas_prices[k]) is Some,
            decreases self.gas_prices.len() - i,
        {
            if self.gas_prices[i].is_none() {
                assert(self@.gas_prices[i as int] is None);
                return Progress::Pending;
            }
            i += 1;
        }
        Progress::Complete
    }

    /// What the run has to report: nothing while answers are missing, the
    /// first failure once there is one, else one snapshot for each chain in
    /// plan order.
    pub fn outcome(&self) -> (r: Option<Result<Aggregation, GasError>>)
        requires
            self@.well_formed(),
        ensures
            match self@.progress() {
                Progress::Pending => r is None,
                Progress::Failed(e) => r == Some(Err::<Aggregation, GasError>(e)),
                Progress::Complete => r matches Some(Ok(report)) && report.reports(self@),
            },
    {
        match self.failure {
            Some(e) => {
                return Some(Err(e));
            },
            None => {},
        }
        let eth_price: UsdPrice = match self.eth_price {
            Some(price) => price,
            None => {
                return None;
            },
        };
        let primary_gas: u128 = match self.gas_prices[0] {
            Some(gas) => gas,
            None => {
                return None;
            },
        };
        let primary = ChainGasSnapshot {
            name: self.chains[0].name.clone(),
            gas_per_unit_wei: primary_gas,
            eth_price: Some(eth_price),
        };
        let mut additional: Vec<ChainGasSnapshot> = Vec::new();
        let mut i: usize = 1;
        while i < self.chains.len()
            invariant
                1 <= i <= self.chains.len(),
                self.gas_prices.len() == self.chains.len(),
                self.failure is None,
                additional.len() == i - 1,
                forall|k: int| 0 <= k < i ==> (#[trigger] self.gas_prices[k]) is Some,
                forall|k: int|
                    0 <= k < additional.len() ==> snapshot_of(
                        #[trigger] additional[k],
                        self.chains[k + 1],
                        self.gas_prices[k + 1],
                        None,
                    ),
            decreases self.chains.len() - i,
        {
            match self.gas_prices[i] {
                Some(gas) => {
                    additional.push(
                        ChainGasSnapshot {
                            name: self.chains[i].name.clone(),
                            gas_per_unit_wei: gas,
                            eth_price: None,
                        },
                    );
                },
                None => {
                    assert(self@.gas_prices[i as int] is None);
                    return None;
                },
            }
            i += 1;
        }
        Some(Ok(Aggregation { primary, additional, eth_price }))
    }

    /// Files the answer of the chain at `index` to its gas price call.
    pub fn record_gas_price(&mut self, index: usize, outcome: Option<u128>)
        requires
            old(self)@.well_formed(),
        ensures
            final(self)@ == old(self)@.after_gas_price(index as int, outcome),
            final(self)@.well_formed(),
    {
        if self.failure.is_some() || index >= self.chains.len() {
            return ;
        }
        if self.gas_prices[index].is_some() {
            return ;
        }
        match outcome {
            Some(price) => {
                self.gas_prices.set(index, Some(price));
            },
            None => {
                self.failure = Some(
                    GasError::EndpointUnavailable { chain_id: self.chains[index].chain_id },
                );
            },
        }
    }

    /// Files the answer of the pool on the primary chain.
    pub fn record_oracle(&mut self, outcome: Option<SqrtPriceX96>)
        requires
            old(self)@.well_formed(),
        ensures
            final(self)@ == old(self)@.after_oracle(root_value(outcome)),
            final(self)@.well_formed(),
    {
        if self.failure.is_some() || self.eth_price.is_some() {
            return ;
        }
        match outcome {
            Some(root) => {
                match eth_usd_price(&root) {
                    Ok(price) => {
                        self.eth_price = Some(price);
                    },
                    Err(e) => {
                        self.failure = Some(e);
                    },
                }
            },
            None => {
                self.failure = Some(
                    GasError::EndpointUnavailable { chain_id: self.chains[0].chain_id },
                );
            },
        }
    }
}

/// The gas prices of two different chains may be filed in either order: the
/// run comes out the same.
pub proof fn lemma_gas_answers_commute(run: RunState, i: int, a: u128, j: int, b: u128)
    requires
        run.well_formed(),
        i != j,
    ensures
        run.after_gas_price(i, Some(a)).after_gas_price(j, Some(b)) == run.after_gas_price(
            j,
            Some(b),
        ).after_gas_price(i, Some(a)),
{
    let first = run.after_gas_price(i, Some(a)).after_gas_price(j, Some(b));
    let second = run.after_gas_price(j, Some(b)).after_gas_price(i, Some(a));
    assert(first.gas_prices =~= second.gas_prices);
}

/// A gas price and a decodable answer of the pool may be filed in either
/// order: the run comes out the same.
pub proof fn lemma_oracle_commutes_with_gas(run: RunState, root: nat, i: int, a: u128)
    requires
        run.well_formed(),
        root != 0,
    ensures
        run.after_oracle(Some(root)).after_gas_price(i, Some(a)) == run.after_gas_price(
            i,
            Some(a),
        ).after_oracle(Some(root)),
{
}

/// A run that has failed stays as it is whatever is filed afterwards, and
/// reports the failure it had.
pub proof fn lemma_failure_is_final(
    run: RunState,
    index: int,
    gas_price: Option<u128>,
    root: Option<nat>,
)
    requires
        run.failure is Some,
    ensures
        run.after_gas_price(index, gas_price) == run,
        run.after_oracle(root) == run,
        run.progress() == Progress::Failed(run.failure->0),
{
}

/// The first call that fails decides the run, and the failure names the
/// chain that was asked: the chain at that place of the plan for a gas
/// price, the primary chain for the pool.
pub proof fn lemma_failed_call_names_its_chain(run: RunState, index: int)
    requires
        run.well_formed(),
        run.failure is None,
    ensures
        0 <= index < run.chains.len() && run.gas_prices[index] is None ==> run.after_gas_price(
            index,
            None,
        ).progress() == Progress::Failed(
            GasError::EndpointUnavailable { chain_id: run.chains[index].chain_id },
        ),
        run.eth_price is None ==> run.after_oracle(None).progress() == Progress::Failed(
            GasError::EndpointUnavailable { chain_id: run.chains[0].chain_id },
        ),
        run.eth_price is None ==> run.after_oracle(Some(0)).progress() == Progress::Failed(
            GasError::OracleDecodeFailure,
        ),
{
}

/// Filing an answer leaves the plan as it was and every other chain's
/// gas price where it was filed.
pub proof fn lemma_answers_keep_their_place(run: RunState, index: int, outcome: Option<u128>)
    requires
        run.well_formed(),
    ensures
        run.after_gas_price(index, outcome).well_formed(),
        run.after_gas_price(index, outcome).chains == run.chains,
        forall|k: int|
            0 <= k < run.gas_prices.len() && k != index ==> run.after_gas_price(
                index,
                outcome,
            ).gas_prices[k] == #[trigger] run.gas_prices[k],
{
}

} // verus!
