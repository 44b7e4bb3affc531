//! What a gas limit costs at a gas price, in wei and in dollars.
//!
//! Nothing is rounded: a cost in the native token is a whole number of wei,
//! `10^18` to the token, and a cost in dollars is a whole number of units of
//! `10^-57` dollars, the product of wei and the price of an ether in units
//! of `10^-39` dollars.

use vstd::prelude::*;
use crate::aggregator::{Aggregation, ChainGasSnapshot};
use crate::quote::{price_scale, UsdPrice};
use crate::wide::{lemma_halves, lemma_value_of_sixteen, pow2_1024, pow2_192, Wide};

verus! {

/// The wei in one ether: a cost in wei over this is the cost in ether.
pub const WEI_PER_ETH: u64 = 1_000_000_000_000_000_000;

/// The wei in one gwei: a gas price in wei over this is the price in gwei.
pub const WEI_PER_GWEI: u64 = 1_000_000_000;

/// The decimal places of a dollar cost: such a cost counts units of
/// `10^-57` dollars.
pub const USD_COST_DECIMALS: u32 = 57;

/// The wei that `gas_limit` units of gas cost at `gas_per_unit_wei` each.
pub open spec fn native_cost_wei(gas_per_unit_wei: nat, gas_limit: nat) -> nat {
    gas_per_unit_wei * gas_limit
}

/// The dollars, in units of `10^-57`, that `cost_wei` is worth when an
/// ether is worth `price` units of `10^-39` dollars.
pub open spec fn usd_cost(cost_wei: nat, price: nat) -> nat {
    cost_wei * price
}

/// The cost in wei of spending `gas_limit` units of gas at
/// `gas_per_unit_wei` wei per unit. The product is exact for every input:
/// it has up to 192 bits.
pub fn get_eth_cost_for_gas_limit(gas_per_unit_wei: u128, gas_limit: u64) -> (cost: Wide)
    ensures
        cost@ == native_cost_wei(gas_per_unit_wei as nat, gas_limit as nat),
        cost@ < pow2_192(),
{
    let price_low: u128 = gas_per_unit_wei & 0xffff_ffff_ffff_ffff;
    let price_high: u128 = gas_per_unit_wei >> 64;
    let limit: u128 = gas_limit as u128;
    proof {
        lemma_halves(gas_per_unit_wei);
        lemma_limb_product(price_low as nat, limit as nat);
        lemma_limb_product(price_high as nat, limit as nat);
    }
    let low_product: u128 = price_low * limit;
    let product_low: u128 = low_product & 0xffff_ffff_ffff_ffff;
    let carry: u128 = low_product >> 64;
    proof {
        lemma_halves(low_product);
    }
    let high_sum: u128 = price_high * limit + carry;
    let sum_low: u128 = high_sum & 0xffff_ffff_ffff_ffff;
    let sum_high: u128 = high_sum >> 64;
    proof {
        lemma_halves(high_sum);
    }
    let limbs: [u64; 16] = [
        product_low as u64,
        sum_low as u64,
        sum_high as u64,
        0,
        0,
        0,
        0,
        0,
        0,
        0,
        0,
        0,
        0,
        0,
        0,
        0,
    ];
    proof {
        lemma_value_of_sixteen(limbs@);
        lemma_split_product(
            gas_per_unit_wei as nat,
            price_low as nat,
            price_high as nat,
            limit as nat,
        );
    }
    Wide::from_limbs(limbs)
}

/// The cost in dollars, in units of `10^-57`, of `cost_wei` at `price`.
pub fn get_usd_cost(cost_wei: &Wide, price: &UsdPrice) -> (r: Option<Wide>)
    ensures
        r is Some <==> usd_cost(cost_wei@, price@) < pow2_1024(),
        r matches Some(c) ==> c@ == usd_cost(cost_wei@, price@),
{
    let rate: Wide = price.units();
    cost_wei.checked_mul(&rate)
}

/// The product of two numbers of one limb each stays under two limbs, with
/// room for a carry.
proof fn lemma_limb_product(a: nat, b: nat)
    by (nonlinear_arith)
    requires
        a <= 0xffff_ffff_ffff_ffff,
        b <= 0xffff_ffff_ffff_ffff,
    ensures
        a * b <= 0xffff_ffff_ffff_ffff * 0xffff_ffff_ffff_ffff,
{
}

/// A product taken by halves of the first factor.
proof fn lemma_split_product(whole: nat, low: nat, high: nat, factor: nat)
    by (nonlinear_arith)
    requires
        whole == low + 0x1_0000_0000_0000_0000 * high,
    ensures
        whole * factor == low * factor + 0x1_0000_0000_0000_0000 * (high * factor),
{
}

/// What a gas limit costs on one chain.
#[derive(Clone, Debug)]
pub struct CostEstimate {
    /// The chain's name.
    pub name: String,
    /// The cost in wei: `10^18` to the native token.
    pub eth_cost_wei: Wide,
    /// The cost in dollars, in units of `10^-57`.
    pub gas_cost_usd: Wide,
    /// The gas price in wei per unit of gas: `10^9` to the gwei.
    pub gas_per_unit_wei: u128,
}

/// Whether `estimate` is the cost of `gas_limit` on the chain of `snapshot`
/// with ether at `price`.
pub open spec fn estimate_of(
    estimate: CostEstimate,
    snapshot: ChainGasSnapshot,
    price: nat,
    gas_limit: u64,
) -> bool {
    &&& estimate.name == snapshot.name
    &&& estimate.gas_per_unit_wei == snapshot.gas_per_unit_wei
    &&& estimate.eth_cost_wei@ == native_cost_wei(
        snapshot.gas_per_unit_wei as nat,
        gas_limit as nat,
    )
    &&& estimate.gas_cost_usd@ == usd_cost(estimate.eth_cost_wei@, price)
}

/// The cost of `gas_limit` on the chain of `snapshot` with ether at `price`.
pub fn estimate_cost(snapshot: &ChainGasSnapshot, price: &UsdPrice, gas_limit: u64) -> (estimate:
    CostEstimate)
    ensures
        estimate_of(estimate, *snapshot, price@, gas_limit),
{
    let eth_cost_wei: Wide = get_eth_cost_for_gas_limit(snapshot.gas_per_unit_wei, gas_limit);
    let rate: Wide = price.units();
    proof {
        lemma_usd_cost_fits(eth_cost_wei@, rate@);
    }
    let gas_cost_usd: Wide = eth_cost_wei.checked_mul(&rate).unwrap();
    CostEstimate {
        name: snapshot.name.clone(),
        eth_cost_wei,
        gas_cost_usd,
        gas_per_unit_wei: snapshot.gas_per_unit_wei,
    }
}

/// The estimates for every chain of a report, the primary chain's first and
/// the others in the order of the report, with the price of ether that all
/// of them use.
pub fn collect_gas_data(report: &Aggregation, gas_limit: u64) -> (r: (Vec<CostEstimate>, UsdPrice))
    ensures
        Some(r.1) == report.primary_snapshot().eth_price,
        r.0.len() == 1 + report.additional_snapshots().len(),
        estimate_of(r.0[0], report.primary_snapshot(), r.1@, gas_limit),
        forall|i: int|
            0 <= i < report.additional_snapshots().len() ==> estimate_of(
                #[trigger] r.0[i + 1],
                report.additional_snapshots()[i],
                r.1@,
                gas_limit,
            ),
{
    let eth_price: UsdPrice = report.eth_price();
    let additional: &Vec<ChainGasSnapshot> = report.additional();
    let mut data: Vec<CostEstimate> = Vec::new();
    data.push(estimate_cost(report.primary(), &eth_price, gas_limit));
    let mut i: usize = 0;
    while i < additional.len()
        invariant
            i <= additional.len(),
            additional@ == report.additional_snapshots(),
            data.len() == i + 1,
            estimate_of(data[0], report.primary_snapshot(), eth_price@, gas_limit),
            forall|k: int|
                0 <= k < i ==> estimate_of(
                    #[trigger] data[k + 1],
                    additional[k],
                    eth_price@,
                    gas_limit,
                ),
        decreases additional.len() - i,
    {
        data.push(estimate_cost(&additional[i], &eth_price, gas_limit));
        i += 1;
    }
    (data, eth_price)
}

/// A cost of at most 192 bits at any price stays within 1024 bits.
proof fn lemma_usd_cost_fits(cost_wei: nat, rate: nat)
    by (nonlinear_arith)
    requires
        cost_wei < pow2_192(),
        rate <= price_scale(),
    ensures
        cost_wei * rate < pow2_1024(),
{
    assert(cost_wei * rate <= pow2_192() * price_scale());
}

/// The cost in wei grows with the gas limit in proportion: `factor` times
/// the gas costs `factor` times the wei, and so the dollars.
pub proof fn lemma_cost_is_linear(
    gas_per_unit_wei: nat,
    gas_limit: nat,
    factor: nat,
    price: nat,
)
    ensures
        native_cost_wei(gas_per_unit_wei, factor * gas_limit) == factor * native_cost_wei(
            gas_per_unit_wei,
            gas_limit,
        ),
        usd_cost(native_cost_wei(gas_per_unit_wei, factor * gas_limit), price)
            == factor * usd_cost(native_cost_wei(gas_per_unit_wei, gas_limit), price),
{
    assert(gas_per_unit_wei * (factor * gas_limit) == factor * (gas_per_unit_wei * gas_limit))
        by (nonlinear_arith);
    assert((factor * (gas_per_unit_wei * gas_limit)) * price == factor * ((
    gas_per_unit_wei * gas_limit) * price)) by (nonlinear_arith);
}

/// The cost in wei and in dollars grows with the gas price in proportion.
pub proof fn lemma_cost_follows_gas_price(
    gas_per_unit_wei: nat,
    gas_limit: nat,
    factor: nat,
    price: nat,
)
    ensures
        native_cost_wei(factor * gas_per_unit_wei, gas_limit) == factor * native_cost_wei(
            gas_per_unit_wei,
            gas_limit,
        ),
        usd_cost(native_cost_wei(factor * gas_per_unit_wei, gas_limit), price)
            == factor * usd_cost(native_cost_wei(gas_per_unit_wei, gas_limit), price),
{
    assert((factor * gas_per_unit_wei) * gas_limit == factor * (gas_per_unit_wei * gas_limit))
        by (nonlinear_arith);
    assert((factor * (gas_per_unit_wei * gas_limit)) * price == factor * ((
    gas_per_unit_wei * gas_limit) * price)) by (nonlinear_arith);
}

/// A gas limit of zero costs nothing, in wei and in dollars, at any gas
/// price and any price of ether.
pub proof fn lemma_no_gas_costs_nothing(gas_per_unit_wei: nat, price: nat)
    ensures
        native_cost_wei(gas_per_unit_wei, 0) == 0,
        usd_cost(native_cost_wei(gas_per_unit_wei, 0), price) == 0,
{
    assert(gas_per_unit_wei * 0 == 0) by (nonlinear_arith);
    assert(0 * price == 0) by (nonlinear_arith);
}

} // verus!
