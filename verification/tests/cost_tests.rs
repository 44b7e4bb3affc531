use gas_cost::aggregator::{Aggregator, ChainGasSnapshot};
use gas_cost::chains::ChainEndpoint;
use gas_cost::cost::{
    collect_gas_data, estimate_cost, get_eth_cost_for_gas_limit, get_usd_cost, USD_COST_DECIMALS,
    WEI_PER_ETH, WEI_PER_GWEI,
};
use gas_cost::quote::{SqrtPriceX96, UsdPrice};
use gas_cost::wide::Wide;

const TEN_TO_33: u128 = 1_000_000_000_000_000_000_000_000_000_000_000;

fn limbs(low: &[u64]) -> [u64; 16] {
    let mut all = [0u64; 16];
    all[..low.len()].copy_from_slice(low);
    all
}

fn wide_to_float(w: &Wide) -> f64 {
    let mut total = 0.0;
    for (i, limb) in w.limbs().iter().enumerate() {
        total += *limb as f64 * 2f64.powi(64 * i as i32);
    }
    total
}

fn dollars(cost: &Wide) -> f64 {
    wide_to_float(cost) / 10f64.powi(USD_COST_DECIMALS as i32)
}

fn over_ten_to_33(w: &Wide) -> Option<u128> {
    w.checked_div(&Wide::from_u128(TEN_TO_33)).unwrap().to_u128()
}

fn endpoint(chain_id: u64, name: &str) -> ChainEndpoint {
    ChainEndpoint { chain_id, rpc_url: format!("http://localhost/{}", chain_id), name: name.to_string() }
}

#[test]
fn transfer_on_mainnet_at_twenty_gwei() {
    let cost = get_eth_cost_for_gas_limit(20_000_000_000, 21_000);
    assert_eq!(cost.to_u128(), Some(420_000_000_000_000));
    let price = UsdPrice::from_micro_usd(3_000_000_000);
    let usd = get_usd_cost(&cost, &price).unwrap();
    assert_eq!(
        usd.limbs(),
        limbs(&[15204152342002794496, 1872715160076497419, 3702807205090205650])
    );
    assert_eq!(over_ten_to_33(&usd), Some(1_260_000_000_000_000_000_000_000));
    assert_eq!(USD_COST_DECIMALS, 57);

    let native_cost = wide_to_float(&cost) / WEI_PER_ETH as f64;
    let usd_cost = dollars(&usd);
    let gas_price_gwei = 20_000_000_000u128 as f64 / WEI_PER_GWEI as f64;
    assert!((native_cost - 0.00042).abs() < 1e-15);
    assert!((usd_cost - 1.26).abs() < 1e-12);
    assert_eq!(gas_price_gwei, 20.0);
}

#[test]
fn estimate_carries_name_and_gas_price() {
    let snapshot = ChainGasSnapshot {
        name: "mainnet".to_string(),
        gas_per_unit_wei: 20_000_000_000,
        eth_price: None,
    };
    let price = UsdPrice::from_micro_usd(3_000_000_000);
    let estimate = estimate_cost(&snapshot, &price, 21_000);
    assert_eq!(estimate.name, "mainnet");
    assert_eq!(estimate.gas_per_unit_wei, 20_000_000_000);
    assert_eq!(estimate.eth_cost_wei.to_u128(), Some(420_000_000_000_000));
    assert_eq!(over_ten_to_33(&estimate.gas_cost_usd), Some(1_260_000_000_000_000_000_000_000));
    assert_eq!(
        estimate.gas_cost_usd.limbs(),
        limbs(&[15204152342002794496, 1872715160076497419, 3702807205090205650])
    );
}

#[test]
fn no_gas_costs_nothing() {
    let snapshot = ChainGasSnapshot {
        name: "base".to_string(),
        gas_per_unit_wei: 50_000_000,
        eth_price: None,
    };
    let price = UsdPrice::from_micro_usd(3_000_000_000);
    let estimate = estimate_cost(&snapshot, &price, 0);
    assert_eq!(estimate.eth_cost_wei.to_u128(), Some(0));
    assert_eq!(estimate.gas_cost_usd.to_u128(), Some(0));
    assert_eq!(estimate.gas_per_unit_wei, 50_000_000);
    assert_eq!(get_eth_cost_for_gas_limit(u128::MAX, 0).to_u128(), Some(0));
}

#[test]
fn doubling_the_limit_doubles_the_cost() {
    let price = UsdPrice::from_micro_usd(2_765_164_661);
    for limit in [1u64, 21_000, 1_000_000_000, u64::MAX / 2] {
        let once = get_eth_cost_for_gas_limit(123_456_789_123, limit);
        let twice = get_eth_cost_for_gas_limit(123_456_789_123, 2 * limit);
        let two = Wide::from_u64(2);
        assert_eq!(twice.limbs(), once.checked_mul(&two).unwrap().limbs());
        let usd_once = get_usd_cost(&once, &price).unwrap();
        let usd_twice = get_usd_cost(&twice, &price).unwrap();
        assert_eq!(usd_twice.limbs(), usd_once.checked_mul(&two).unwrap().limbs());
    }
}

#[test]
fn dollars_are_wei_times_price() {
    let cost = get_eth_cost_for_gas_limit(7, 3);
    let price = UsdPrice::from_micro_usd(11);
    assert_eq!(over_ten_to_33(&get_usd_cost(&cost, &price).unwrap()), Some(231));
    assert_eq!(
        get_usd_cost(&cost, &price).unwrap().to_u128(),
        Some(231 * TEN_TO_33)
    );
}

#[test]
fn the_product_needs_no_rounding_at_the_limits() {
    let cost = get_eth_cost_for_gas_limit(u128::MAX, u64::MAX);
    assert_eq!(cost.limbs(), limbs(&[1, u64::MAX, u64::MAX - 1]));
    let by_ruint = Wide::from_u128(u128::MAX).checked_mul(&Wide::from_u64(u64::MAX)).unwrap();
    assert_eq!(cost.limbs(), by_ruint.limbs());
    let ten_thousand_gwei = get_eth_cost_for_gas_limit(10_000_000_000_000, 1_000_000_000);
    assert_eq!(ten_thousand_gwei.to_u128(), Some(10_000_000_000_000_000_000_000));
}

#[test]
fn a_dollar_cost_beyond_1024_bits_is_none() {
    let top = SqrtPriceX96::from_u128(1);
    let price = gas_cost::quote::eth_usd_price(&top).unwrap();
    let largest_cost = get_eth_cost_for_gas_limit(u128::MAX, u64::MAX);
    assert!(get_usd_cost(&largest_cost, &price).is_some());
    let mut fits = limbs(&[]);
    fits[10] = 1;
    assert!(get_usd_cost(&Wide::from_limbs(fits), &price).is_some());
    let mut huge = limbs(&[]);
    huge[11] = 1;
    assert!(get_usd_cost(&Wide::from_limbs(huge), &price).is_none());
}

#[test]
fn rollups_cost_in_proportion_and_in_order() {
    let endpoints = vec![endpoint(1, "mainnet"), endpoint(42161, "arbitrum"), endpoint(8453, "base")];
    let mut run = Aggregator::with_endpoints(endpoints).unwrap();
    run.record_gas_price(2, Some(50_000_000));
    run.record_oracle(Some(SqrtPriceX96::from_u128(1446501726624926496477173928747177)));
    run.record_gas_price(1, Some(100_000_000));
    run.record_gas_price(0, Some(20_000_000_000));
    let report = run.outcome().unwrap().unwrap();
    let (data, price) = collect_gas_data(&report, 21_000);
    assert_eq!(over_ten_to_33(&price.units()), Some(3_000_000_000));
    assert_eq!(
        price.units().limbs(),
        limbs(&[16973411689157963110, 3830119002258054461, 8816])
    );
    assert_eq!(data.len(), 3);
    assert_eq!(data[0].name, "mainnet");
    assert_eq!(data[1].name, "arbitrum");
    assert_eq!(data[2].name, "base");
    assert_eq!(data[0].eth_cost_wei.to_u128(), Some(420_000_000_000_000));
    assert_eq!(data[1].eth_cost_wei.to_u128(), Some(2_100_000_000_000));
    assert_eq!(data[2].eth_cost_wei.to_u128(), Some(1_050_000_000_000));
    assert_eq!(
        data[0].gas_cost_usd.limbs(),
        limbs(&[5550548514568503296, 1872715160076554994, 3702807205090205650])
    );
    assert_eq!(over_ten_to_33(&data[0].gas_cost_usd), Some(1_260_000_000_000_000_000_000_000));
    assert_eq!(over_ten_to_33(&data[1].gas_cost_usd), Some(6_300_000_000_000_000_000_000));
    assert_eq!(over_ten_to_33(&data[2].gas_cost_usd), Some(3_150_000_000_000_000_000_000));
    for estimate in &data {
        let product = estimate.eth_cost_wei.checked_mul(&price.units()).unwrap();
        assert_eq!(estimate.gas_cost_usd.limbs(), product.limbs());
    }
    assert_eq!(data[1].gas_per_unit_wei, 100_000_000);
    assert_eq!(data[2].gas_per_unit_wei, 50_000_000);
    let usd_mainnet = dollars(&data[0].gas_cost_usd);
    let usd_arbitrum = dollars(&data[1].gas_cost_usd);
    let usd_base = dollars(&data[2].gas_cost_usd);
    assert!((usd_mainnet - 1.26).abs() < 1e-12);
    assert!((usd_mainnet / usd_arbitrum - 200.0).abs() < 1e-9);
    assert!((usd_arbitrum / usd_base - 2.0).abs() < 1e-9);
}
