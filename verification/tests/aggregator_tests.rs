use gas_cost::aggregator::{Aggregation, Aggregator, Progress};
use gas_cost::chains::{
    default_alt_chain_ids, endpoint_for, plan_chains, ChainEndpoint, ARBITRUM_CHAIN_ID,
    BASE_CHAIN_ID, MAINNET_CHAIN_ID, OPTIMISM_CHAIN_ID,
};
use gas_cost::error::GasError;
use gas_cost::quote::{SqrtPriceX96, UsdPrice};
use gas_cost::wide::Wide;

const ROOT_AT_3000: u128 = 1446501726624926496477173928747177;

fn micro_usd(price: &UsdPrice) -> Option<u128> {
    let ten_to_33 = Wide::from_u128(1_000_000_000_000_000_000_000_000_000_000_000);
    price.units().checked_div(&ten_to_33).unwrap().to_u128()
}

fn endpoint(chain_id: u64, name: &str) -> ChainEndpoint {
    ChainEndpoint { chain_id, rpc_url: format!("http://localhost/{}", chain_id), name: name.to_string() }
}

fn names(report: &Aggregation) -> Vec<String> {
    let mut all = vec![report.primary().name.clone()];
    for snapshot in report.additional() {
        all.push(snapshot.name.clone());
    }
    all
}

fn gas_prices(report: &Aggregation) -> Vec<u128> {
    let mut all = vec![report.primary().gas_per_unit_wei];
    for snapshot in report.additional() {
        all.push(snapshot.gas_per_unit_wei);
    }
    all
}

fn failure(run: &Aggregator) -> Option<GasError> {
    match run.outcome() {
        Some(Err(e)) => Some(e),
        _ => None,
    }
}

#[test]
fn plan_puts_the_primary_first_and_keeps_the_order() {
    assert_eq!(plan_chains(1, &vec![42161, 8453, 10]), vec![1, 42161, 8453, 10]);
    assert_eq!(plan_chains(1, &vec![10, 8453, 42161]), vec![1, 10, 8453, 42161]);
    assert_eq!(plan_chains(1, &vec![]), vec![1]);
    assert_eq!(plan_chains(10, &vec![1]), vec![10, 1]);
}

#[test]
fn plan_asks_no_chain_twice() {
    assert_eq!(plan_chains(1, &vec![1]), vec![1]);
    assert_eq!(plan_chains(1, &vec![10, 1, 10, 8453, 1, 8453, 10]), vec![1, 10, 8453]);
    assert_eq!(plan_chains(7, &vec![7, 7, 7]), vec![7]);
}

#[test]
fn default_chains_are_the_three_rollups() {
    assert_eq!(default_alt_chain_ids(), vec![42161, 8453, 10]);
    assert_eq!(
        default_alt_chain_ids(),
        vec![ARBITRUM_CHAIN_ID, BASE_CHAIN_ID, OPTIMISM_CHAIN_ID]
    );
    assert_eq!(MAINNET_CHAIN_ID, 1);
}

#[test]
fn four_chains_are_configured() {
    let mainnet = endpoint_for(1).unwrap();
    assert_eq!(mainnet.chain_id, 1);
    assert_eq!(mainnet.name, "mainnet");
    assert_eq!(mainnet.rpc_url, "https://ethereum-rpc.publicnode.com");
    let optimism = endpoint_for(10).unwrap();
    assert_eq!(optimism.name, "optimism");
    assert_eq!(optimism.rpc_url, "https://mainnet.optimism.io");
    let base = endpoint_for(8453).unwrap();
    assert_eq!(base.name, "base");
    assert_eq!(base.rpc_url, "https://mainnet.base.org");
    let arbitrum = endpoint_for(42161).unwrap();
    assert_eq!(arbitrum.name, "arbitrum");
    assert_eq!(arbitrum.rpc_url, "https://arb1.arbitrum.io/rpc");
    assert!(endpoint_for(0).is_none());
    assert!(endpoint_for(137).is_none());
    assert!(endpoint_for(u64::MAX).is_none());
}

#[test]
fn a_run_starts_pending_on_its_plan() {
    let run = Aggregator::new(1, &vec![42161, 8453, 10]).unwrap();
    assert_eq!(run.chain_count(), 4);
    assert_eq!(run.endpoint(0).unwrap().chain_id, 1);
    assert_eq!(run.endpoint(1).unwrap().chain_id, 42161);
    assert_eq!(run.endpoint(2).unwrap().chain_id, 8453);
    assert_eq!(run.endpoint(3).unwrap().chain_id, 10);
    assert_eq!(run.endpoint(3).unwrap().name, "optimism");
    assert!(run.endpoint(4).is_none());
    assert_eq!(run.progress(), Progress::Pending);
    assert!(run.outcome().is_none());
}

#[test]
fn a_chain_without_endpoint_fails_the_run_before_it_starts() {
    let failed = Aggregator::new(1, &vec![10, 137, 8453, 5]);
    assert_eq!(failed.err(), Some(GasError::EndpointUnavailable { chain_id: 137 }));
    let no_primary = Aggregator::new(5, &vec![10, 137]);
    assert_eq!(no_primary.err(), Some(GasError::EndpointUnavailable { chain_id: 5 }));
}

#[test]
fn a_run_needs_a_primary_chain() {
    assert!(Aggregator::with_endpoints(vec![]).is_none());
    assert!(Aggregator::with_endpoints(vec![endpoint(1, "mainnet")]).is_some());
}

#[test]
fn report_is_in_plan_order_whatever_comes_first() {
    let orders: [[usize; 4]; 4] = [[0, 1, 2, 3], [3, 2, 1, 0], [2, 0, 3, 1], [1, 3, 0, 2]];
    let prices: [u128; 4] = [20_000_000_000, 100_000_000, 50_000_000, 1_000_000];
    for order in orders {
        for oracle_at in 0..5 {
            let mut run = Aggregator::new(1, &vec![42161, 8453, 10]).unwrap();
            for (step, index) in order.iter().enumerate() {
                if step == oracle_at {
                    run.record_oracle(Some(SqrtPriceX96::from_u128(ROOT_AT_3000)));
                }
                assert_eq!(run.progress(), Progress::Pending);
                run.record_gas_price(*index, Some(prices[*index]));
            }
            if oracle_at == 4 {
                assert_eq!(run.progress(), Progress::Pending);
                assert!(run.outcome().is_none());
                run.record_oracle(Some(SqrtPriceX96::from_u128(ROOT_AT_3000)));
            }
            assert_eq!(run.progress(), Progress::Complete);
            let report = run.outcome().unwrap().unwrap();
            assert_eq!(names(&report), vec!["mainnet", "arbitrum", "base", "optimism"]);
            assert_eq!(gas_prices(&report), prices.to_vec());
        }
    }
}

#[test]
fn only_the_primary_snapshot_carries_the_price() {
    let mut run = Aggregator::new(1, &vec![10, 8453]).unwrap();
    run.record_gas_price(0, Some(3));
    run.record_gas_price(1, Some(2));
    run.record_gas_price(2, Some(1));
    run.record_oracle(Some(SqrtPriceX96::from_u128(ROOT_AT_3000)));
    let report = run.outcome().unwrap().unwrap();
    let in_primary = report.primary().eth_price.unwrap();
    assert_eq!(micro_usd(&in_primary), Some(3_000_000_000));
    assert_eq!(micro_usd(&report.eth_price()), Some(3_000_000_000));
    assert_eq!(in_primary.units().limbs(), report.eth_price().units().limbs());
    assert_eq!(report.additional().len(), 2);
    for snapshot in report.additional() {
        assert!(snapshot.eth_price.is_none());
    }
}

#[test]
fn a_failed_rollup_fails_the_run_and_is_named() {
    let mut run = Aggregator::new(1, &vec![42161, 8453, 10]).unwrap();
    run.record_gas_price(0, Some(20_000_000_000));
    run.record_oracle(Some(SqrtPriceX96::from_u128(ROOT_AT_3000)));
    run.record_gas_price(1, Some(100_000_000));
    run.record_gas_price(2, None);
    assert_eq!(run.progress(), Progress::Failed(GasError::EndpointUnavailable { chain_id: 8453 }));
    assert_eq!(failure(&run), Some(GasError::EndpointUnavailable { chain_id: 8453 }));
    run.record_gas_price(3, Some(1_000_000));
    assert_eq!(failure(&run), Some(GasError::EndpointUnavailable { chain_id: 8453 }));
    assert!(!matches!(run.outcome(), Some(Ok(_))));
}

#[test]
fn the_first_failure_is_the_one_reported() {
    let mut run = Aggregator::new(1, &vec![42161, 8453, 10]).unwrap();
    run.record_gas_price(3, None);
    run.record_gas_price(1, None);
    run.record_oracle(None);
    run.record_oracle(Some(SqrtPriceX96::from_u128(0)));
    assert_eq!(failure(&run), Some(GasError::EndpointUnavailable { chain_id: 10 }));
}

#[test]
fn a_failed_primary_fails_the_run() {
    let mut gas = Aggregator::new(1, &vec![10]).unwrap();
    gas.record_gas_price(0, None);
    assert_eq!(failure(&gas), Some(GasError::EndpointUnavailable { chain_id: 1 }));
    let mut pool = Aggregator::new(1, &vec![10]).unwrap();
    pool.record_gas_price(1, Some(5));
    pool.record_oracle(None);
    assert_eq!(failure(&pool), Some(GasError::EndpointUnavailable { chain_id: 1 }));
}

#[test]
fn a_zero_root_fails_the_run_as_a_decode_failure() {
    let mut run = Aggregator::new(1, &vec![10]).unwrap();
    run.record_gas_price(0, Some(5));
    run.record_gas_price(1, Some(5));
    run.record_oracle(Some(SqrtPriceX96::from_u128(0)));
    assert_eq!(run.progress(), Progress::Failed(GasError::OracleDecodeFailure));
    assert_eq!(failure(&run), Some(GasError::OracleDecodeFailure));
}

#[test]
fn a_second_answer_of_one_chain_is_ignored() {
    let mut run = Aggregator::new(1, &vec![10]).unwrap();
    run.record_gas_price(0, Some(5));
    run.record_gas_price(0, Some(6));
    run.record_gas_price(0, None);
    run.record_gas_price(1, Some(7));
    run.record_gas_price(2, None);
    run.record_gas_price(usize::MAX, Some(1));
    run.record_oracle(Some(SqrtPriceX96::from_u128(ROOT_AT_3000)));
    run.record_oracle(Some(SqrtPriceX96::from_u128(1)));
    run.record_oracle(None);
    let report = run.outcome().unwrap().unwrap();
    assert_eq!(gas_prices(&report), vec![5, 7]);
    assert_eq!(micro_usd(&report.eth_price()), Some(3_000_000_000));
}

#[test]
fn explicit_endpoints_are_reported_under_their_names() {
    let mut run =
        Aggregator::with_endpoints(vec![endpoint(31337, "anvil"), endpoint(31338, "fork")]).unwrap();
    run.record_gas_price(1, Some(2));
    run.record_gas_price(0, Some(1));
    run.record_oracle(Some(SqrtPriceX96::from_u128(1u128 << 96)));
    let report = run.outcome().unwrap().unwrap();
    assert_eq!(names(&report), vec!["anvil", "fork"]);
    assert_eq!(gas_prices(&report), vec![1, 2]);
    let mut failing =
        Aggregator::with_endpoints(vec![endpoint(31337, "anvil"), endpoint(31338, "fork")]).unwrap();
    failing.record_gas_price(1, None);
    assert_eq!(failure(&failing), Some(GasError::EndpointUnavailable { chain_id: 31338 }));
}
