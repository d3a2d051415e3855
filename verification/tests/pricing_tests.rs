use stluna_bluna_converter::contract::parse_uint128;
use stluna_bluna_converter::error::ContractError;
use stluna_bluna_converter::hub::{CurrentBatch, HubState, Parameters};
use stluna_bluna_converter::math::{decimal_division, Decimal, DECIMAL_FRACTIONAL};
use stluna_bluna_converter::msgs::InstantiateMsg;
use stluna_bluna_converter::queries::{
    query_cumulative_prices, query_pair_info, query_pool, query_reverse_simulation, query_share,
    query_simulation, Asset, AssetInfo, PairType,
};
use stluna_bluna_converter::simulation::{
    convert_bluna_to_stluna, convert_stluna_to_bluna, reverse_convert_bluna_to_stluna,
    reverse_convert_stluna_to_bluna,
};
use stluna_bluna_converter::state::Config;
use stluna_bluna_converter::twap::accumulate_prices;
use stluna_bluna_converter::contract::instantiate;

const MOCK_HUB_CONTRACT_ADDR: &str = "hub";
const MOCK_STLUNA_TOKEN_CONTRACT_ADDR: &str = "stluna_token";
const MOCK_BLUNA_TOKEN_CONTRACT_ADDR: &str = "bluna_token";

const MOCK_TOTAL_BLUNA_SUPPLY: u128 = 1_000_010;

fn dec(atomics: u128) -> Decimal {
    Decimal { atomics }
}

/// The hub fixture behind the simulation tests: rates 1.5 and 0.95, a peg
/// threshold of 1.0 and a recovery fee of 5%, with ten bonded units of
/// slack between issued supply and committed amount.
fn mock_hub() -> (HubState, Parameters, CurrentBatch) {
    (
        HubState {
            stluna_exchange_rate: dec(1_500_000_000_000_000_000),
            bluna_exchange_rate: dec(950_000_000_000_000_000),
            total_bond_bluna_amount: 1_000_000,
        },
        Parameters {
            er_threshold: dec(1_000_000_000_000_000_000),
            peg_recovery_fee: dec(50_000_000_000_000_000),
        },
        CurrentBatch { requested_bluna_with_fee: 0 },
    )
}

fn make_config() -> Config {
    let msg = InstantiateMsg {
        stluna_address: MOCK_STLUNA_TOKEN_CONTRACT_ADDR.to_string(),
        bluna_address: MOCK_BLUNA_TOKEN_CONTRACT_ADDR.to_string(),
        hub_address: MOCK_HUB_CONTRACT_ADDR.to_string(),
    };
    instantiate(msg, "owner".to_string()).unwrap()
}

fn token_asset(addr: &str, amount: u128) -> Asset {
    Asset { info: AssetInfo::Token { contract_addr: addr.to_string() }, amount }
}

#[test]
fn proper_simulation_query() {
    let config = make_config();
    let (state, params, batch) = mock_hub();

    let bluna_amount: u128 = 150;
    let expected_return_stluna_amount: u128 = 90;
    let simulation_response = query_simulation(
        &config,
        &state,
        &params,
        &batch,
        MOCK_TOTAL_BLUNA_SUPPLY,
        &token_asset(MOCK_BLUNA_TOKEN_CONTRACT_ADDR, bluna_amount),
    )
    .unwrap();
    assert_eq!(expected_return_stluna_amount, simulation_response.return_amount);

    let stluna_amount: u128 = 100;
    let expected_return_bluna_amount: u128 = 150;
    let simulation_response = query_simulation(
        &config,
        &state,
        &params,
        &batch,
        MOCK_TOTAL_BLUNA_SUPPLY,
        &token_asset(MOCK_STLUNA_TOKEN_CONTRACT_ADDR, stluna_amount),
    )
    .unwrap();
    assert_eq!(expected_return_bluna_amount, simulation_response.return_amount);
}

#[test]
fn proper_reverse_simulation_query() {
    let config = make_config();
    let (state, params, _batch) = mock_hub();

    let bluna_amount: u128 = 150;
    let expected_offer_stluna_amount: u128 = 100;
    let simulation_response = query_reverse_simulation(
        &config,
        &state,
        &params,
        &token_asset(MOCK_BLUNA_TOKEN_CONTRACT_ADDR, bluna_amount),
    )
    .unwrap();
    assert_eq!(expected_offer_stluna_amount, simulation_response.offer_amount);

    let stluna_amount: u128 = 90;
    let expected_offer_bluna_amount: u128 = 149; // ~150
    let simulation_response = query_reverse_simulation(
        &config,
        &state,
        &params,
        &token_asset(MOCK_STLUNA_TOKEN_CONTRACT_ADDR, stluna_amount),
    )
    .unwrap();
    assert_eq!(expected_offer_bluna_amount, simulation_response.offer_amount);
}

#[test]
fn simulation_of_foreign_asset_is_invalid() {
    let config = make_config();
    let (state, params, batch) = mock_hub();

    let res = query_simulation(
        &config,
        &state,
        &params,
        &batch,
        MOCK_TOTAL_BLUNA_SUPPLY,
        &token_asset("intruder_token", 100),
    );
    assert_eq!(res.unwrap_err(), ContractError::InvalidAsset);

    let native = Asset { info: AssetInfo::NativeToken { denom: "uluna".to_string() }, amount: 100 };
    let res = query_reverse_simulation(&config, &state, &params, &native);
    assert_eq!(res.unwrap_err(), ContractError::InvalidAsset);
}

#[test]
fn test_accumulate_prices() {
    struct Case {
        block_time: u64,
        block_time_last: u64,
        last0: u128,
        last1: u128,
        stluna_exchange_rate: Decimal,
        bluna_exchange_rate: Decimal,
        threshold: Decimal,
        recovery_fee: Decimal,
    }

    struct Expected {
        block_time_last: u64,
        price_x: u128,
        price_y: u128,
        is_some: bool,
    }

    let price_precision: u128 = 10u128.pow(6);

    let test_cases: Vec<(Case, Expected)> = vec![
        (
            Case {
                block_time: 1000,
                block_time_last: 0,
                last0: 0,
                last1: 0,
                stluna_exchange_rate: dec(1_500_000_000_000_000_000),
                bluna_exchange_rate: dec(950_000_000_000_000_000),
                threshold: dec(1_000_000_000_000_000_000),
                recovery_fee: dec(50_000_000_000_000_000),
            },
            Expected {
                block_time_last: 1000,
                price_x: 1499, // ~((1.5 / 0.95) * (1 - 0.05)) * 1000
                price_y: 601,  // ((1 - 0.05) * 0.95 / 1.5) * 1000
                is_some: true,
            },
        ),
        // Same block height, no changes
        (
            Case {
                block_time: 1000,
                block_time_last: 1000,
                last0: price_precision,
                last1: 2 * price_precision,
                stluna_exchange_rate: dec(1_500_000_000_000_000_000),
                bluna_exchange_rate: dec(950_000_000_000_000_000),
                threshold: dec(1_000_000_000_000_000_000),
                recovery_fee: dec(50_000_000_000_000_000),
            },
            Expected { block_time_last: 1000, price_x: 1, price_y: 2, is_some: false },
        ),
        (
            Case {
                block_time: 1500,
                block_time_last: 1000,
                last0: 1500 * price_precision,
                last1: 601 * price_precision,
                stluna_exchange_rate: dec(1_500_000_000_000_000_000),
                bluna_exchange_rate: dec(1_000_000_000_000_000_000),
                threshold: dec(1_000_000_000_000_000_000),
                recovery_fee: dec(50_000_000_000_000_000),
            },
            Expected {
                block_time_last: 1500,
                price_x: 2250, // 1500 + (1.5/1*500)
                price_y: 934,  // 601 + (1/1.5*500)
                is_some: true,
            },
        ),
    ];

    for (case, expected) in test_cases {
        let config = Config {
            block_time_last: case.block_time_last,
            price0_cumulative_last: case.last0,
            price1_cumulative_last: case.last1,
            hub_addr: "".to_string(),
            stluna_addr: "".to_string(),
            bluna_addr: "".to_string(),
            owner: "".to_string(),
        };

        let result = accumulate_prices(
            case.block_time,
            &config,
            &case.stluna_exchange_rate,
            &case.bluna_exchange_rate,
            &case.threshold,
            &case.recovery_fee,
        );

        assert_eq!(expected.is_some, result.is_some());

        if let Some(result) = result {
            assert_eq!(result.2, expected.block_time_last);
            assert_eq!(result.0 / price_precision, expected.price_x);
            assert_eq!(result.1 / price_precision, expected.price_y);
        }
    }
}

#[test]
fn forward_conversions_match_fixture() {
    let (state, params, batch) = mock_hub();

    // 100 rewards units price into 150 underlying, pre-fee mint ~157,
    // and the 5% cap of 7 bonded units is charged in full.
    let res = convert_stluna_to_bluna(&state, &params, &batch, MOCK_TOTAL_BLUNA_SUPPLY, 100);
    assert_eq!(res.unwrap(), 150);

    // 150 bonded units lose the 7-unit fee, price into 135 underlying,
    // and mint 90 rewards units.
    let res = convert_bluna_to_stluna(&state, &params, &batch, MOCK_TOTAL_BLUNA_SUPPLY, 150);
    assert_eq!(res.unwrap(), 90);
}

#[test]
fn reverse_conversions_track_forward_ones() {
    let (state, params, batch) = mock_hub();

    // Being handed 150 bonded units takes an offer of ~100 rewards units,
    // the amount the forward direction converts into 150.
    let forward =
        convert_stluna_to_bluna(&state, &params, &batch, MOCK_TOTAL_BLUNA_SUPPLY, 100).unwrap();
    assert_eq!(forward, 150);
    assert_eq!(reverse_convert_bluna_to_stluna(&state, &params, forward), 100);

    // Being handed 90 rewards units takes an offer of ~150 bonded units:
    // the forward direction converts 150 into exactly those 90.
    let forward =
        convert_bluna_to_stluna(&state, &params, &batch, MOCK_TOTAL_BLUNA_SUPPLY, 150).unwrap();
    assert_eq!(forward, 90);
    assert_eq!(reverse_convert_stluna_to_bluna(&state, &params, forward), 149);
}

#[test]
fn no_peg_fee_at_or_above_threshold() {
    let (mut state, params, batch) = mock_hub();
    // The bonded rate holds the threshold exactly: recovery mode is off.
    state.bluna_exchange_rate = dec(1_000_000_000_000_000_000);

    // 100 rewards units price into 150 underlying and mint exactly 150
    // bonded units: the fee is exactly zero.
    let res = convert_stluna_to_bluna(&state, &params, &batch, MOCK_TOTAL_BLUNA_SUPPLY, 100);
    assert_eq!(res.unwrap(), 150);

    // 150 bonded units price into 150 underlying and mint exactly 100.
    let res = convert_bluna_to_stluna(&state, &params, &batch, MOCK_TOTAL_BLUNA_SUPPLY, 150);
    assert_eq!(res.unwrap(), 100);
}

#[test]
fn round_trip_is_exact_above_threshold() {
    let (_, params, batch) = mock_hub();
    // Rates that divide evenly and no peg fee: the round trip loses nothing.
    let state = HubState {
        stluna_exchange_rate: dec(2 * DECIMAL_FRACTIONAL),
        bluna_exchange_rate: dec(DECIMAL_FRACTIONAL),
        total_bond_bluna_amount: 1_000_000,
    };

    let stluna =
        convert_bluna_to_stluna(&state, &params, &batch, MOCK_TOTAL_BLUNA_SUPPLY, 100).unwrap();
    assert_eq!(stluna, 50);
    let back =
        convert_stluna_to_bluna(&state, &params, &batch, MOCK_TOTAL_BLUNA_SUPPLY, stluna).unwrap();
    assert_eq!(back, 100);
}

#[test]
fn forward_conversion_is_monotone() {
    let (state, params, batch) = mock_hub();

    let mut last: u128 = 0;
    for amount in [0u128, 1, 7, 99, 100, 101, 150, 1_000, 100_000] {
        let out =
            convert_stluna_to_bluna(&state, &params, &batch, MOCK_TOTAL_BLUNA_SUPPLY, amount)
                .unwrap();
        assert!(out >= last);
        last = out;
    }

    let mut last: u128 = 0;
    for amount in [0u128, 1, 7, 99, 100, 101, 150, 1_000, 100_000] {
        let out =
            convert_bluna_to_stluna(&state, &params, &batch, MOCK_TOTAL_BLUNA_SUPPLY, amount)
                .unwrap();
        assert!(out >= last);
        last = out;
    }
}

#[test]
fn conversion_underflow_is_reported() {
    let (state, mut params, batch) = mock_hub();
    // A fee rate above one makes the capped fee exceed the mint itself.
    params.peg_recovery_fee = dec(2 * DECIMAL_FRACTIONAL);
    let supply_with_slack: u128 = 1_001_000;

    let res = convert_stluna_to_bluna(&state, &params, &batch, supply_with_slack, 100);
    assert_eq!(res.unwrap_err(), ContractError::ArithmeticUnderflow);
}

#[test]
fn decimal_operations_floor() {
    // 150 underlying at a bonded rate of 0.95 mint 157 bonded units.
    assert_eq!(decimal_division(150, &dec(950_000_000_000_000_000)), 157);
    // A rate applied to an amount floors too: 143 * 0.95 = 135.85 -> 135.
    assert_eq!(dec(950_000_000_000_000_000).mul_amount(143), 135);
    // One whole unit passes through unchanged.
    assert_eq!(dec(DECIMAL_FRACTIONAL).mul_amount(12345), 12345);
}

#[test]
fn parse_uint128_reads_amounts() {
    assert_eq!(parse_uint128("0"), Some(0));
    assert_eq!(parse_uint128("90"), Some(90));
    assert_eq!(parse_uint128("340282366920938463463374607431768211455"), Some(u128::MAX));
    assert_eq!(parse_uint128(""), None);
    assert_eq!(parse_uint128("12a"), None);
    assert_eq!(parse_uint128("-5"), None);
    assert_eq!(parse_uint128("340282366920938463463374607431768211456"), None);
}

#[test]
fn cumulative_prices_unchanged_within_one_block() {
    let (state, params, _batch) = mock_hub();
    let mut config = make_config();
    config.block_time_last = 1000;
    config.price0_cumulative_last = 1_500_000_000;
    config.price1_cumulative_last = 601_000_000;

    // Asked again at the very same block time, the accumulator reports
    // the stored values unchanged.
    let res = query_cumulative_prices(&config, &state, &params, 1_111, 2_222, 1000);
    assert_eq!(res.price0_cumulative_last, 1_500_000_000);
    assert_eq!(res.price1_cumulative_last, 601_000_000);
    assert_eq!(res.assets[0].amount, 1_111);
    assert_eq!(res.assets[1].amount, 2_222);

    // A later block accumulates price-weighted time on top.
    let res = query_cumulative_prices(&config, &state, &params, 1_111, 2_222, 2000);
    assert_eq!(res.price0_cumulative_last / 1_000_000, 1500 + 1499);
    assert_eq!(res.price1_cumulative_last / 1_000_000, 601 + 601);
}

#[test]
fn pool_reports_supplies_as_reserves() {
    let config = make_config();

    let pool = query_pool(&config, 1_111, 2_222);
    assert_eq!(pool.total_share, 0);
    assert_eq!(pool.assets.len(), 2);
    assert_eq!(pool.assets[0].amount, 1_111);
    assert_eq!(pool.assets[1].amount, 2_222);
    match &pool.assets[0].info {
        AssetInfo::Token { contract_addr } => {
            assert_eq!(contract_addr, MOCK_STLUNA_TOKEN_CONTRACT_ADDR)
        }
        _ => panic!("unexpected asset info"),
    }

    let pair = query_pair_info(&config, &"pair_contract".to_string());
    assert_eq!(pair.contract_addr, "pair_contract");
    assert_eq!(pair.liquidity_token, "");
    assert_eq!(pair.pair_type, PairType::Stable);
    assert_eq!(pair.asset_infos.len(), 2);

    assert!(query_share(100).is_empty());
}
