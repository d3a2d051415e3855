use crate::error::ContractError;
use crate::hub::{CurrentBatch, HubState, Parameters};
use crate::simulation::{
    convert_bluna_to_stluna, convert_bluna_to_stluna_safe, convert_stluna_to_bluna,
    convert_stluna_to_bluna_safe, reverse_convert_bluna_to_stluna,
    reverse_convert_bluna_to_stluna_safe, reverse_convert_stluna_to_bluna,
    reverse_convert_stluna_to_bluna_safe, spec_convert_bluna_to_stluna,
    spec_convert_stluna_to_bluna, spec_reverse_convert_bluna_to_stluna,
    spec_reverse_convert_stluna_to_bluna,
};
use crate::simulation::{spec_bluna_price, spec_stluna_price};
use crate::state::Config;
use crate::twap::{accumulate_prices, accumulate_prices_safe, spec_price_delta};
use vstd::prelude::*;

verus! {

/// What identifies an asset on the pair surface: one of the two token
/// contracts, or a native coin, which this pair never deals in.
#[derive(Clone, Debug)]
pub enum AssetInfo {
    Token { contract_addr: String },
    NativeToken { denom: String },
}

/// An asset with an amount attached.
#[derive(Clone, Debug)]
pub struct Asset {
    pub info: AssetInfo,
    pub amount: u128,
}

/// The answer to a simulation query. This pair charges no commission and
/// reports no spread: the peg-recovery fee is already inside the returned
/// amount.
#[derive(Clone, Copy, Debug, PartialEq, Eq, Structural)]
pub struct SimulationResponse {
    pub return_amount: u128,
    pub spread_amount: u128,
    pub commission_amount: u128,
}

/// The answer to a reverse-simulation query.
#[derive(Clone, Copy, Debug, PartialEq, Eq, Structural)]
pub struct ReverseSimulationResponse {
    pub offer_amount: u128,
    pub spread_amount: u128,
    pub commission_amount: u128,
}

/// The pool view of the pair: each token's total issued supply stands in
/// for a reserve, and no share token exists.
#[derive(Clone, Debug)]
pub struct PoolResponse {
    pub assets: Vec<Asset>,
    pub total_share: u128,
}

/// The kinds of pair the surface can claim to be.
#[derive(Clone, Copy, Debug, PartialEq, Eq, Structural)]
pub enum PairType {
    Xyk,
    Stable,
}

/// What a pair-info query reports.
#[derive(Clone, Debug)]
pub struct PairInfo {
    pub asset_infos: Vec<AssetInfo>,
    pub contract_addr: String,
    pub liquidity_token: String,
    pub pair_type: PairType,
}

/// What a cumulative-prices query reports.
#[derive(Clone, Debug)]
pub struct CumulativePricesResponse {
    pub assets: Vec<Asset>,
    pub total_share: u128,
    pub price0_cumulative_last: u128,
    pub price1_cumulative_last: u128,
}

/// Whether a simulation query's side conditions hold for this offer.
pub open spec fn query_simulation_safe(
    config: Config,
    state: HubState,
    params: Parameters,
    batch: CurrentBatch,
    total_bluna_supply: u128,
    offer_asset: Asset,
) -> bool {
    match offer_asset.info {
        AssetInfo::Token { contract_addr } => {
            &&& (contract_addr@ == config.stluna_addr@ ==> convert_stluna_to_bluna_safe(
                state,
                params,
                batch,
                total_bluna_supply,
                offer_asset.amount,
            ))
            &&& (contract_addr@ != config.stluna_addr@ && contract_addr@ == config.bluna_addr@
                ==> convert_bluna_to_stluna_safe(
                state,
                params,
                batch,
                total_bluna_supply,
                offer_asset.amount,
            ))
        },
        AssetInfo::NativeToken { denom } => true,
    }
}

/// Prices an offered asset through the hub, as a dry run: the returned
/// amount is what a real swap would hand the recipient, with zero spread
/// and zero commission, and an asset outside the pair is invalid.
pub fn query_simulation(
    config: &Config,
    state: &HubState,
    params: &Parameters,
    batch: &CurrentBatch,
    total_bluna_supply: u128,
    offer_asset: &Asset,
) -> (r: Result<SimulationResponse, ContractError>)
    requires
        query_simulation_safe(*config, *state, *params, *batch, total_bluna_supply, *offer_asset),
    ensures
        ({
            match offer_asset.info {
                AssetInfo::Token { contract_addr } => {
                    if contract_addr@ == config.stluna_addr@ {
                        match spec_convert_stluna_to_bluna(
                            *state,
                            *params,
                            *batch,
                            total_bluna_supply,
                            offer_asset.amount,
                        ) {
                            Some(v) => r matches Ok(resp) && resp.return_amount == v
                                && resp.spread_amount == 0 && resp.commission_amount == 0,
                            None => r == Err::<SimulationResponse, ContractError>(
                                ContractError::ArithmeticUnderflow,
                            ),
                        }
                    } else if contract_addr@ == config.bluna_addr@ {
                        match spec_convert_bluna_to_stluna(
                            *state,
                            *params,
                            *batch,
                            total_bluna_supply,
                            offer_asset.amount,
                        ) {
                            Some(v) => r matches Ok(resp) && resp.return_amount == v
                                && resp.spread_amount == 0 && resp.commission_amount == 0,
                            None => r == Err::<SimulationResponse, ContractError>(
                                ContractError::ArithmeticUnderflow,
                            ),
                        }
                    } else {
                        r == Err::<SimulationResponse, ContractError>(ContractError::InvalidAsset)
                    }
                },
                AssetInfo::NativeToken { denom } => r == Err::<
                    SimulationResponse,
                    ContractError,
                >(ContractError::InvalidAsset),
            }
        }),
{
    let contract_addr = match &offer_asset.info {
        AssetInfo::Token { contract_addr } => contract_addr,
        AssetInfo::NativeToken { denom: _ } => {
            return Err(ContractError::InvalidAsset);
        },
    };

    if *contract_addr == config.stluna_addr {
        let return_amount = convert_stluna_to_bluna(
            state,
            params,
            batch,
            total_bluna_supply,
            offer_asset.amount,
        )?;
        Ok(SimulationResponse { return_amount, spread_amount: 0, commission_amount: 0 })
    } else if *contract_addr == config.bluna_addr {
        let return_amount = convert_bluna_to_stluna(
            state,
            params,
            batch,
            total_bluna_supply,
            offer_asset.amount,
        )?;
        Ok(SimulationResponse { return_amount, spread_amount: 0, commission_amount: 0 })
    } else {
        Err(ContractError::InvalidAsset)
    }
}

/// Whether a reverse-simulation query's side conditions hold for this ask.
pub open spec fn query_reverse_simulation_safe(
    config: Config,
    state: HubState,
    params: Parameters,
    ask_asset: Asset,
) -> bool {
    match ask_asset.info {
        AssetInfo::Token { contract_addr } => {
            &&& (contract_addr@ == config.stluna_addr@ ==> reverse_convert_stluna_to_bluna_safe(
                state,
                params,
                ask_asset.amount,
            ))
            &&& (contract_addr@ != config.stluna_addr@ && contract_addr@ == config.bluna_addr@
                ==> reverse_convert_bluna_to_stluna_safe(state, params, ask_asset.amount))
        },
        AssetInfo::NativeToken { denom } => true,
    }
}

/// Prices an asked asset backwards: how much of the other token one must
/// offer to be handed the ask, with zero spread and zero commission.
pub fn query_reverse_simulation(
    config: &Config,
    state: &HubState,
    params: &Parameters,
    ask_asset: &Asset,
) -> (r: Result<ReverseSimulationResponse, ContractError>)
    requires
        query_reverse_simulation_safe(*config, *state, *params, *ask_asset),
    ensures
        ({
            match ask_asset.info {
                AssetInfo::Token { contract_addr } => {
                    if contract_addr@ == config.stluna_addr@ {
                        r matches Ok(resp) && resp.offer_amount
                            == spec_reverse_convert_stluna_to_bluna(
                            *state,
                            *params,
                            ask_asset.amount,
                        ) && resp.spread_amount == 0 && resp.commission_amount == 0
                    } else if contract_addr@ == config.bluna_addr@ {
                        r matches Ok(resp) && resp.offer_amount
                            == spec_reverse_convert_bluna_to_stluna(
                            *state,
                            *params,
                            ask_asset.amount,
                        ) && resp.spread_amount == 0 && resp.commission_amount == 0
                    } else {
                        r == Err::<ReverseSimulationResponse, ContractError>(
                            ContractError::InvalidAsset,
                        )
                    }
                },
                AssetInfo::NativeToken { denom } => r == Err::<
                    ReverseSimulationResponse,
                    ContractError,
                >(ContractError::InvalidAsset),
            }
        }),
{
    let contract_addr = match &ask_asset.info {
        AssetInfo::Token { contract_addr } => contract_addr,
        AssetInfo::NativeToken { denom: _ } => {
            return Err(ContractError::InvalidAsset);
        },
    };

    if *contract_addr == config.stluna_addr {
        let offer_amount = reverse_convert_stluna_to_bluna(state, params, ask_asset.amount);
        Ok(ReverseSimulationResponse { offer_amount, spread_amount: 0, commission_amount: 0 })
    } else if *contract_addr == config.bluna_addr {
        let offer_amount = reverse_convert_bluna_to_stluna(state, params, ask_asset.amount);
        Ok(ReverseSimulationResponse { offer_amount, spread_amount: 0, commission_amount: 0 })
    } else {
        Err(ContractError::InvalidAsset)
    }
}

/// Each token's total issued supply reported as its "reserve" — these are
/// not pooled reserves, but routers expect the shape — and a zero total
/// share, since no liquidity token exists.
pub fn pool_info(config: &Config, stluna_supply: u128, bluna_supply: u128) -> (r: (Vec<
    Asset,
>, u128))
    ensures
        r.0@.len() == 2,
        r.0@[0].info matches AssetInfo::Token { contract_addr } && contract_addr@
            == config.stluna_addr@,
        r.0@[0].amount == stluna_supply,
        r.0@[1].info matches AssetInfo::Token { contract_addr } && contract_addr@
            == config.bluna_addr@,
        r.0@[1].amount == bluna_supply,
        r.1 == 0,
{
    let mut assets: Vec<Asset> = Vec::new();
    assets.push(Asset {
        info: AssetInfo::Token { contract_addr: config.stluna_addr.clone() },
        amount: stluna_supply,
    });
    assets.push(Asset {
        info: AssetInfo::Token { contract_addr: config.bluna_addr.clone() },
        amount: bluna_supply,
    });
    (assets, 0)
}

/// The pool view of the pair, shaped as routers expect it.
pub fn query_pool(config: &Config, stluna_supply: u128, bluna_supply: u128) -> (r: PoolResponse)
    ensures
        r.assets@.len() == 2,
        r.assets@[0].info matches AssetInfo::Token { contract_addr } && contract_addr@
            == config.stluna_addr@,
        r.assets@[0].amount == stluna_supply,
        r.assets@[1].info matches AssetInfo::Token { contract_addr } && contract_addr@
            == config.bluna_addr@,
        r.assets@[1].amount == bluna_supply,
        r.total_share == 0,
{
    let (assets, total_share) = pool_info(config, stluna_supply, bluna_supply);
    PoolResponse { assets, total_share }
}

/// The pair view: the two token assets, this contract's address, no
/// liquidity token, and a stable pair type.
pub fn query_pair_info(config: &Config, contract_address: &String) -> (r: PairInfo)
    ensures
        r.asset_infos@.len() == 2,
        r.asset_infos@[0] matches AssetInfo::Token { contract_addr } && contract_addr@
            == config.stluna_addr@,
        r.asset_infos@[1] matches AssetInfo::Token { contract_addr } && contract_addr@
            == config.bluna_addr@,
        r.contract_addr@ == contract_address@,
        r.liquidity_token@.len() == 0,
        r.pair_type == PairType::Stable,
{
    let mut asset_infos: Vec<AssetInfo> = Vec::new();
    asset_infos.push(AssetInfo::Token { contract_addr: config.stluna_addr.clone() });
    asset_infos.push(AssetInfo::Token { contract_addr: config.bluna_addr.clone() });
    PairInfo {
        asset_infos,
        contract_addr: contract_address.clone(),
        liquidity_token: String::new(),
        pair_type: PairType::Stable,
    }
}

/// The share behind a withdrawal: always empty, since no liquidity exists
/// to withdraw.
pub fn query_share(amount: u128) -> (r: Vec<Asset>)
    ensures
        r@.len() == 0,
{
    let _ = amount;
    Vec::new()
}

/// The cumulative-prices view: the pool assets, and the accumulator as it
/// would stand at `block_time` — unchanged when no time has passed.
pub fn query_cumulative_prices(
    config: &Config,
    state: &HubState,
    params: &Parameters,
    stluna_supply: u128,
    bluna_supply: u128,
    block_time: u64,
) -> (r: CumulativePricesResponse)
    requires
        accumulate_prices_safe(
            block_time,
            *config,
            state.stluna_exchange_rate,
            state.bluna_exchange_rate,
            params.er_threshold,
            params.peg_recovery_fee,
        ),
    ensures
        r.assets@.len() == 2,
        r.assets@[0].amount == stluna_supply,
        r.assets@[1].amount == bluna_supply,
        r.total_share == 0,
        ({
            let p0 = spec_stluna_price(
                state.stluna_exchange_rate,
                state.bluna_exchange_rate,
                params.er_threshold,
                params.peg_recovery_fee,
            );
            let p1 = spec_bluna_price(
                state.stluna_exchange_rate,
                state.bluna_exchange_rate,
                params.er_threshold,
                params.peg_recovery_fee,
            );
            if block_time <= config.block_time_last {
                r.price0_cumulative_last == config.price0_cumulative_last
                    && r.price1_cumulative_last == config.price1_cumulative_last
            } else {
                r.price0_cumulative_last == config.price0_cumulative_last.wrapping_add(
                    spec_price_delta(block_time, config.block_time_last, p0) as u128,
                ) && r.price1_cumulative_last == config.price1_cumulative_last.wrapping_add(
                    spec_price_delta(block_time, config.block_time_last, p1) as u128,
                )
            }
        }),
{
    let pool = query_pool(config, stluna_supply, bluna_supply);
    let accumulated = accumulate_prices(
        block_time,
        config,
        &state.stluna_exchange_rate,
        &state.bluna_exchange_rate,
        &params.er_threshold,
        &params.peg_recovery_fee,
    );
    let (price0, price1) = match accumulated {
        Some((p0, p1, _)) => (p0, p1),
        None => (config.price0_cumulative_last, config.price1_cumulative_last),
    };
    CumulativePricesResponse {
        assets: pool.assets,
        total_share: pool.total_share,
        price0_cumulative_last: price0,
        price1_cumulative_last: price1,
    }
}

} // verus!
