use crate::error::ContractError;
use crate::hub::{peg_active, CurrentBatch, HubState, Parameters};
use crate::math::{
    decimal_division, decimal_multiplication, decimal_ratio, mul_div, spec_decimal_ratio,
    Decimal, DECIMAL_FRACTIONAL,
};
use vstd::math::min;
use vstd::prelude::*;

verus! {

/// `amount` units priced through `rate`, floored: underlying equivalent.
pub open spec fn times_rate(amount: int, rate: Decimal) -> int {
    mul_div(amount, rate.atomics as int, DECIMAL_FRACTIONAL as int)
}

/// `amount` underlying units un-priced through `rate`, floored.
pub open spec fn over_rate(amount: int, rate: Decimal) -> int {
    mul_div(amount, DECIMAL_FRACTIONAL as int, rate.atomics as int)
}

/// The underlying equivalent of a rewards-token amount.
pub open spec fn spec_denom_equiv_of_stluna(state: HubState, amount: u128) -> int {
    times_rate(amount as int, state.stluna_exchange_rate)
}

/// How much bonded token that underlying equivalent mints, before any fee.
pub open spec fn spec_bluna_to_mint(state: HubState, amount: u128) -> int {
    over_rate(spec_denom_equiv_of_stluna(state, amount), state.bluna_exchange_rate)
}

/// The peg-recovery fee charged when minting `minted` bonded units against
/// an underlying deposit of `denom_equiv`: the fee-rate cap, or the amount
/// still missing from the hub's books, whichever is smaller.
pub open spec fn spec_mint_peg_fee(
    state: HubState,
    params: Parameters,
    batch: CurrentBatch,
    total_bluna_supply: u128,
    minted: int,
    denom_equiv: int,
) -> int {
    min(
        times_rate(minted, params.peg_recovery_fee),
        total_bluna_supply + minted + batch.requested_bluna_with_fee
            - state.total_bond_bluna_amount - denom_equiv,
    )
}

/// The whole rewards-to-bonded conversion: underlying equivalent, bonded
/// mint, then the peg fee while recovery mode is active. `None` marks the
/// underflow where the fee would exceed the mint.
pub open spec fn spec_convert_stluna_to_bluna(
    state: HubState,
    params: Parameters,
    batch: CurrentBatch,
    total_bluna_supply: u128,
    amount: u128,
) -> Option<int> {
    let denom_equiv = spec_denom_equiv_of_stluna(state, amount);
    let minted = spec_bluna_to_mint(state, amount);
    if peg_active(state, params) {
        let fee = spec_mint_peg_fee(state, params, batch, total_bluna_supply, minted, denom_equiv);
        if fee <= minted {
            Some(minted - fee)
        } else {
            None
        }
    } else {
        Some(minted)
    }
}

/// The machine-limit side conditions under which the rewards-to-bonded
/// conversion runs without overflowing a 128-bit amount.
pub open spec fn convert_stluna_to_bluna_safe(
    state: HubState,
    params: Parameters,
    batch: CurrentBatch,
    total_bluna_supply: u128,
    amount: u128,
) -> bool {
    let denom_equiv = spec_denom_equiv_of_stluna(state, amount);
    let minted = spec_bluna_to_mint(state, amount);
    &&& denom_equiv <= u128::MAX
    &&& state.bluna_exchange_rate.atomics != 0
    &&& minted <= u128::MAX
    &&& (peg_active(state, params) ==> {
        &&& times_rate(minted, params.peg_recovery_fee) <= u128::MAX
        &&& total_bluna_supply + minted + batch.requested_bluna_with_fee <= u128::MAX
        &&& state.total_bond_bluna_amount + denom_equiv <= u128::MAX
        &&& state.total_bond_bluna_amount + denom_equiv <= total_bluna_supply + minted
            + batch.requested_bluna_with_fee
    })
}

/// How much bonded token the hub would hand out for `stluna_amount` of the
/// rewards token, under the given snapshot of its books.
pub fn convert_stluna_to_bluna(
    state: &HubState,
    params: &Parameters,
    batch: &CurrentBatch,
    total_bluna_supply: u128,
    stluna_amount: u128,
) -> (r: Result<u128, ContractError>)
    requires
        convert_stluna_to_bluna_safe(*state, *params, *batch, total_bluna_supply, stluna_amount),
    ensures
        ({
            let s = spec_convert_stluna_to_bluna(
                *state,
                *params,
                *batch,
                total_bluna_supply,
                stluna_amount,
            );
            match r {
                Ok(v) => s == Some(v as int),
                Err(e) => s is None && e == ContractError::ArithmeticUnderflow,
            }
        }),
{
    proof {
        crate::math::lemma_mul_div_nonneg(
            stluna_amount as int,
            state.stluna_exchange_rate.atomics as int,
            DECIMAL_FRACTIONAL as int,
        );
    }
    let denom_equiv = state.stluna_exchange_rate.mul_amount(stluna_amount);
    proof {
        crate::math::lemma_mul_div_nonneg(
            denom_equiv as int,
            DECIMAL_FRACTIONAL as int,
            state.bluna_exchange_rate.atomics as int,
        );
    }
    let bluna_to_mint = decimal_division(denom_equiv, &state.bluna_exchange_rate);

    if state.bluna_exchange_rate.lt(&params.er_threshold) {
        proof {
            crate::math::lemma_mul_div_nonneg(
                bluna_to_mint as int,
                params.peg_recovery_fee.atomics as int,
                DECIMAL_FRACTIONAL as int,
            );
        }
        let max_peg_fee = params.peg_recovery_fee.mul_amount(bluna_to_mint);
        let required_peg_fee = (total_bluna_supply + bluna_to_mint + batch.requested_bluna_with_fee)
            - (state.total_bond_bluna_amount + denom_equiv);
        let peg_fee = if max_peg_fee < required_peg_fee {
            max_peg_fee
        } else {
            required_peg_fee
        };
        if peg_fee <= bluna_to_mint {
            Ok(bluna_to_mint - peg_fee)
        } else {
            Err(ContractError::ArithmeticUnderflow)
        }
    } else {
        Ok(bluna_to_mint)
    }
}

/// The bonded amount actually converted once the peg fee is charged on an
/// inbound bonded amount, or `None` on the two underflows the hub's books
/// can force: a committed amount above the issued supply, or a fee above
/// the amount itself.
pub open spec fn spec_bluna_amount_with_fee(
    state: HubState,
    params: Parameters,
    batch: CurrentBatch,
    total_bluna_supply: u128,
    amount: u128,
) -> Option<int> {
    if peg_active(state, params) {
        if total_bluna_supply + batch.requested_bluna_with_fee < state.total_bond_bluna_amount {
            None
        } else {
            let fee = min(
                times_rate(amount as int, params.peg_recovery_fee),
                total_bluna_supply + batch.requested_bluna_with_fee
                    - state.total_bond_bluna_amount,
            );
            if fee <= amount {
                Some(amount - fee)
            } else {
                None
            }
        }
    } else {
        Some(amount as int)
    }
}

/// The whole bonded-to-rewards conversion: peg fee on the bonded leg first,
/// then the two rate steps.
pub open spec fn spec_convert_bluna_to_stluna(
    state: HubState,
    params: Parameters,
    batch: CurrentBatch,
    total_bluna_supply: u128,
    amount: u128,
) -> Option<int> {
    match spec_bluna_amount_with_fee(state, params, batch, total_bluna_supply, amount) {
        Some(with_fee) => Some(
            over_rate(times_rate(with_fee, state.bluna_exchange_rate), state.stluna_exchange_rate),
        ),
        None => None,
    }
}

/// The machine-limit side conditions of the bonded-to-rewards conversion.
pub open spec fn convert_bluna_to_stluna_safe(
    state: HubState,
    params: Parameters,
    batch: CurrentBatch,
    total_bluna_supply: u128,
    amount: u128,
) -> bool {
    &&& state.stluna_exchange_rate.atomics != 0
    &&& (peg_active(state, params) ==> {
        &&& times_rate(amount as int, params.peg_recovery_fee) <= u128::MAX
        &&& total_bluna_supply + batch.requested_bluna_with_fee <= u128::MAX
    })
    &&& match spec_bluna_amount_with_fee(state, params, batch, total_bluna_supply, amount) {
        Some(with_fee) => {
            &&& times_rate(with_fee, state.bluna_exchange_rate) <= u128::MAX
            &&& over_rate(
                times_rate(with_fee, state.bluna_exchange_rate),
                state.stluna_exchange_rate,
            ) <= u128::MAX
        },
        None => true,
    }
}

/// How much rewards token the hub would hand out for `bluna_amount` of the
/// bonded token, under the given snapshot of its books.
pub fn convert_bluna_to_stluna(
    state: &HubState,
    params: &Parameters,
    batch: &CurrentBatch,
    total_bluna_supply: u128,
    bluna_amount: u128,
) -> (r: Result<u128, ContractError>)
    requires
        convert_bluna_to_stluna_safe(*state, *params, *batch, total_bluna_supply, bluna_amount),
    ensures
        ({
            let s = spec_convert_bluna_to_stluna(
                *state,
                *params,
                *batch,
                total_bluna_supply,
                bluna_amount,
            );
            match r {
                Ok(v) => s == Some(v as int),
                Err(e) => s is None && e == ContractError::ArithmeticUnderflow,
            }
        }),
{
    let bluna_amount_with_fee: u128;
    if state.bluna_exchange_rate.lt(&params.er_threshold) {
        proof {
            crate::math::lemma_mul_div_nonneg(
                bluna_amount as int,
                params.peg_recovery_fee.atomics as int,
                DECIMAL_FRACTIONAL as int,
            );
        }
        let max_peg_fee = params.peg_recovery_fee.mul_amount(bluna_amount);
        if total_bluna_supply + batch.requested_bluna_with_fee < state.total_bond_bluna_amount {
            return Err(ContractError::ArithmeticUnderflow);
        }
        let required_peg_fee = (total_bluna_supply + batch.requested_bluna_with_fee)
            - state.total_bond_bluna_amount;
        let peg_fee = if max_peg_fee < required_peg_fee {
            max_peg_fee
        } else {
            required_peg_fee
        };
        if peg_fee <= bluna_amount {
            bluna_amount_with_fee = bluna_amount - peg_fee;
        } else {
            return Err(ContractError::ArithmeticUnderflow);
        }
    } else {
        bluna_amount_with_fee = bluna_amount;
    }

    proof {
        crate::math::lemma_mul_div_nonneg(
            bluna_amount_with_fee as int,
            state.bluna_exchange_rate.atomics as int,
            DECIMAL_FRACTIONAL as int,
        );
    }
    let denom_equiv = state.bluna_exchange_rate.mul_amount(bluna_amount_with_fee);
    proof {
        crate::math::lemma_mul_div_nonneg(
            denom_equiv as int,
            DECIMAL_FRACTIONAL as int,
            state.stluna_exchange_rate.atomics as int,
        );
    }
    let stluna_to_mint = decimal_division(denom_equiv, &state.stluna_exchange_rate);
    Ok(stluna_to_mint)
}

/// The rewards token's price in bonded units: the ratio of the two
/// exchange rates, discounted by the peg fee while recovery is active.
pub open spec fn spec_stluna_price(
    stluna_er: Decimal,
    bluna_er: Decimal,
    threshold: Decimal,
    recovery_fee: Decimal,
) -> int {
    let ratio = spec_decimal_ratio(stluna_er, bluna_er);
    if bluna_er.atomics < threshold.atomics {
        mul_div(ratio, DECIMAL_FRACTIONAL - recovery_fee.atomics, DECIMAL_FRACTIONAL as int)
    } else {
        ratio
    }
}

/// The bonded token's price in rewards units, discounted the same way.
pub open spec fn spec_bluna_price(
    stluna_er: Decimal,
    bluna_er: Decimal,
    threshold: Decimal,
    recovery_fee: Decimal,
) -> int {
    let ratio = spec_decimal_ratio(bluna_er, stluna_er);
    if bluna_er.atomics < threshold.atomics {
        mul_div(ratio, DECIMAL_FRACTIONAL - recovery_fee.atomics, DECIMAL_FRACTIONAL as int)
    } else {
        ratio
    }
}

/// The side conditions under which both prices exist: nonzero rates, a fee
/// of at most one while recovery is active, and ratios within range.
pub open spec fn prices_safe(
    stluna_er: Decimal,
    bluna_er: Decimal,
    threshold: Decimal,
    recovery_fee: Decimal,
) -> bool {
    &&& stluna_er.atomics != 0
    &&& bluna_er.atomics != 0
    &&& spec_decimal_ratio(stluna_er, bluna_er) <= u128::MAX
    &&& spec_decimal_ratio(bluna_er, stluna_er) <= u128::MAX
    &&& (bluna_er.atomics < threshold.atomics ==> recovery_fee.atomics <= DECIMAL_FRACTIONAL)
}

/// The rewards token's live price in bonded units.
pub fn stluna_price(
    stluna_er: &Decimal,
    bluna_er: &Decimal,
    threshold: &Decimal,
    recovery_fee: &Decimal,
) -> (r: Decimal)
    requires
        prices_safe(*stluna_er, *bluna_er, *threshold, *recovery_fee),
    ensures
        r.atomics == spec_stluna_price(*stluna_er, *bluna_er, *threshold, *recovery_fee),
{
    let ratio = decimal_ratio(stluna_er, bluna_er);
    if bluna_er.lt(threshold) {
        let one = Decimal::one();
        let keep = Decimal { atomics: one.atomics - recovery_fee.atomics };
        proof {
            crate::math::lemma_mul_div_nonneg(
                ratio.atomics as int,
                keep.atomics as int,
                DECIMAL_FRACTIONAL as int,
            );
            crate::math::lemma_mul_div_le(
                ratio.atomics as int,
                keep.atomics as int,
                DECIMAL_FRACTIONAL as int,
            );
        }
        decimal_multiplication(&ratio, &keep)
    } else {
        ratio
    }
}

/// The bonded token's live price in rewards units.
pub fn bluna_price(
    stluna_er: &Decimal,
    bluna_er: &Decimal,
    threshold: &Decimal,
    recovery_fee: &Decimal,
) -> (r: Decimal)
    requires
        prices_safe(*stluna_er, *bluna_er, *threshold, *recovery_fee),
    ensures
        r.atomics == spec_bluna_price(*stluna_er, *bluna_er, *threshold, *recovery_fee),
{
    let ratio = decimal_ratio(bluna_er, stluna_er);
    if bluna_er.lt(threshold) {
        let one = Decimal::one();
        let keep = Decimal { atomics: one.atomics - recovery_fee.atomics };
        proof {
            crate::math::lemma_mul_div_nonneg(
                ratio.atomics as int,
                keep.atomics as int,
                DECIMAL_FRACTIONAL as int,
            );
            crate::math::lemma_mul_div_le(
                ratio.atomics as int,
                keep.atomics as int,
                DECIMAL_FRACTIONAL as int,
            );
        }
        decimal_multiplication(&ratio, &keep)
    } else {
        ratio
    }
}

/// How much of the rewards token a caller must offer to be handed
/// `bluna_amount` of the bonded token: the ask divided by the rewards
/// token's price.
pub open spec fn spec_reverse_convert_bluna_to_stluna(
    state: HubState,
    params: Parameters,
    amount: u128,
) -> int {
    let price = spec_stluna_price(
        state.stluna_exchange_rate,
        state.bluna_exchange_rate,
        params.er_threshold,
        params.peg_recovery_fee,
    );
    over_rate(amount as int, Decimal { atomics: price as u128 })
}

/// The side conditions of that reverse pricing: a nonzero price whose
/// quotient stays within range.
pub open spec fn reverse_convert_bluna_to_stluna_safe(
    state: HubState,
    params: Parameters,
    amount: u128,
) -> bool {
    &&& prices_safe(
        state.stluna_exchange_rate,
        state.bluna_exchange_rate,
        params.er_threshold,
        params.peg_recovery_fee,
    )
    &&& spec_stluna_price(
        state.stluna_exchange_rate,
        state.bluna_exchange_rate,
        params.er_threshold,
        params.peg_recovery_fee,
    ) != 0
    &&& spec_reverse_convert_bluna_to_stluna(state, params, amount) <= u128::MAX
}

/// Offer amount of the rewards token behind a reverse simulation asking for
/// `bluna_amount` of the bonded token.
pub fn reverse_convert_bluna_to_stluna(
    state: &HubState,
    params: &Parameters,
    bluna_amount: u128,
) -> (r: u128)
    requires
        reverse_convert_bluna_to_stluna_safe(*state, *params, bluna_amount),
    ensures
        r == spec_reverse_convert_bluna_to_stluna(*state, *params, bluna_amount),
{
    let price = stluna_price(
        &state.stluna_exchange_rate,
        &state.bluna_exchange_rate,
        &params.er_threshold,
        &params.peg_recovery_fee,
    );
    proof {
        crate::math::lemma_mul_div_nonneg(
            bluna_amount as int,
            DECIMAL_FRACTIONAL as int,
            price.atomics as int,
        );
    }
    decimal_division(bluna_amount, &price)
}

/// How much of the bonded token a caller must offer to be handed
/// `stluna_amount` of the rewards token.
pub open spec fn spec_reverse_convert_stluna_to_bluna(
    state: HubState,
    params: Parameters,
    amount: u128,
) -> int {
    let price = spec_bluna_price(
        state.stluna_exchange_rate,
        state.bluna_exchange_rate,
        params.er_threshold,
        params.peg_recovery_fee,
    );
    over_rate(amount as int, Decimal { atomics: price as u128 })
}

/// The side conditions of that reverse pricing.
pub open spec fn reverse_convert_stluna_to_bluna_safe(
    state: HubState,
    params: Parameters,
    amount: u128,
) -> bool {
    &&& prices_safe(
        state.stluna_exchange_rate,
        state.bluna_exchange_rate,
        params.er_threshold,
        params.peg_recovery_fee,
    )
    &&& spec_bluna_price(
        state.stluna_exchange_rate,
        state.bluna_exchange_rate,
        params.er_threshold,
        params.peg_recovery_fee,
    ) != 0
    &&& spec_reverse_convert_stluna_to_bluna(state, params, amount) <= u128::MAX
}

/// Offer amount of the bonded token behind a reverse simulation asking for
/// `stluna_amount` of the rewards token.
pub fn reverse_convert_stluna_to_bluna(
    state: &HubState,
    params: &Parameters,
    stluna_amount: u128,
) -> (r: u128)
    requires
        reverse_convert_stluna_to_bluna_safe(*state, *params, stluna_amount),
    ensures
        r == spec_reverse_convert_stluna_to_bluna(*state, *params, stluna_amount),
{
    let price = bluna_price(
        &state.stluna_exchange_rate,
        &state.bluna_exchange_rate,
        &params.er_threshold,
        &params.peg_recovery_fee,
    );
    proof {
        crate::math::lemma_mul_div_nonneg(
            stluna_amount as int,
            DECIMAL_FRACTIONAL as int,
            price.atomics as int,
        );
    }
    decimal_division(stluna_amount, &price)
}

} // verus!
