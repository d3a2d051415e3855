use crate::hub::{peg_active, CurrentBatch, HubState, Parameters};
use crate::math::{
    lemma_mul_div_le, lemma_mul_div_mono, lemma_mul_div_nonneg, lemma_sub_fee_mono,
    DECIMAL_FRACTIONAL,
};
use crate::simulation::{
    convert_bluna_to_stluna_safe, convert_stluna_to_bluna_safe, over_rate,
    spec_bluna_amount_with_fee, spec_bluna_price, spec_bluna_to_mint,
    spec_convert_bluna_to_stluna, spec_convert_stluna_to_bluna, spec_denom_equiv_of_stluna,
    spec_stluna_price, times_rate,
};
use vstd::arithmetic::div_mod::{
    lemma_div_by_multiple, lemma_fundamental_div_mod, lemma_div_pos_is_pos,
};
use vstd::arithmetic::mul::{lemma_mul_is_commutative, lemma_mul_nonnegative};
use vstd::prelude::*;

verus! {

/// While the bonded exchange rate holds the threshold, no peg-recovery fee
/// is charged anywhere: both forward conversions return the bare
/// rate-chain, and both prices are the bare ratio of the exchange rates.
pub proof fn lemma_no_peg_fee_above_threshold(
    state: HubState,
    params: Parameters,
    batch: CurrentBatch,
    total_bluna_supply: u128,
    amount: u128,
)
    requires
        !peg_active(state, params),
    ensures
        spec_convert_stluna_to_bluna(state, params, batch, total_bluna_supply, amount) == Some(
            spec_bluna_to_mint(state, amount),
        ),
        spec_convert_bluna_to_stluna(state, params, batch, total_bluna_supply, amount) == Some(
            over_rate(times_rate(amount as int, state.bluna_exchange_rate),
            state.stluna_exchange_rate),
        ),
        spec_stluna_price(
            state.stluna_exchange_rate,
            state.bluna_exchange_rate,
            params.er_threshold,
            params.peg_recovery_fee,
        ) == crate::math::spec_decimal_ratio(
            state.stluna_exchange_rate,
            state.bluna_exchange_rate,
        ),
        spec_bluna_price(
            state.stluna_exchange_rate,
            state.bluna_exchange_rate,
            params.er_threshold,
            params.peg_recovery_fee,
        ) == crate::math::spec_decimal_ratio(
            state.bluna_exchange_rate,
            state.stluna_exchange_rate,
        ),
{
}

/// With no peg fee active and hub rates that divide the amount's
/// underlying value evenly, converting bonded to rewards and back returns
/// exactly the amount one started with. (With rates that do not divide
/// evenly the floored divisions lose dust, and once the fee is active the
/// loss is by design.)
pub proof fn lemma_round_trip_exact_above_threshold(
    state: HubState,
    params: Parameters,
    batch: CurrentBatch,
    total_bluna_supply: u128,
    bluna_amount: u128,
)
    requires
        !peg_active(state, params),
        state.stluna_exchange_rate.atomics != 0,
        state.bluna_exchange_rate.atomics != 0,
        (bluna_amount * state.bluna_exchange_rate.atomics) % (DECIMAL_FRACTIONAL as int) == 0,
        (times_rate(bluna_amount as int, state.bluna_exchange_rate) * DECIMAL_FRACTIONAL)
            % (state.stluna_exchange_rate.atomics as int) == 0,
        over_rate(
            times_rate(bluna_amount as int, state.bluna_exchange_rate),
            state.stluna_exchange_rate,
        ) <= u128::MAX,
    ensures
        ({
            let stluna = over_rate(
                times_rate(bluna_amount as int, state.bluna_exchange_rate),
                state.stluna_exchange_rate,
            );
            &&& spec_convert_bluna_to_stluna(state, params, batch, total_bluna_supply,
                bluna_amount) == Some(stluna)
            &&& spec_convert_stluna_to_bluna(
                state,
                params,
                batch,
                total_bluna_supply,
                stluna as u128,
            ) == Some(bluna_amount as int)
        }),
{
    let frac = DECIMAL_FRACTIONAL as int;
    let eb = state.bluna_exchange_rate.atomics as int;
    let es = state.stluna_exchange_rate.atomics as int;
    let b = bluna_amount as int;

    let denom = times_rate(b, state.bluna_exchange_rate);
    let stluna = over_rate(denom, state.stluna_exchange_rate);

    lemma_mul_nonnegative(b, eb);
    lemma_div_pos_is_pos(b * eb, frac);
    assert(denom >= 0);
    lemma_mul_nonnegative(denom, frac);
    lemma_div_pos_is_pos(denom * frac, es);
    assert(stluna >= 0);

    // The first rate step is exact: b * eb == frac * denom.
    lemma_fundamental_div_mod(b * eb, frac);
    assert(b * eb == frac * denom);

    // The second rate step is exact: denom * frac == es * stluna.
    lemma_fundamental_div_mod(denom * frac, es);
    assert(denom * frac == es * stluna);

    // Walking back: (stluna * es) / frac recovers denom exactly.
    assert(times_rate(stluna as u128 as int, state.stluna_exchange_rate) == denom) by {
        lemma_mul_is_commutative(stluna, es);
        assert(stluna * es == denom * frac);
        lemma_div_by_multiple(denom, frac);
        assert((denom * frac) / frac == denom);
    }

    // And (denom * frac) / eb recovers the original bonded amount.
    assert(over_rate(denom, state.bluna_exchange_rate) == b) by {
        lemma_mul_is_commutative(frac, denom);
        assert(denom * frac == b * eb);
        lemma_div_by_multiple(b, eb);
        assert((b * eb) / eb == b);
    }

    assert(spec_denom_equiv_of_stluna(state, stluna as u128) == denom);
    assert(spec_bluna_to_mint(state, stluna as u128) == b);
}

/// Rewards-to-bonded conversion is monotone: with fixed hub books, a fee
/// rate of at most one, and amounts within the conversion's machine
/// limits, offering more of the rewards token never yields less of the
/// bonded token.
pub proof fn lemma_convert_stluna_to_bluna_monotonic(
    state: HubState,
    params: Parameters,
    batch: CurrentBatch,
    total_bluna_supply: u128,
    amount1: u128,
    amount2: u128,
)
    requires
        amount1 <= amount2,
        params.peg_recovery_fee.atomics <= DECIMAL_FRACTIONAL,
        state.bluna_exchange_rate.atomics != 0,
        convert_stluna_to_bluna_safe(state, params, batch, total_bluna_supply, amount1),
        convert_stluna_to_bluna_safe(state, params, batch, total_bluna_supply, amount2),
    ensures
        ({
            let r1 = spec_convert_stluna_to_bluna(state, params, batch, total_bluna_supply,
                amount1);
            let r2 = spec_convert_stluna_to_bluna(state, params, batch, total_bluna_supply,
                amount2);
            r1 matches Some(v1) && r2 matches Some(v2) && v1 <= v2
        }),
{
    let frac = DECIMAL_FRACTIONAL as int;
    let es = state.stluna_exchange_rate.atomics as int;
    let eb = state.bluna_exchange_rate.atomics as int;
    let f = params.peg_recovery_fee.atomics as int;

    let d1 = spec_denom_equiv_of_stluna(state, amount1);
    let d2 = spec_denom_equiv_of_stluna(state, amount2);
    let m1 = spec_bluna_to_mint(state, amount1);
    let m2 = spec_bluna_to_mint(state, amount2);

    lemma_mul_div_nonneg(amount1 as int, es, frac);
    lemma_mul_div_nonneg(amount2 as int, es, frac);
    lemma_mul_div_mono(amount1 as int, amount2 as int, es, frac);
    assert(0 <= d1 <= d2);
    lemma_mul_div_nonneg(d1, frac, eb);
    lemma_mul_div_nonneg(d2, frac, eb);
    lemma_mul_div_mono(d1, d2, frac, eb);
    assert(0 <= m1 <= m2);

    if peg_active(state, params) {
        lemma_mul_div_le(m1, f, frac);
        lemma_mul_div_le(m2, f, frac);
        lemma_mul_div_nonneg(m1, f, frac);
        lemma_mul_div_nonneg(m2, f, frac);
        lemma_sub_fee_mono(m1, m2, f, frac);
    }
}

/// Bonded-to-rewards conversion is monotone under the same conditions.
pub proof fn lemma_convert_bluna_to_stluna_monotonic(
    state: HubState,
    params: Parameters,
    batch: CurrentBatch,
    total_bluna_supply: u128,
    amount1: u128,
    amount2: u128,
)
    requires
        amount1 <= amount2,
        params.peg_recovery_fee.atomics <= DECIMAL_FRACTIONAL,
        peg_active(state, params) ==> total_bluna_supply + batch.requested_bluna_with_fee
            >= state.total_bond_bluna_amount,
        convert_bluna_to_stluna_safe(state, params, batch, total_bluna_supply, amount1),
        convert_bluna_to_stluna_safe(state, params, batch, total_bluna_supply, amount2),
    ensures
        ({
            let r1 = spec_convert_bluna_to_stluna(state, params, batch, total_bluna_supply,
                amount1);
            let r2 = spec_convert_bluna_to_stluna(state, params, batch, total_bluna_supply,
                amount2);
            r1 matches Some(v1) && r2 matches Some(v2) && v1 <= v2
        }),
{
    let frac = DECIMAL_FRACTIONAL as int;
    let es = state.stluna_exchange_rate.atomics as int;
    let eb = state.bluna_exchange_rate.atomics as int;
    let f = params.peg_recovery_fee.atomics as int;

    let w1 = spec_bluna_amount_with_fee(state, params, batch, total_bluna_supply, amount1);
    let w2 = spec_bluna_amount_with_fee(state, params, batch, total_bluna_supply, amount2);

    if peg_active(state, params) {
        lemma_mul_div_le(amount1 as int, f, frac);
        lemma_mul_div_le(amount2 as int, f, frac);
        lemma_mul_div_nonneg(amount1 as int, f, frac);
        lemma_mul_div_nonneg(amount2 as int, f, frac);
        lemma_sub_fee_mono(amount1 as int, amount2 as int, f, frac);
    }
    assert(w1 matches Some(v1) && w2 matches Some(v2) && 0 <= v1 <= v2);

    let v1 = w1->Some_0;
    let v2 = w2->Some_0;
    lemma_mul_div_nonneg(v1, eb, frac);
    lemma_mul_div_mono(v1, v2, eb, frac);
    lemma_mul_div_nonneg(times_rate(v1, state.bluna_exchange_rate), frac, es);
    lemma_mul_div_mono(
        times_rate(v1, state.bluna_exchange_rate),
        times_rate(v2, state.bluna_exchange_rate),
        frac,
        es,
    );
}

} // verus!
