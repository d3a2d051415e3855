use crate::math::{mul_div, Decimal, DECIMAL_FRACTIONAL};
use crate::simulation::{bluna_price, prices_safe, spec_bluna_price, spec_stluna_price,
    stluna_price};
use crate::state::Config;
use vstd::prelude::*;

verus! {

/// Cumulative prices carry six extra decimal digits of precision.
pub const TWAP_PRECISION_FACTOR: u128 = 1_000_000;

/// The scaled time factor a new observation weighs a price with.
pub open spec fn spec_time_factor(block_time: u64, block_time_last: u64) -> int {
    (block_time - block_time_last) * TWAP_PRECISION_FACTOR
}

/// What one observation adds to a cumulative price.
pub open spec fn spec_price_delta(block_time: u64, block_time_last: u64, price: int) -> int {
    mul_div(
        spec_time_factor(block_time, block_time_last),
        price,
        DECIMAL_FRACTIONAL as int,
    )
}

/// The side conditions of one accumulation step: the prices exist and the
/// two weighted deltas fit in 128 bits.
pub open spec fn accumulate_prices_safe(
    block_time: u64,
    config: Config,
    stluna_er: Decimal,
    bluna_er: Decimal,
    threshold: Decimal,
    recovery_fee: Decimal,
) -> bool {
    &&& prices_safe(stluna_er, bluna_er, threshold, recovery_fee)
    &&& (config.block_time_last < block_time ==> {
        &&& spec_price_delta(
            block_time,
            config.block_time_last,
            spec_stluna_price(stluna_er, bluna_er, threshold, recovery_fee),
        ) <= u128::MAX
        &&& spec_price_delta(
            block_time,
            config.block_time_last,
            spec_bluna_price(stluna_er, bluna_er, threshold, recovery_fee),
        ) <= u128::MAX
    })
}

/// One step of the time-weighted price accumulator: each live price,
/// scaled by `TWAP_PRECISION_FACTOR`, weighted by the seconds since the
/// last observation, and added onto the stored cumulative values with
/// wrap-around. A second call within the same block time reports no
/// update at all.
pub fn accumulate_prices(
    block_time: u64,
    config: &Config,
    stluna_er: &Decimal,
    bluna_er: &Decimal,
    threshold: &Decimal,
    recovery_fee: &Decimal,
) -> (r: Option<(u128, u128, u64)>)
    requires
        accumulate_prices_safe(
            block_time,
            *config,
            *stluna_er,
            *bluna_er,
            *threshold,
            *recovery_fee,
        ),
    ensures
        (r is None) <==> block_time <= config.block_time_last,
        ({
            let p0 = spec_stluna_price(*stluna_er, *bluna_er, *threshold, *recovery_fee);
            let p1 = spec_bluna_price(*stluna_er, *bluna_er, *threshold, *recovery_fee);
            r matches Some((c0, c1, t)) ==> {
                &&& t == block_time
                &&& c0 == config.price0_cumulative_last.wrapping_add(
                    spec_price_delta(block_time, config.block_time_last, p0) as u128,
                )
                &&& c1 == config.price1_cumulative_last.wrapping_add(
                    spec_price_delta(block_time, config.block_time_last, p1) as u128,
                )
            }
        }),
{
    if block_time <= config.block_time_last {
        return None;
    }

    let time_elapsed: u128 = (block_time - config.block_time_last) as u128;
    let time_factor: u128 = time_elapsed * TWAP_PRECISION_FACTOR;
    proof {
        vstd::arithmetic::mul::lemma_mul_inequality(
            time_elapsed as int,
            u64::MAX as int,
            TWAP_PRECISION_FACTOR as int,
        );
    }

    let price0 = stluna_price(stluna_er, bluna_er, threshold, recovery_fee);
    let price1 = bluna_price(stluna_er, bluna_er, threshold, recovery_fee);

    proof {
        crate::math::lemma_mul_div_nonneg(
            time_factor as int,
            price0.atomics as int,
            DECIMAL_FRACTIONAL as int,
        );
        crate::math::lemma_mul_div_nonneg(
            time_factor as int,
            price1.atomics as int,
            DECIMAL_FRACTIONAL as int,
        );
    }
    let delta0 = price0.mul_amount(time_factor);
    let delta1 = price1.mul_amount(time_factor);

    let price0_cumulative = config.price0_cumulative_last.wrapping_add(delta0);
    let price1_cumulative = config.price1_cumulative_last.wrapping_add(delta1);

    Some((price0_cumulative, price1_cumulative, block_time))
}

} // verus!
