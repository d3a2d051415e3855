use vstd::arithmetic::div_mod::{
    lemma_div_is_ordered, lemma_div_multiples_vanish, lemma_div_pos_is_pos,
    lemma_hoist_over_denominator,
};
use vstd::arithmetic::mul::{lemma_mul_inequality, lemma_mul_is_commutative, lemma_mul_nonnegative};
use vstd::prelude::*;

verus! {

/// Atomic units per whole unit of a fixed-point decimal: decimals carry
/// eighteen fractional digits, as the host chain's decimal type does.
pub const DECIMAL_FRACTIONAL: u128 = 1_000_000_000_000_000_000;

/// `a * b / c` over the unbounded integers, floored.
///
/// Every fixed-point operation below is an instance of this shape.
pub open spec fn mul_div(a: int, b: int, c: int) -> int {
    (a * b) / c
}

/// A floored product-quotient of nonnegative numbers is nonnegative.
pub proof fn lemma_mul_div_nonneg(a: int, b: int, c: int)
    requires
        0 <= a,
        0 <= b,
        0 < c,
    ensures
        0 <= mul_div(a, b, c),
{
    lemma_mul_nonnegative(a, b);
    lemma_div_pos_is_pos(a * b, c);
}

/// Scaling `a` by a ratio `b / c` of at most one never exceeds `a`.
pub proof fn lemma_mul_div_le(a: int, b: int, c: int)
    requires
        0 <= a,
        0 <= b <= c,
        0 < c,
    ensures
        mul_div(a, b, c) <= a,
{
    lemma_mul_inequality(b, c, a);
    lemma_mul_is_commutative(b, a);
    lemma_mul_is_commutative(c, a);
    lemma_div_is_ordered(a * b, a * c, c);
    lemma_mul_is_commutative(a, c);
    lemma_div_multiples_vanish(a, c);
}

/// `mul_div` is monotone in its first argument.
pub proof fn lemma_mul_div_mono(a1: int, a2: int, b: int, c: int)
    requires
        a1 <= a2,
        0 <= b,
        0 < c,
    ensures
        mul_div(a1, b, c) <= mul_div(a2, b, c),
{
    lemma_mul_inequality(a1, a2, b);
    lemma_div_is_ordered(a1 * b, a2 * b, c);
}

/// Deducting a floored fee of rate `f / c` at most one keeps order: the
/// larger amount still nets at least as much after its fee.
pub proof fn lemma_sub_fee_mono(m1: int, m2: int, f: int, c: int)
    requires
        0 <= m1 <= m2,
        0 <= f <= c,
        0 < c,
    ensures
        m1 - mul_div(m1, f, c) <= m2 - mul_div(m2, f, c),
{
    let d = m2 - m1;
    assert(m2 * f == m1 * f + d * f) by {
        vstd::arithmetic::mul::lemma_mul_is_distributive_add_other_way(f, m1, d);
    }
    lemma_mul_inequality(f, c, d);
    lemma_mul_is_commutative(f, d);
    lemma_mul_is_commutative(c, d);
    assert(m2 * f <= m1 * f + d * c);
    lemma_div_is_ordered(m2 * f, m1 * f + d * c, c);
    lemma_hoist_over_denominator(m1 * f, d, c as nat);
    assert(mul_div(m2, f, c) <= mul_div(m1, f, c) + d);
}

/// Relies on `cosmwasm_std::Uint128::multiply_ratio`: it computes
/// `self * numerator / denominator` over a 256-bit intermediate, floors the
/// division, and panics only when the denominator is zero or the floored
/// result does not fit in 128 bits. Both panics are excluded here.
#[verifier::external_body]
pub(crate) fn multiply_ratio(a: u128, b: u128, c: u128) -> (r: u128)
    requires
        c != 0,
        mul_div(a as int, b as int, c as int) <= u128::MAX,
    ensures
        r == mul_div(a as int, b as int, c as int),
{
    cosmwasm_std::Uint128::new(a).multiply_ratio(b, c).u128()
}

/// A fixed-point decimal: `atomics / DECIMAL_FRACTIONAL` whole units.
#[derive(Clone, Copy, Debug, PartialEq, Eq, Structural)]
pub struct Decimal {
    pub atomics: u128,
}

/// `amount * rate`, floored to an integer amount.
pub open spec fn spec_mul_amount(rate: Decimal, amount: u128) -> int {
    mul_div(amount as int, rate.atomics as int, DECIMAL_FRACTIONAL as int)
}

/// `numerator / rate`, floored to an integer amount.
pub open spec fn spec_decimal_division(numerator: u128, rate: Decimal) -> int {
    mul_div(numerator as int, DECIMAL_FRACTIONAL as int, rate.atomics as int)
}

/// The atomics of `a / b`, floored.
pub open spec fn spec_decimal_ratio(a: Decimal, b: Decimal) -> int {
    mul_div(a.atomics as int, DECIMAL_FRACTIONAL as int, b.atomics as int)
}

/// The atomics of `a * b`, floored.
pub open spec fn spec_decimal_multiplication(a: Decimal, b: Decimal) -> int {
    mul_div(a.atomics as int, b.atomics as int, DECIMAL_FRACTIONAL as int)
}

impl Decimal {
    /// The decimal representing exactly one whole unit.
    pub fn one() -> (r: Decimal)
        ensures
            r.atomics == DECIMAL_FRACTIONAL,
    {
        Decimal { atomics: DECIMAL_FRACTIONAL }
    }

    /// Strict order on decimals; same scale, so the atomics decide.
    pub fn lt(&self, other: &Decimal) -> (r: bool)
        ensures
            r == (self.atomics < other.atomics),
    {
        self.atomics < other.atomics
    }

    /// `amount * self`, floored: how many whole target units the rate yields.
    pub fn mul_amount(&self, amount: u128) -> (r: u128)
        requires
            spec_mul_amount(*self, amount) <= u128::MAX,
        ensures
            r == spec_mul_amount(*self, amount),
    {
        multiply_ratio(amount, self.atomics, DECIMAL_FRACTIONAL)
    }
}

/// `numerator / rate`, floored: how many source units the rate prices into
/// `numerator` target units.
pub fn decimal_division(numerator: u128, rate: &Decimal) -> (r: u128)
    requires
        rate.atomics != 0,
        spec_decimal_division(numerator, *rate) <= u128::MAX,
    ensures
        r == spec_decimal_division(numerator, *rate),
{
    multiply_ratio(numerator, DECIMAL_FRACTIONAL, rate.atomics)
}

/// The quotient `a / b` of two decimals, floored at the atomic scale.
pub fn decimal_ratio(a: &Decimal, b: &Decimal) -> (r: Decimal)
    requires
        b.atomics != 0,
        spec_decimal_ratio(*a, *b) <= u128::MAX,
    ensures
        r.atomics == spec_decimal_ratio(*a, *b),
{
    Decimal { atomics: multiply_ratio(a.atomics, DECIMAL_FRACTIONAL, b.atomics) }
}

/// The product `a * b` of two decimals, floored at the atomic scale.
pub fn decimal_multiplication(a: &Decimal, b: &Decimal) -> (r: Decimal)
    requires
        spec_decimal_multiplication(*a, *b) <= u128::MAX,
    ensures
        r.atomics == spec_decimal_multiplication(*a, *b),
{
    Decimal { atomics: multiply_ratio(a.atomics, b.atomics, DECIMAL_FRACTIONAL) }
}

} // verus!
