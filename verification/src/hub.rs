use crate::math::Decimal;
use vstd::prelude::*;

verus! {

/// The slice of the staking hub's state that pricing reads: both exchange
/// rates and how much bonded token the hub considers committed.
#[derive(Clone, Copy, Debug)]
pub struct HubState {
    /// Underlying units per rewards-token unit.
    pub stluna_exchange_rate: Decimal,
    /// Underlying units per bonded-token unit.
    pub bluna_exchange_rate: Decimal,
    /// Bonded amount the hub has committed against its supply.
    pub total_bond_bluna_amount: u128,
}

/// The hub's peg parameters.
#[derive(Clone, Copy, Debug)]
pub struct Parameters {
    /// Below this bonded exchange rate the peg-recovery fee applies.
    pub er_threshold: Decimal,
    /// Fee rate charged on the bonded leg while recovering the peg.
    pub peg_recovery_fee: Decimal,
}

/// The hub's current unbonding batch.
#[derive(Clone, Copy, Debug)]
pub struct CurrentBatch {
    /// Bonded amount already requested in this batch, fee included.
    pub requested_bluna_with_fee: u128,
}

/// Peg-recovery mode is active while the bonded exchange rate sits below
/// the threshold.
pub open spec fn peg_active(state: HubState, params: Parameters) -> bool {
    state.bluna_exchange_rate.atomics < params.er_threshold.atomics
}

} // verus!
