use vstd::prelude::*;

verus! {

/// The pair's control record, created once at instantiation.
///
/// The two token addresses are distinct whenever `well_formed` holds;
/// `init_config` establishes it and nothing afterwards changes them.
#[derive(Clone, Debug)]
pub struct Config {
    /// Block time of the last cumulative-price observation.
    pub block_time_last: u64,
    /// Cumulative price of the rewards token, in bonded-token units.
    pub price0_cumulative_last: u128,
    /// Cumulative price of the bonded token, in rewards-token units.
    pub price1_cumulative_last: u128,
    /// The staking hub that performs every conversion.
    pub hub_addr: String,
    /// The rewards-bearing token.
    pub stluna_addr: String,
    /// The bonded token.
    pub bluna_addr: String,
    /// The account that instantiated the pair.
    pub owner: String,
}

impl Config {
    /// The invariant of a config: the two registered tokens differ.
    pub open spec fn well_formed(self) -> bool {
        self.stluna_addr@ != self.bluna_addr@
    }
}

/// A swap waiting for its conversion callback: who receives the proceeds,
/// and which of the two tokens they arrive in. One slot per contract, so at
/// most one swap may be in flight at a time.
#[derive(Clone, Debug)]
pub struct SwapRequest {
    pub recipient: String,
    pub ask_addr: String,
}

/// What a config query reports.
#[derive(Clone, Debug)]
pub struct ConfigResponse {
    pub hub_address: String,
    pub stluna_address: String,
    pub bluna_address: String,
    pub owner: String,
    pub block_time_last: u64,
}

} // verus!
