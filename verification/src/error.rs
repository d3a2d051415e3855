use vstd::prelude::*;

verus! {

/// Everything that can go wrong while pricing or orchestrating a swap.
///
/// Any of these aborts the whole transaction: the host applies no partial
/// effects when an entry point returns an error.
#[derive(Clone, Copy, Debug, PartialEq, Eq, Structural)]
pub enum ContractError {
    /// A direct swap call, or an inbound transfer from an unregistered token.
    Unauthorized,
    /// Liquidity operations and config updates, which this pair does not offer.
    NonSupported,
    /// An offer or ask asset that is not one of the two registered tokens.
    InvalidAsset,
    /// A peg-fee subtraction that would go below zero.
    ArithmeticUnderflow,
    /// A conversion callback without a readable returned amount.
    CallbackDataMissing,
    /// A failed read from the hub or a token contract, or a failed sub-call.
    QueryFailure,
}

} // verus!
