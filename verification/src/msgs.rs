use vstd::prelude::*;

verus! {

/// The settings a new pair is created with: the two token addresses and
/// the hub that converts between them.
#[derive(Clone, Debug)]
pub struct InstantiateMsg {
    pub stluna_address: String,
    pub bluna_address: String,
    pub hub_address: String,
}

} // verus!
