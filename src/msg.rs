use vstd::prelude::*;

verus! {

/// An amount of one denomination.
#[derive(Clone, Debug, PartialEq, Eq)]
pub struct Coin {
    pub denom: String,
    pub amount: u128,
}

/// The identity of the caller, already authenticated, and the funds attached
/// to its request.
#[derive(Clone, Debug, PartialEq, Eq)]
pub struct MessageInfo {
    pub sender: String,
    pub funds: Vec<Coin>,
}

#[derive(Clone, Debug, PartialEq, Eq)]
pub struct InstantiateMsg {
    pub savings_rate: u8,
}

#[derive(Clone, Debug, PartialEq, Eq)]
pub enum ExecuteMsg {
    /// Split the given funds: forward the part that is not saved to the owner.
    Transfer { received_funds: Coin, savings_rate: u8 },
    /// Send the contract's whole balance to the owner.
    Flush {},
}

#[derive(Clone, Debug, PartialEq, Eq)]
pub enum QueryMsg {
    /// The contract's balance.
    GetBalance {},
}

#[derive(Clone, Debug, PartialEq, Eq)]
pub struct BalanceResponse {
    pub balance: Vec<Coin>,
}

} // verus!
