use vstd::prelude::*;

verus! {

#[derive(Clone, Debug, PartialEq, Eq)]
pub enum ContractError {
    /// A failure of the surrounding runtime (storage, balance query, address
    /// validation), carried as its message.
    Std(String),
    Unauthorized {},
    InvalidSavingsRate {},
    EmptyBalance {},
    EmptyTransfer {},
}

} // verus!
