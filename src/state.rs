use vstd::prelude::*;

use crate::msg::Coin;

verus! {

/// The contract's single configuration record.
#[derive(Clone, Debug, PartialEq, Eq)]
pub struct State {
    pub owner: String,
    /// The funds attached to the instantiating request; kept as a record only.
    pub amount_received: Vec<Coin>,
    pub savings_rate: u8,
}

} // verus!
