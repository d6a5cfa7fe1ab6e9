use vstd::prelude::*;

use crate::contract::{execute_outcome, forward_amount, is_owner, valid_rate};
use crate::error::ContractError;
use crate::msg::{Coin, ExecuteMsg};
use crate::response::Response;

verus! {

/// A caller other than the owner is refused with `Unauthorized` by both
/// transfer and flush, whatever the funds or the balance, and so gets no
/// payment. A transfer checks its rate first: an invalid rate is reported as
/// such to every caller, so the law speaks of transfers with a valid rate.
pub proof fn lemma_stranger_is_unauthorized(
    sender: Seq<char>,
    msg: ExecuteMsg,
    balance: Vec<Coin>,
    r: Result<Response, ContractError>,
)
    requires
        !is_owner(sender),
        match msg {
            ExecuteMsg::Transfer { savings_rate, .. } => valid_rate(savings_rate),
            ExecuteMsg::Flush {} => true,
        },
        execute_outcome(sender, msg, balance, r),
    ensures
        r == Err::<Response, ContractError>(ContractError::Unauthorized {}),
{
}

/// The forwarded part of a payment is never more than the payment itself.
pub proof fn lemma_forward_within_received(amount: u128, rate: u8)
    requires
        valid_rate(rate),
    ensures
        0 <= forward_amount(amount, rate) <= amount,
{
    assert(0 <= (100 - rate) * amount <= 100 * amount) by (nonlinear_arith)
        requires
            1 <= rate <= 100,
    ;
}

} // verus!
