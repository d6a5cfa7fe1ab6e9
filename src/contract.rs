use vstd::prelude::*;

use crate::error::ContractError;
use crate::msg::{BalanceResponse, Coin, ExecuteMsg, InstantiateMsg, MessageInfo, QueryMsg};
use crate::response::{action_only, send_with_action, single_send_to, tags_action, Response};
use crate::state::State;

verus! {

/// The one identity allowed to transfer and flush, and the recipient of every
/// payment the contract makes.
pub const MAIN_ADDRESS: &'static str = "wasm1pze5wsf0dg0fa4ysnttugn0m22ssf3t4a9yz3h";

/// The designated owner's address.
pub open spec fn owner_address() -> Seq<char> {
    MAIN_ADDRESS@
}

pub open spec fn is_owner(sender: Seq<char>) -> bool {
    sender == owner_address()
}

/// A savings rate is a percentage from 1 to 100.
pub open spec fn valid_rate(rate: u8) -> bool {
    1 <= rate <= 100
}

/// The part of `amount` that is forwarded when `rate` percent is saved:
/// `floor((100 - rate) * amount / 100)`.
pub open spec fn forward_amount(amount: u128, rate: u8) -> int {
    ((100 - rate) * amount) / 100
}

/// The response of a successful transfer of `funds`: one payment to the
/// owner of the forwarded part, in the same denomination.
pub open spec fn is_transfer_response(r: Response, funds: Coin, rate: u8) -> bool {
    &&& single_send_to(r, owner_address())
    &&& r.messages@[0].amount@.len() == 1
    &&& r.messages@[0].amount@[0].denom@ == funds.denom@
    &&& r.messages@[0].amount@[0].amount == forward_amount(funds.amount, rate)
    &&& tags_action(r, "transfer"@)
}

/// The response of a successful flush of `balance`: one payment to the owner
/// of the whole balance, unchanged.
pub open spec fn is_flush_response(r: Response, balance: Vec<Coin>) -> bool {
    &&& single_send_to(r, owner_address())
    &&& r.messages@[0].amount == balance
    &&& tags_action(r, "flush"@)
}

/// What a transfer of `funds` at `rate` requested by `sender` returns. The
/// checks come in order: the rate, then the caller, then the amount.
pub open spec fn transfer_outcome(
    sender: Seq<char>,
    funds: Coin,
    rate: u8,
    r: Result<Response, ContractError>,
) -> bool {
    if !valid_rate(rate) {
        r == Err::<Response, ContractError>(ContractError::InvalidSavingsRate {})
    } else if !is_owner(sender) {
        r == Err::<Response, ContractError>(ContractError::Unauthorized {})
    } else if funds.amount == 0 {
        r == Err::<Response, ContractError>(ContractError::EmptyTransfer {})
    } else {
        r is Ok && is_transfer_response(r->Ok_0, funds, rate)
    }
}

/// What a flush of `balance` requested by `sender` returns: the caller is
/// checked first, then that the balance is not empty.
pub open spec fn flush_outcome(
    sender: Seq<char>,
    balance: Vec<Coin>,
    r: Result<Response, ContractError>,
) -> bool {
    if !is_owner(sender) {
        r == Err::<Response, ContractError>(ContractError::Unauthorized {})
    } else if balance@.len() == 0 {
        r == Err::<Response, ContractError>(ContractError::EmptyBalance {})
    } else {
        r is Ok && is_flush_response(r->Ok_0, balance)
    }
}

/// What `execute` returns for `msg`.
pub open spec fn execute_outcome(
    sender: Seq<char>,
    msg: ExecuteMsg,
    balance: Vec<Coin>,
    r: Result<Response, ContractError>,
) -> bool {
    match msg {
        ExecuteMsg::Transfer { received_funds, savings_rate } => transfer_outcome(
            sender,
            received_funds,
            savings_rate,
            r,
        ),
        ExecuteMsg::Flush {} => flush_outcome(sender, balance, r),
    }
}

/// `floor((100 - rate) * amount / 100)`, computed without overflow for every
/// `amount`: with `amount = 100 q + m` it is `(100 - rate) q + floor((100 - rate) m / 100)`.
pub fn split_amount(amount: u128, rate: u8) -> (r: u128)
    requires
        valid_rate(rate),
    ensures
        r == forward_amount(amount, rate),
        r <= amount,
{
    let kept: u128 = (100 - rate) as u128;
    let q: u128 = amount / 100;
    let m: u128 = amount % 100;
    proof {
        assert(kept * q <= 100 * q) by (nonlinear_arith)
            requires
                kept <= 100,
        ;
        assert(kept * m < 10000) by (nonlinear_arith)
            requires
                kept <= 100,
                m < 100,
        ;
        assert(kept * amount == 100 * (kept * q) + kept * m) by (nonlinear_arith)
            requires
                amount == 100 * q + m,
        ;
        assert((100 * (kept * q) + kept * m) / 100 == kept * q + (kept * m) / 100) by (nonlinear_arith)
            requires
                kept * q >= 0,
                kept * m >= 0,
        ;
        assert(kept * q + (kept * m) / 100 <= amount) by (nonlinear_arith)
            requires
                amount == 100 * q + m,
                kept <= 100,
                m < 100,
        ;
    }
    kept * q + (kept * m) / 100
}

/// Fails with `Unauthorized` unless `sender` is the designated owner.
pub fn check_owner(sender: &String) -> (r: Result<(), ContractError>)
    ensures
        is_owner(sender@) <==> r is Ok,
        !is_owner(sender@) ==> r == Err::<(), ContractError>(ContractError::Unauthorized {}),
{
    if *sender != MAIN_ADDRESS.to_owned() {
        return Err(ContractError::Unauthorized {});
    }
    Ok(())
}

/// Splits `received_funds`: `savings_rate` percent stays with the contract,
/// the rest, rounded down, is paid to the owner. The checks come in order:
/// the rate, then the caller, then the amount. The state is never changed.
pub fn execute_transfer(
    state: &mut State,
    info: MessageInfo,
    received_funds: Coin,
    savings_rate: u8,
) -> (r: Result<Response, ContractError>)
    ensures
        *final(state) == *old(state),
        transfer_outcome(info.sender@, received_funds, savings_rate, r),
{
    if savings_rate > 100 || savings_rate == 0 {
        return Err(ContractError::InvalidSavingsRate {});
    }
    check_owner(&info.sender)?;
    if received_funds.amount == 0 {
        return Err(ContractError::EmptyTransfer {});
    }
    let send_amount = split_amount(received_funds.amount, savings_rate);
    let send = vec![Coin { denom: received_funds.denom, amount: send_amount }];
    Ok(send_with_action(MAIN_ADDRESS.to_owned(), send, "transfer"))
}

/// Pays the contract's whole `balance`, as the ledger reports it, to the
/// owner. Only the owner may flush, and an empty balance is refused. The
/// state is never changed.
pub fn execute_flush(state: &mut State, info: MessageInfo, balance: Vec<Coin>) -> (r: Result<
    Response,
    ContractError,
>)
    ensures
        *final(state) == *old(state),
        flush_outcome(info.sender@, balance, r),
{
    check_owner(&info.sender)?;
    if balance.len() == 0 {
        return Err(ContractError::EmptyBalance {});
    }
    Ok(send_with_action(MAIN_ADDRESS.to_owned(), balance, "flush"))
}

/// Runs one operation. `balance` is the contract's balance, which only a
/// flush reads. The state is never changed.
pub fn execute(state: &mut State, info: MessageInfo, msg: ExecuteMsg, balance: Vec<Coin>) -> (r:
    Result<Response, ContractError>)
    ensures
        *final(state) == *old(state),
        execute_outcome(info.sender@, msg, balance, r),
{
    match msg {
        ExecuteMsg::Transfer { received_funds, savings_rate } => execute_transfer(
            state,
            info,
            received_funds,
            savings_rate,
        ),
        ExecuteMsg::Flush {} => execute_flush(state, info, balance),
    }
}

/// Creates the configuration record. Any caller may instantiate, and the rate
/// is taken as given: it is checked when a transfer uses one. The owner is
/// always the designated address, whoever the caller is.
pub fn instantiate(info: MessageInfo, msg: InstantiateMsg) -> (r: (State, Response))
    ensures
        r.0.owner@ == owner_address(),
        r.0.amount_received == info.funds,
        r.0.savings_rate == msg.savings_rate,
        r.1.messages@.len() == 0,
        tags_action(r.1, "instantiate"@),
{
    let state = State {
        owner: MAIN_ADDRESS.to_owned(),
        amount_received: info.funds,
        savings_rate: msg.savings_rate,
    };
    (state, action_only("instantiate"))
}

/// Answers a query. `balance` is the contract's balance as the ledger reports it.
pub fn query(msg: QueryMsg, balance: Vec<Coin>) -> (r: BalanceResponse)
    ensures
        r.balance == balance,
{
    match msg {
        QueryMsg::GetBalance {} => query_balance(balance),
    }
}

fn query_balance(balance: Vec<Coin>) -> (r: BalanceResponse)
    ensures
        r.balance == balance,
{
    BalanceResponse { balance }
}

} // verus!
