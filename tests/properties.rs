use automatic_savings::contract::{
    check_owner, execute, execute_flush, execute_transfer, instantiate, query, split_amount,
    MAIN_ADDRESS,
};
use automatic_savings::error::ContractError;
use automatic_savings::msg::{Coin, ExecuteMsg, InstantiateMsg, MessageInfo, QueryMsg};
use automatic_savings::response::{Attribute, BankSend};
use automatic_savings::state::State;

fn coin(amount: u128, denom: &str) -> Coin {
    Coin { denom: denom.to_string(), amount }
}

fn info(sender: &str) -> MessageInfo {
    MessageInfo { sender: sender.to_string(), funds: vec![] }
}

fn state() -> State {
    instantiate(info("anyone"), InstantiateMsg { savings_rate: 15 }).0
}

#[test]
fn transfer_by_stranger_is_unauthorized_for_any_amount() {
    let mut st = state();
    for amount in [0u128, 1, 8500, u128::MAX] {
        let err = execute_transfer(&mut st, info("intruder"), coin(amount, "UST"), 50).unwrap_err();
        assert_eq!(err, ContractError::Unauthorized {});
    }
    assert_eq!(st, state());
}

#[test]
fn flush_by_stranger_is_unauthorized_even_with_funds() {
    let mut st = state();
    let err = execute_flush(&mut st, info("intruder"), vec![coin(5, "ETH")]).unwrap_err();
    assert_eq!(err, ContractError::Unauthorized {});
    assert_eq!(st, state());
}

#[test]
fn invalid_rates_are_refused_for_the_owner() {
    let mut st = state();
    for rate in [0u8, 101, 200, 255] {
        let err = execute_transfer(&mut st, info(MAIN_ADDRESS), coin(100, "UST"), rate).unwrap_err();
        assert_eq!(err, ContractError::InvalidSavingsRate {});
    }
}

#[test]
fn rate_is_checked_before_the_caller() {
    let mut st = state();
    let err = execute_transfer(&mut st, info("intruder"), coin(100, "UST"), 0).unwrap_err();
    assert_eq!(err, ContractError::InvalidSavingsRate {});
}

#[test]
fn split_matches_formula() {
    assert_eq!(split_amount(8500, 15), 7225);
    assert_eq!(split_amount(1, 15), 0);
    assert_eq!(split_amount(99, 1), 98);
    assert_eq!(split_amount(1000, 100), 0);
    assert_eq!(split_amount(1000, 1), 990);
    // floor(85 * (2^128 - 1) / 100), computed without overflow
    let expected = (u128::MAX / 100) * 85 + (u128::MAX % 100) * 85 / 100;
    assert_eq!(split_amount(u128::MAX, 15), expected);
}

#[test]
fn transfer_forwards_the_unsaved_part_in_the_same_denomination() {
    let mut st = state();
    let res = execute_transfer(&mut st, info(MAIN_ADDRESS), coin(8500, "UST"), 15).unwrap();
    assert_eq!(
        res.messages,
        vec![BankSend { to_address: MAIN_ADDRESS.to_string(), amount: vec![coin(7225, "UST")] }]
    );
    assert_eq!(
        res.attributes,
        vec![Attribute { key: "action".to_string(), value: "transfer".to_string() }]
    );
}

#[test]
fn transfer_that_rounds_to_zero_still_sends() {
    let mut st = state();
    let res = execute_transfer(&mut st, info(MAIN_ADDRESS), coin(1, "BTC"), 15).unwrap();
    assert_eq!(res.messages[0].amount, vec![coin(0, "BTC")]);
}

#[test]
fn empty_transfer_is_refused_for_every_valid_rate() {
    let mut st = state();
    for rate in 1u8..=100 {
        let err = execute_transfer(&mut st, info(MAIN_ADDRESS), coin(0, "BTC"), rate).unwrap_err();
        assert_eq!(err, ContractError::EmptyTransfer {});
    }
}

#[test]
fn flush_sends_the_whole_balance_unchanged() {
    let mut st = state();
    let balance = vec![coin(2000, "ETH"), coin(3, "ATOM")];
    let res = execute_flush(&mut st, info(MAIN_ADDRESS), balance.clone()).unwrap();
    assert_eq!(
        res.messages,
        vec![BankSend { to_address: MAIN_ADDRESS.to_string(), amount: balance }]
    );
    assert_eq!(res.attributes[0].value, "flush");
    assert_eq!(st, state());
}

#[test]
fn flush_of_empty_balance_is_refused() {
    let mut st = state();
    let err = execute_flush(&mut st, info(MAIN_ADDRESS), vec![]).unwrap_err();
    assert_eq!(err, ContractError::EmptyBalance {});
}

#[test]
fn instantiate_accepts_any_rate_and_any_caller() {
    for rate in [0u8, 1, 100, 101, 255] {
        let (st, res) = instantiate(
            MessageInfo { sender: "someone-else".to_string(), funds: vec![coin(7, "BTC")] },
            InstantiateMsg { savings_rate: rate },
        );
        assert_eq!(st.owner, MAIN_ADDRESS);
        assert_eq!(st.savings_rate, rate);
        assert_eq!(st.amount_received, vec![coin(7, "BTC")]);
        assert!(res.messages.is_empty());
    }
}

#[test]
fn failures_leave_the_state_unchanged() {
    let mut st = state();
    let before = st.clone();
    let _ = execute(&mut st, info(MAIN_ADDRESS), ExecuteMsg::Transfer {
        received_funds: coin(10, "UST"),
        savings_rate: 0,
    }, vec![]);
    let _ = execute(&mut st, info("intruder"), ExecuteMsg::Flush {}, vec![coin(1, "UST")]);
    let _ = execute(&mut st, info(MAIN_ADDRESS), ExecuteMsg::Flush {}, vec![]);
    assert_eq!(st, before);
}

#[test]
fn check_owner_accepts_only_the_owner() {
    assert_eq!(check_owner(&MAIN_ADDRESS.to_string()), Ok(()));
    assert_eq!(check_owner(&"anyone".to_string()), Err(ContractError::Unauthorized {}));
}

#[test]
fn query_returns_the_balance() {
    let balance = vec![coin(2000, "ETH")];
    assert_eq!(query(QueryMsg::GetBalance {}, balance.clone()).balance, balance);
}
