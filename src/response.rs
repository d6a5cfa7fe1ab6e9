use vstd::prelude::*;

use crate::msg::Coin;

verus! {

/// An instruction to the ledger: pay `amount` to `to_address`.
#[derive(Clone, Debug, PartialEq, Eq)]
pub struct BankSend {
    pub to_address: String,
    pub amount: Vec<Coin>,
}

/// A key-value tag attached to a response for observers.
#[derive(Clone, Debug, PartialEq, Eq)]
pub struct Attribute {
    pub key: String,
    pub value: String,
}

/// What a successful operation hands to the runtime.
#[derive(Clone, Debug, PartialEq, Eq)]
pub struct Response {
    pub messages: Vec<BankSend>,
    pub attributes: Vec<Attribute>,
}

/// The response carries exactly the one tag `action = name`.
pub open spec fn tags_action(r: Response, name: Seq<char>) -> bool {
    &&& r.attributes@.len() == 1
    &&& r.attributes@[0].key@ == "action"@
    &&& r.attributes@[0].value@ == name
}

/// The response carries exactly one instruction, paying `to`.
pub open spec fn single_send_to(r: Response, to: Seq<char>) -> bool {
    &&& r.messages@.len() == 1
    &&& r.messages@[0].to_address@ == to
}

/// A response that only tags `action = name`, with no instruction.
pub fn action_only(name: &str) -> (r: Response)
    ensures
        r.messages@.len() == 0,
        tags_action(r, name@),
{
    Response { messages: Vec::new(), attributes: vec![action_tag(name)] }
}

/// A response that pays `amount` to `to` and tags `action = name`.
pub fn send_with_action(to: String, amount: Vec<Coin>, name: &str) -> (r: Response)
    ensures
        single_send_to(r, to@),
        r.messages@[0].amount == amount,
        tags_action(r, name@),
{
    Response {
        messages: vec![BankSend { to_address: to, amount }],
        attributes: vec![action_tag(name)],
    }
}

fn action_tag(name: &str) -> (a: Attribute)
    ensures
        a.key@ == "action"@,
        a.value@ == name@,
{
    Attribute { key: "action".to_owned(), value: name.to_owned() }
}

} // verus!
