use crate::state::FlashloanContext;
use vstd::prelude::*;

verus! {

#[derive(Clone, Debug, PartialEq)]
pub struct InstantiateMsg {
    pub anchor_money_market_addr: String,
    pub aust_addr: String,
    pub minimum_ust_reserved: u128,
}

#[derive(Clone, Debug, PartialEq)]
pub enum ExecuteMsg {
    /// The owner adds the stable units attached to the message.
    Deposit {},
    /// The owner takes `amount` stable units out.
    Redeem { amount: u128 },
    /// The vault moves its stable balance to `reserved_target`.
    Rebalance { reserved_target: u128 },
    /// The caller borrows stable units for the length of one callback.
    Flashloan { execution: FlashloadExecution },
    /// The vault checks that a flash loan has been repaid.
    RepayAssertion { context: FlashloanContext },
}

/// A flash loan request: the amount, and the message that the borrower's
/// contract receives together with it.
#[derive(Clone, Debug, PartialEq)]
pub struct FlashloadExecution {
    /// Never used as the callback's address: the callback goes to the caller.
    pub contract_addr: Option<String>,
    pub msg: Vec<u8>,
    pub amount: u128,
}

#[derive(Clone, Copy, Debug, PartialEq, Eq)]
pub enum QueryMsg {
    TotalValueLocked {},
}

#[derive(Clone, Copy, Debug, PartialEq, Eq)]
pub struct TotalValueLockedResponse {
    pub tvl: u128,
}

} // verus!
