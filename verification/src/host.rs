use crate::anchor::ExchangeRate;
use crate::msg::ExecuteMsg;
use crate::state::State;
use cosmwasm_std::StdError;
use vstd::prelude::*;

verus! {

/// An amount of one native denomination.
#[derive(Clone, Debug, PartialEq)]
pub struct Coin {
    pub denom: String,
    pub amount: u128,
}

/// Who sent the message, and the funds that came with it.
#[derive(Clone, Debug, PartialEq)]
pub struct MessageInfo {
    pub sender: String,
    pub funds: Vec<Coin>,
}

/// Where and when the operation runs.
#[derive(Clone, Debug, PartialEq)]
pub struct Env {
    pub block_height: u64,
    /// The vault's own address.
    pub contract_address: String,
}

/// The answers of the ledger and the money market at the current block, each
/// either a value or the failure of its query.
#[derive(Debug, PartialEq)]
pub struct Querier {
    /// The vault's balance of stable units.
    pub uusd_balance: Result<u128, StdError>,
    /// The vault's balance of receipt units.
    pub aust_balance: Result<u128, StdError>,
    /// The money market's exchange rate.
    pub exchange_rate: Result<ExchangeRate, StdError>,
}

/// What the host provides to one operation: the stored configuration, or the
/// failure to load it, and the answers to the vault's queries.
#[derive(Debug, PartialEq)]
pub struct Deps {
    pub storage: Result<State, StdError>,
    pub querier: Querier,
}

/// One instruction for the host, which runs an operation's instructions in
/// order and reverts them all if one fails.
#[derive(Clone, Debug, PartialEq)]
pub enum Instruction {
    /// The vault calls itself, without funds.
    CallVault { contract_addr: String, msg: ExecuteMsg },
    /// `amount` stable units are deposited into the money market.
    DepositStable { contract_addr: String, amount: u128 },
    /// `amount` receipt units are sent through the receipt asset's contract
    /// to the money market, which redeems them.
    RedeemStable { contract_addr: String, market_addr: String, amount: u128 },
    /// A contract is called with `payload` as its message and `funds` stable
    /// units.
    Execute { contract_addr: String, payload: Vec<u8>, funds: u128 },
    /// `amount` stable units are paid out.
    Send { to_address: String, amount: u128 },
}

/// The instructions that an operation leaves to the host, in order.
#[derive(Clone, Debug, PartialEq)]
pub struct Response {
    pub messages: Vec<Instruction>,
}

} // verus!
