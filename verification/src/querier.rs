use crate::anchor::{aust_to_ust, calc_aust_to_ust};
use crate::bignumber::checked_add;
use crate::error::{answers_as, Refusal};
use crate::host::{Env, MessageInfo, Querier};
use cosmwasm_std::StdError;
use vstd::prelude::*;

verus! {

/// A balance is asked for in a native denomination or in a token, named by
/// its contract.
#[derive(Clone, Debug, PartialEq)]
pub enum Denom {
    Native(String),
    Cw20(String),
}

/// A question about a balance.
#[derive(Clone, Debug, PartialEq)]
pub enum BalanceQuery {
    /// To the ledger: the balance of `address` in the native denomination
    /// `denom`.
    Bank { address: String, denom: String },
    /// To the token contract `contract_addr`: the balance that it keeps for
    /// `address`.
    Cw20 { contract_addr: String, address: String },
}

/// The question to the money market `contract_addr` for its epoch state as of
/// `block_height`; the answer holds the exchange rate.
#[derive(Clone, Debug, PartialEq)]
pub struct EpochStateQuery {
    pub contract_addr: String,
    pub block_height: Option<u64>,
}

/// The stable units attached to a message: the amount of its only coin, if
/// that coin is in `uusd`, and zero otherwise.
pub open spec fn deposit_uusd_amount(info: MessageInfo) -> u128 {
    if info.funds@.len() == 1 && info.funds@[0].denom@ == "uusd"@ {
        info.funds@[0].amount
    } else {
        0
    }
}

/// Reads the stable units attached to a message.
pub fn get_deposit_uusd_amount(info: &MessageInfo) -> (amount: u128)
    ensures
        amount == deposit_uusd_amount(*info),
{
    if info.funds.len() == 1 {
        let token = &info.funds[0];
        let uusd = "uusd".to_owned();
        if token.denom != uusd {
            return 0;
        }
        token.amount
    } else {
        0
    }
}

/// The question whose answer holds the market's exchange rate at the current
/// block: the rate is asked anew for every operation.
pub fn query_aust_exchange_rate(env: &Env, anchor_money_market_addr: &String) -> (query:
    EpochStateQuery)
    ensures
        query == (EpochStateQuery {
            contract_addr: *anchor_money_market_addr,
            block_height: Some(env.block_height),
        }),
{
    EpochStateQuery {
        contract_addr: anchor_money_market_addr.clone(),
        block_height: Some(env.block_height),
    }
}

/// The question whose answer is the balance of `address` in `denom`: to the
/// ledger for a native denomination, to the token's contract for a token.
pub fn query_balance(address: &String, denom: Denom) -> (query: BalanceQuery)
    ensures
        query == match denom {
            Denom::Native(name) => BalanceQuery::Bank { address: *address, denom: name },
            Denom::Cw20(contract_addr) => BalanceQuery::Cw20 { contract_addr, address: *address },
        },
{
    match denom {
        Denom::Native(name) => BalanceQuery::Bank { address: address.clone(), denom: name },
        Denom::Cw20(contract_addr) => BalanceQuery::Cw20 {
            contract_addr,
            address: address.clone(),
        },
    }
}

/// The question whose answer is the balance of `address` in stable units.
pub fn query_uusd_balance(address: &String) -> (query: BalanceQuery)
    ensures
        query matches BalanceQuery::Bank { address: holder, denom } && holder == *address
            && denom@ == "uusd"@,
{
    query_balance(address, Denom::Native("uusd".to_owned()))
}

/// The vault's total value: its stable balance and the worth of its receipt
/// balance. The three answers are read in the order stable balance, receipt
/// balance, rate, and the first that is missing ends the computation.
pub open spec fn vault_tvl(querier: Querier) -> Result<u128, Refusal> {
    match (querier.uusd_balance, querier.aust_balance, querier.exchange_rate) {
        (Err(e), _, _) => Err(Refusal::Host(e)),
        (Ok(_), Err(e), _) => Err(Refusal::Host(e)),
        (Ok(_), Ok(_), Err(e)) => Err(Refusal::Host(e)),
        (Ok(ust_balance), Ok(aust_balance), Ok(rate)) => {
            let aust_equity: nat = aust_to_ust(aust_balance as nat, rate.atomics());
            if ust_balance + aust_equity <= u128::MAX {
                Ok((ust_balance + aust_equity) as u128)
            } else {
                Err(Refusal::Overflow)
            }
        },
    }
}

/// Computes the vault's total value from the answers to its queries.
pub fn query_vault_tvl(querier: Querier) -> (r: Result<u128, StdError>)
    ensures
        answers_as(r, vault_tvl(querier)),
{
    let ust_balance: u128 = match querier.uusd_balance {
        Ok(balance) => balance,
        Err(e) => { return Err(e); },
    };
    let aust_balance: u128 = match querier.aust_balance {
        Ok(balance) => balance,
        Err(e) => { return Err(e); },
    };
    let rate = match querier.exchange_rate {
        Ok(rate) => rate,
        Err(e) => { return Err(e); },
    };
    let aust_equity: u128 = match calc_aust_to_ust(aust_balance, &rate) {
        Ok(equity) => equity,
        Err(e) => { return Err(e); },
    };
    checked_add(ust_balance, aust_equity)
}

} // verus!
