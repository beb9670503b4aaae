use vstd::prelude::*;

verus! {

/// The vault's configuration, stored once and read by every operation.
#[derive(Clone, Debug, PartialEq)]
pub struct State {
    /// The money market that takes deposits and pays out redemptions.
    pub anchor_money_market_addr: String,
    /// The token contract of the receipt asset.
    pub aust_addr: String,
    /// The only principal that may deposit and redeem.
    pub owner: String,
    /// The stable balance that a rebalance after a deposit leaves idle.
    pub minimum_ust_reserved: u128,
}

/// What a flash loan hands from the request to the check that follows the
/// borrower's callback.
#[derive(Clone, Copy, Debug, PartialEq, Eq)]
pub struct FlashloanContext {
    /// The stable units lent.
    pub loan_amount: u128,
    /// The stable balance that the vault must hold again after the callback.
    pub stable_before_exec: u128,
}

} // verus!
