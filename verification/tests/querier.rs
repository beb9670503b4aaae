use cosmwasm_std::StdError;
use stable_vault::anchor::ExchangeRate;
use stable_vault::decimal::{Decimal, DECIMAL_FRACTIONAL};
use stable_vault::host::{Coin, Env, MessageInfo, Querier};
use stable_vault::querier::{
    get_deposit_uusd_amount, query_aust_exchange_rate, query_balance, query_uusd_balance,
    query_vault_tvl, BalanceQuery, Denom, EpochStateQuery,
};

fn info_with(funds: Vec<Coin>) -> MessageInfo {
    MessageInfo { sender: "owner".to_string(), funds }
}

fn coin(amount: u128, denom: &str) -> Coin {
    Coin { denom: denom.to_string(), amount }
}

fn answers(ust: u128, aust: u128, rate_atomics: u128) -> Querier {
    Querier {
        uusd_balance: Ok(ust),
        aust_balance: Ok(aust),
        exchange_rate: Ok(ExchangeRate::new(Decimal::from_atomics(rate_atomics)).unwrap()),
    }
}

#[test]
fn deposit_amount_of_single_uusd_coin() {
    assert_eq!(get_deposit_uusd_amount(&info_with(vec![coin(250, "uusd")])), 250);
    assert_eq!(get_deposit_uusd_amount(&info_with(vec![coin(0, "uusd")])), 0);
}

#[test]
fn deposit_amount_is_zero_for_other_denom() {
    assert_eq!(get_deposit_uusd_amount(&info_with(vec![coin(250, "uluna")])), 0);
    assert_eq!(get_deposit_uusd_amount(&info_with(vec![coin(250, "UUSD")])), 0);
    assert_eq!(get_deposit_uusd_amount(&info_with(vec![coin(250, "uusd ")])), 0);
}

#[test]
fn deposit_amount_is_zero_without_exactly_one_coin() {
    assert_eq!(get_deposit_uusd_amount(&info_with(vec![])), 0);
    assert_eq!(
        get_deposit_uusd_amount(&info_with(vec![coin(1, "uusd"), coin(2, "uusd")])),
        0
    );
    assert_eq!(
        get_deposit_uusd_amount(&info_with(vec![coin(1, "uusd"), coin(2, "uluna")])),
        0
    );
}

#[test]
fn exchange_rate_is_asked_at_current_block() {
    let env = Env { block_height: 4242, contract_address: "vault".to_string() };
    assert_eq!(
        query_aust_exchange_rate(&env, &"market".to_string()),
        EpochStateQuery { contract_addr: "market".to_string(), block_height: Some(4242) }
    );
}

#[test]
fn balance_is_asked_by_denom() {
    assert_eq!(
        query_balance(&"vault".to_string(), Denom::Native("uluna".to_string())),
        BalanceQuery::Bank { address: "vault".to_string(), denom: "uluna".to_string() }
    );
    assert_eq!(
        query_balance(&"vault".to_string(), Denom::Cw20("aust".to_string())),
        BalanceQuery::Cw20 { contract_addr: "aust".to_string(), address: "vault".to_string() }
    );
}

#[test]
fn uusd_balance_is_asked_from_the_ledger() {
    assert_eq!(
        query_uusd_balance(&"vault".to_string()),
        BalanceQuery::Bank { address: "vault".to_string(), denom: "uusd".to_string() }
    );
}

#[test]
fn tvl_adds_stable_balance_and_receipt_worth() {
    // 40 + floor(50 * 1.25) = 102
    assert_eq!(query_vault_tvl(answers(40, 50, 1_250_000_000_000_000_000)), Ok(102));
    // 40 + floor(3 * 1.5) = 44
    assert_eq!(query_vault_tvl(answers(40, 3, 1_500_000_000_000_000_000)), Ok(44));
    assert_eq!(query_vault_tvl(answers(0, 0, DECIMAL_FRACTIONAL)), Ok(0));
}

#[test]
fn tvl_fails_with_the_first_missing_answer() {
    let mut q = answers(40, 50, DECIMAL_FRACTIONAL);
    q.uusd_balance = Err(StdError::generic_err("no stable balance"));
    q.aust_balance = Err(StdError::generic_err("no receipt balance"));
    q.exchange_rate = Err(StdError::generic_err("no rate"));
    assert_eq!(query_vault_tvl(q), Err(StdError::generic_err("no stable balance")));

    let mut q = answers(40, 50, DECIMAL_FRACTIONAL);
    q.aust_balance = Err(StdError::generic_err("no receipt balance"));
    q.exchange_rate = Err(StdError::generic_err("no rate"));
    assert_eq!(query_vault_tvl(q), Err(StdError::generic_err("no receipt balance")));

    let mut q = answers(40, 50, DECIMAL_FRACTIONAL);
    q.exchange_rate = Err(StdError::generic_err("no rate"));
    assert_eq!(query_vault_tvl(q), Err(StdError::generic_err("no rate")));
}

#[test]
fn tvl_fails_on_overflow() {
    // the worth of the receipts alone leaves 128 bits
    assert!(query_vault_tvl(answers(0, u128::MAX, 2_000_000_000_000_000_000)).is_err());
    // the sum leaves 128 bits
    assert!(query_vault_tvl(answers(1, u128::MAX, DECIMAL_FRACTIONAL)).is_err());
    assert_eq!(query_vault_tvl(answers(0, u128::MAX, DECIMAL_FRACTIONAL)), Ok(u128::MAX));
}
