use crate::anchor::{calc_ust_to_aust, ust_to_aust, ust_to_aust_fits};
use crate::bignumber::checked_add;
use crate::error::{answers_as, ContractError, Refusal};
use crate::host::{Deps, Env, Instruction, MessageInfo, Querier, Response};
use crate::msg::{
    ExecuteMsg, FlashloadExecution, InstantiateMsg, QueryMsg, TotalValueLockedResponse,
};
use crate::querier::{deposit_uusd_amount, get_deposit_uusd_amount, query_vault_tvl, vault_tvl};
use crate::state::{FlashloanContext, State};
use cosmwasm_std::StdError;
use vstd::prelude::*;

verus! {

/// Whether an operation ended as `expected`: with those instructions for the
/// host, in that order, or with an error that reports that refusal.
pub open spec fn ends_as(
    r: Result<Response, ContractError>,
    expected: Result<Seq<Instruction>, Refusal>,
) -> bool {
    match (r, expected) {
        (Ok(response), Ok(messages)) => response.messages@ == messages,
        (Err(e), Err(refusal)) => e.reports(refusal),
        _ => false,
    }
}

/// The vault's call to itself that moves its stable balance to
/// `reserved_target`.
pub open spec fn rebalance_call(env: Env, reserved_target: u128) -> Instruction {
    Instruction::CallVault {
        contract_addr: env.contract_address,
        msg: ExecuteMsg::Rebalance { reserved_target },
    }
}

/// The vault's call to itself that checks a flash loan's repayment.
pub open spec fn repay_assertion_call(env: Env, context: FlashloanContext) -> Instruction {
    Instruction::CallVault {
        contract_addr: env.contract_address,
        msg: ExecuteMsg::RepayAssertion { context },
    }
}

/// The call of the borrower's contract with the loan and the borrower's own
/// message. It goes to the sender of the request, whatever address the
/// request names.
pub open spec fn borrower_call(info: MessageInfo, execution: FlashloadExecution) -> Instruction {
    Instruction::Execute {
        contract_addr: info.sender,
        payload: execution.msg,
        funds: execution.amount,
    }
}

/// The configuration that an instantiation stores: the addresses and the
/// reserve of the message, with its sender as the owner.
pub fn instantiate(info: &MessageInfo, msg: InstantiateMsg) -> (state: State)
    ensures
        state == (State {
            anchor_money_market_addr: msg.anchor_money_market_addr,
            aust_addr: msg.aust_addr,
            owner: info.sender,
            minimum_ust_reserved: msg.minimum_ust_reserved,
        }),
{
    State {
        anchor_money_market_addr: msg.anchor_money_market_addr,
        aust_addr: msg.aust_addr,
        minimum_ust_reserved: msg.minimum_ust_reserved,
        owner: info.sender.clone(),
    }
}

/// What a rebalance emits for a shortfall that `aust_required` receipts would
/// cover: nothing if the vault holds no receipts, else one redemption of as
/// many as are both required and held.
pub open spec fn redeem_messages(state: State, aust_required: nat, aust_balance: u128) -> Seq<
    Instruction,
> {
    if aust_balance == 0 {
        seq![]
    } else {
        seq![
            Instruction::RedeemStable {
                contract_addr: state.aust_addr,
                market_addr: state.anchor_money_market_addr,
                amount: if aust_balance < aust_required {
                    aust_balance
                } else {
                    aust_required as u128
                },
            },
        ]
    }
}

/// How a rebalance ends that finds the stable balance short by
/// `redeem_ust_amount`: the rate is read, then the receipts to redeem are
/// computed, then the receipt balance is read.
pub open spec fn shortfall_outcome(state: State, querier: Querier, redeem_ust_amount: u128) -> Result<
    Seq<Instruction>,
    Refusal,
> {
    match querier.exchange_rate {
        Err(e) => Err(Refusal::Host(e)),
        Ok(rate) => {
            if !ust_to_aust_fits(redeem_ust_amount as nat, rate.atomics()) {
                Err(Refusal::Overflow)
            } else {
                match querier.aust_balance {
                    Err(e) => Err(Refusal::Host(e)),
                    Ok(aust_balance) => Ok(
                        redeem_messages(
                            state,
                            ust_to_aust(redeem_ust_amount as nat, rate.atomics()),
                            aust_balance,
                        ),
                    ),
                }
            }
        },
    }
}

/// How a rebalance to `reserved_target` ends. Only the vault may ask for it.
/// A surplus is deposited whole, a shortfall is redeemed as far as receipts
/// are held, and a balance on target is left alone.
pub open spec fn rebalance_outcome(
    deps: Deps,
    env: Env,
    info: MessageInfo,
    reserved_target: u128,
) -> Result<Seq<Instruction>, Refusal> {
    if info.sender@ != env.contract_address@ {
        Err(Refusal::Unauthorized)
    } else {
        match (deps.storage, deps.querier.uusd_balance) {
            (Err(e), _) => Err(Refusal::Host(e)),
            (Ok(_), Err(e)) => Err(Refusal::Host(e)),
            (Ok(state), Ok(ust_balance)) => {
                if ust_balance > reserved_target {
                    Ok(
                        seq![
                            Instruction::DepositStable {
                                contract_addr: state.anchor_money_market_addr,
                                amount: (ust_balance - reserved_target) as u128,
                            },
                        ],
                    )
                } else if ust_balance < reserved_target {
                    shortfall_outcome(
                        state,
                        deps.querier,
                        (reserved_target - ust_balance) as u128,
                    )
                } else {
                    Ok(seq![])
                }
            },
        }
    }
}

/// Moves the vault's stable balance towards `reserved_target`: the vault's
/// own follow-up to a deposit, a redemption and a flash loan.
pub fn try_rebalance(deps: Deps, env: Env, info: MessageInfo, reserved_target: u128) -> (r: Result<
    Response,
    ContractError,
>)
    ensures
        ends_as(r, rebalance_outcome(deps, env, info, reserved_target)),
{
    if info.sender != env.contract_address {
        return Err(ContractError::Unauthorized {  });
    }
    let state = match deps.storage {
        Ok(state) => state,
        Err(e) => { return Err(ContractError::Std(e)); },
    };
    let mut messages: Vec<Instruction> = Vec::new();
    let ust_balance: u128 = match deps.querier.uusd_balance {
        Ok(balance) => balance,
        Err(e) => { return Err(ContractError::Std(e)); },
    };
    if ust_balance > reserved_target {
        let deposit_amount: u128 = ust_balance - reserved_target;
        messages.push(
            Instruction::DepositStable {
                contract_addr: state.anchor_money_market_addr.clone(),
                amount: deposit_amount,
            },
        );
    } else if ust_balance < reserved_target {
        let redeem_ust_amount: u128 = reserved_target - ust_balance;
        let rate = match deps.querier.exchange_rate {
            Ok(rate) => rate,
            Err(e) => { return Err(ContractError::Std(e)); },
        };
        let mut aust_required: u128 = match calc_ust_to_aust(redeem_ust_amount, &rate) {
            Ok(amount) => amount,
            Err(e) => { return Err(ContractError::Std(e)); },
        };
        let aust_balance: u128 = match deps.querier.aust_balance {
            Ok(balance) => balance,
            Err(e) => { return Err(ContractError::Std(e)); },
        };
        if aust_balance < aust_required {
            aust_required = aust_balance;
        }
        if aust_balance != 0 {
            messages.push(
                Instruction::RedeemStable {
                    contract_addr: state.aust_addr.clone(),
                    market_addr: state.anchor_money_market_addr.clone(),
                    amount: aust_required,
                },
            );
        }
    }
    assert(messages@ =~= rebalance_outcome(deps, env, info, reserved_target)->Ok_0);
    Ok(Response { messages })
}

/// How a flash loan request ends. The amount must not be zero. Where the
/// stable balance does not cover it, the vault first rebalances to the
/// balance and the amount together; then come the borrower's callback and the
/// vault's own check, which carries the balance to be restored.
pub open spec fn flashloan_outcome(
    deps: Deps,
    env: Env,
    info: MessageInfo,
    execution: FlashloadExecution,
) -> Result<Seq<Instruction>, Refusal> {
    if execution.amount == 0 {
        Err(Refusal::Generic("invalid loan amount"@))
    } else {
        match deps.querier.uusd_balance {
            Err(e) => Err(Refusal::Host(e)),
            Ok(ust_balance) => {
                if ust_balance >= execution.amount {
                    Ok(
                        seq![
                            borrower_call(info, execution),
                            repay_assertion_call(
                                env,
                                FlashloanContext {
                                    loan_amount: execution.amount,
                                    stable_before_exec: ust_balance,
                                },
                            ),
                        ],
                    )
                } else if execution.amount + ust_balance > u128::MAX {
                    Err(Refusal::Overflow)
                } else {
                    let reserved_target: u128 = (execution.amount + ust_balance) as u128;
                    Ok(
                        seq![
                            rebalance_call(env, reserved_target),
                            borrower_call(info, execution),
                            repay_assertion_call(
                                env,
                                FlashloanContext {
                                    loan_amount: execution.amount,
                                    stable_before_exec: reserved_target,
                                },
                            ),
                        ],
                    )
                }
            },
        }
    }
}

/// Lends `execution.amount` stable units to the caller for the length of its
/// callback.
pub fn try_flashloan(deps: Deps, env: Env, info: MessageInfo, execution: FlashloadExecution) -> (r:
    Result<Response, ContractError>)
    ensures
        ends_as(r, flashloan_outcome(deps, env, info, execution)),
{
    if execution.amount == 0 {
        return Err(ContractError::Generic("invalid loan amount".to_owned()));
    }
    let mut messages: Vec<Instruction> = Vec::new();
    let ust_balance: u128 = match deps.querier.uusd_balance {
        Ok(balance) => balance,
        Err(e) => { return Err(ContractError::Std(e)); },
    };
    let mut reserved_target: u128 = ust_balance;
    if ust_balance < execution.amount {
        reserved_target =
        match checked_add(execution.amount, ust_balance) {
            Ok(target) => target,
            Err(e) => { return Err(ContractError::Std(e)); },
        };
        messages.push(
            Instruction::CallVault {
                contract_addr: env.contract_address.clone(),
                msg: ExecuteMsg::Rebalance { reserved_target },
            },
        );
    }
    let context = FlashloanContext {
        loan_amount: execution.amount,
        stable_before_exec: reserved_target,
    };
    messages.push(
        Instruction::Execute {
            contract_addr: info.sender.clone(),
            payload: execution.msg,
            funds: execution.amount,
        },
    );
    messages.push(
        Instruction::CallVault {
            contract_addr: env.contract_address.clone(),
            msg: ExecuteMsg::RepayAssertion { context },
        },
    );
    assert(messages@ =~= flashloan_outcome(deps, env, info, execution)->Ok_0);
    Ok(Response { messages })
}

/// How a redemption of `redeem_amount` ends. Only the owner may redeem, and
/// no more than the vault's total value; the vault then rebalances to the
/// amount and its minimum reserve together, and pays the amount to the owner.
pub open spec fn redeem_outcome(deps: Deps, env: Env, info: MessageInfo, redeem_amount: u128) -> Result<
    Seq<Instruction>,
    Refusal,
> {
    match deps.storage {
        Err(e) => Err(Refusal::Host(e)),
        Ok(state) => {
            if info.sender@ != state.owner@ {
                Err(Refusal::Unauthorized)
            } else {
                match vault_tvl(deps.querier) {
                    Err(refusal) => Err(refusal),
                    Ok(tvl) => {
                        if tvl < redeem_amount {
                            Err(Refusal::Generic("insufficient balance"@))
                        } else if redeem_amount + state.minimum_ust_reserved > u128::MAX {
                            Err(Refusal::Overflow)
                        } else {
                            Ok(
                                seq![
                                    rebalance_call(
                                        env,
                                        (redeem_amount + state.minimum_ust_reserved) as u128,
                                    ),
                                    Instruction::Send {
                                        to_address: info.sender,
                                        amount: redeem_amount,
                                    },
                                ],
                            )
                        }
                    },
                }
            }
        },
    }
}

/// Pays `redeem_amount` stable units out to the owner.
pub fn try_redeem(deps: Deps, env: Env, info: MessageInfo, redeem_amount: u128) -> (r: Result<
    Response,
    ContractError,
>)
    ensures
        ends_as(r, redeem_outcome(deps, env, info, redeem_amount)),
{
    let state = match deps.storage {
        Ok(state) => state,
        Err(e) => { return Err(ContractError::Std(e)); },
    };
    if info.sender != state.owner {
        return Err(ContractError::Unauthorized {  });
    }
    let tvl: u128 = match query_vault_tvl(deps.querier) {
        Ok(tvl) => tvl,
        Err(e) => { return Err(ContractError::Std(e)); },
    };
    if tvl < redeem_amount {
        return Err(ContractError::Generic("insufficient balance".to_owned()));
    }
    let reserved_target: u128 = match checked_add(redeem_amount, state.minimum_ust_reserved) {
        Ok(target) => target,
        Err(e) => { return Err(ContractError::Std(e)); },
    };
    let mut messages: Vec<Instruction> = Vec::new();
    messages.push(
        Instruction::CallVault {
            contract_addr: env.contract_address.clone(),
            msg: ExecuteMsg::Rebalance { reserved_target },
        },
    );
    messages.push(Instruction::Send { to_address: info.sender.clone(), amount: redeem_amount });
    assert(messages@ =~= redeem_outcome(deps, env, info, redeem_amount)->Ok_0);
    Ok(Response { messages })
}

/// How the check after a flash loan ends. Only the vault may ask for it. It
/// fails unless the stable balance is back at what the context names; the
/// vault then rebalances to its minimum reserve.
pub open spec fn repay_assertion_outcome(
    deps: Deps,
    env: Env,
    info: MessageInfo,
    context: FlashloanContext,
) -> Result<Seq<Instruction>, Refusal> {
    if info.sender@ != env.contract_address@ {
        Err(Refusal::Unauthorized)
    } else {
        match (deps.storage, deps.querier.uusd_balance) {
            (Err(e), _) => Err(Refusal::Host(e)),
            (Ok(_), Err(e)) => Err(Refusal::Host(e)),
            (Ok(state), Ok(ust_balance)) => {
                if ust_balance < context.stable_before_exec {
                    Err(Refusal::Generic("imbalance repay"@))
                } else {
                    Ok(seq![rebalance_call(env, state.minimum_ust_reserved)])
                }
            },
        }
    }
}

/// Checks, after the borrower's callback, that a flash loan has been repaid.
pub fn try_repay_assertion(deps: Deps, env: Env, info: MessageInfo, context: FlashloanContext) -> (r:
    Result<Response, ContractError>)
    ensures
        ends_as(r, repay_assertion_outcome(deps, env, info, context)),
{
    if info.sender != env.contract_address {
        return Err(ContractError::Unauthorized {  });
    }
    let state = match deps.storage {
        Ok(state) => state,
        Err(e) => { return Err(ContractError::Std(e)); },
    };
    let ust_balance: u128 = match deps.querier.uusd_balance {
        Ok(balance) => balance,
        Err(e) => { return Err(ContractError::Std(e)); },
    };
    if ust_balance < context.stable_before_exec {
        return Err(ContractError::Generic("imbalance repay".to_owned()));
    }
    let mut messages: Vec<Instruction> = Vec::new();
    messages.push(
        Instruction::CallVault {
            contract_addr: env.contract_address.clone(),
            msg: ExecuteMsg::Rebalance { reserved_target: state.minimum_ust_reserved },
        },
    );
    assert(messages@ =~= repay_assertion_outcome(deps, env, info, context)->Ok_0);
    Ok(Response { messages })
}

/// How a deposit ends. Only the owner may deposit, and only stable units; the
/// vault then rebalances to its minimum reserve.
pub open spec fn deposit_outcome(deps: Deps, env: Env, info: MessageInfo) -> Result<
    Seq<Instruction>,
    Refusal,
> {
    match deps.storage {
        Err(e) => Err(Refusal::Host(e)),
        Ok(state) => {
            if info.sender@ != state.owner@ {
                Err(Refusal::Unauthorized)
            } else if deposit_uusd_amount(info) == 0 {
                Err(Refusal::Generic("invalid deposit denom or amount"@))
            } else {
                Ok(seq![rebalance_call(env, state.minimum_ust_reserved)])
            }
        },
    }
}

/// Takes in the stable units that the owner attached to the message.
pub fn try_deposit(deps: Deps, env: Env, info: MessageInfo) -> (r: Result<Response, ContractError>)
    ensures
        ends_as(r, deposit_outcome(deps, env, info)),
{
    let state = match deps.storage {
        Ok(state) => state,
        Err(e) => { return Err(ContractError::Std(e)); },
    };
    if info.sender != state.owner {
        return Err(ContractError::Unauthorized {  });
    }
    let deposit_amount: u128 = get_deposit_uusd_amount(&info);
    if deposit_amount == 0 {
        return Err(ContractError::Generic("invalid deposit denom or amount".to_owned()));
    }
    let mut messages: Vec<Instruction> = Vec::new();
    messages.push(
        Instruction::CallVault {
            contract_addr: env.contract_address.clone(),
            msg: ExecuteMsg::Rebalance { reserved_target: state.minimum_ust_reserved },
        },
    );
    assert(messages@ =~= deposit_outcome(deps, env, info)->Ok_0);
    Ok(Response { messages })
}

/// How a message to the vault ends: as the operation that it names does.
pub open spec fn execute_outcome(deps: Deps, env: Env, info: MessageInfo, msg: ExecuteMsg) -> Result<
    Seq<Instruction>,
    Refusal,
> {
    match msg {
        ExecuteMsg::Deposit {  } => deposit_outcome(deps, env, info),
        ExecuteMsg::Redeem { amount } => redeem_outcome(deps, env, info, amount),
        ExecuteMsg::Rebalance { reserved_target } => rebalance_outcome(
            deps,
            env,
            info,
            reserved_target,
        ),
        ExecuteMsg::Flashloan { execution } => flashloan_outcome(deps, env, info, execution),
        ExecuteMsg::RepayAssertion { context } => repay_assertion_outcome(
            deps,
            env,
            info,
            context,
        ),
    }
}

/// Performs the operation that `msg` names.
pub fn execute(deps: Deps, env: Env, info: MessageInfo, msg: ExecuteMsg) -> (r: Result<
    Response,
    ContractError,
>)
    ensures
        ends_as(r, execute_outcome(deps, env, info, msg)),
{
    match msg {
        ExecuteMsg::Deposit {  } => try_deposit(deps, env, info),
        ExecuteMsg::Redeem { amount } => try_redeem(deps, env, info, amount),
        ExecuteMsg::Rebalance { reserved_target } => try_rebalance(
            deps,
            env,
            info,
            reserved_target,
        ),
        ExecuteMsg::Flashloan { execution } => try_flashloan(deps, env, info, execution),
        ExecuteMsg::RepayAssertion { context } => try_repay_assertion(deps, env, info, context),
    }
}

/// The answer to the query for the total value: the configuration is loaded,
/// then the value is computed.
pub open spec fn tvl_answer(deps: Deps) -> Result<TotalValueLockedResponse, Refusal> {
    match (deps.storage, vault_tvl(deps.querier)) {
        (Err(e), _) => Err(Refusal::Host(e)),
        (Ok(_), Err(refusal)) => Err(refusal),
        (Ok(_), Ok(tvl)) => Ok(TotalValueLockedResponse { tvl }),
    }
}

/// Reports the vault's total value.
pub fn query_tvl(deps: Deps) -> (r: Result<TotalValueLockedResponse, StdError>)
    ensures
        answers_as(r, tvl_answer(deps)),
{
    if let Err(e) = deps.storage {
        return Err(e);
    }
    match query_vault_tvl(deps.querier) {
        Ok(tvl) => Ok(TotalValueLockedResponse { tvl }),
        Err(e) => Err(e),
    }
}

/// The answer to a query. There is one query, for the total value.
pub fn query(deps: Deps, msg: QueryMsg) -> (r: Result<TotalValueLockedResponse, StdError>)
    ensures
        answers_as(r, tvl_answer(deps)),
{
    match msg {
        QueryMsg::TotalValueLocked {  } => query_tvl(deps),
    }
}

/// What a rebalance asked by the vault emits is decided by the configured
/// addresses, the stable balance, the target, the receipt balance and the
/// exchange rate: two rebalances that agree in these end alike.
pub proof fn rebalance_is_decided_by_balances_target_and_rate(
    first: Deps,
    second: Deps,
    env: Env,
    info: MessageInfo,
    reserved_target: u128,
)
    requires
        info.sender@ == env.contract_address@,
        ({
            &&& first.storage matches Ok(a)
            &&& second.storage matches Ok(b)
            &&& a.aust_addr == b.aust_addr
            &&& a.anchor_money_market_addr == b.anchor_money_market_addr
        }),
        ({
            &&& first.querier.uusd_balance matches Ok(a)
            &&& second.querier.uusd_balance matches Ok(b)
            &&& a == b
        }),
        ({
            &&& first.querier.aust_balance matches Ok(a)
            &&& second.querier.aust_balance matches Ok(b)
            &&& a == b
        }),
        ({
            &&& first.querier.exchange_rate matches Ok(a)
            &&& second.querier.exchange_rate matches Ok(b)
            &&& a.atomics() == b.atomics()
        }),
    ensures
        rebalance_outcome(first, env, info, reserved_target) == rebalance_outcome(
            second,
            env,
            info,
            reserved_target,
        ),
        rebalance_outcome(first, env, info, reserved_target) matches Err(refusal)
            ==> refusal is Overflow,
{
}

/// A redemption succeeds only if the vault's total value can be computed and
/// covers the amount. Asked by the owner for more than the total value, it is
/// refused as having insufficient balance.
pub proof fn redeem_above_total_value_fails(
    deps: Deps,
    env: Env,
    info: MessageInfo,
    redeem_amount: u128,
)
    ensures
        redeem_outcome(deps, env, info, redeem_amount) is Ok ==> ({
            &&& vault_tvl(deps.querier) matches Ok(tvl)
            &&& redeem_amount <= tvl
        }),
        ({
            &&& deps.storage matches Ok(state)
            &&& info.sender@ == state.owner@
            &&& vault_tvl(deps.querier) matches Ok(tvl)
            &&& redeem_amount > tvl
        }) ==> redeem_outcome(deps, env, info, redeem_amount) == Err::<Seq<Instruction>, Refusal>(
            Refusal::Generic("insufficient balance"@),
        ),
{
}

/// The check after a flash loan succeeds only if the stable balance is at
/// least what the context names. Asked by the vault with a lower balance, it
/// is refused as an imbalanced repayment.
pub proof fn repay_assertion_holds_the_floor(
    deps: Deps,
    env: Env,
    info: MessageInfo,
    context: FlashloanContext,
)
    ensures
        repay_assertion_outcome(deps, env, info, context) is Ok ==> ({
            &&& deps.querier.uusd_balance matches Ok(ust_balance)
            &&& ust_balance >= context.stable_before_exec
        }),
        ({
            &&& deps.storage is Ok
            &&& info.sender@ == env.contract_address@
            &&& deps.querier.uusd_balance matches Ok(ust_balance)
            &&& ust_balance < context.stable_before_exec
        }) ==> repay_assertion_outcome(deps, env, info, context) == Err::<
            Seq<Instruction>,
            Refusal,
        >(Refusal::Generic("imbalance repay"@)),
{
}

/// A flash loan that is granted hands its own check a floor that is at least
/// the stable balance at the time of the request; so where that check
/// succeeds, the loan has not lowered the vault's stable balance.
pub proof fn flashloan_never_lowers_balance(
    before: Deps,
    after: Deps,
    env: Env,
    borrower: MessageInfo,
    vault: MessageInfo,
    execution: FlashloadExecution,
    context: FlashloanContext,
)
    requires
        ({
            &&& flashloan_outcome(before, env, borrower, execution) matches Ok(messages)
            &&& messages.last() == repay_assertion_call(env, context)
        }),
        repay_assertion_outcome(after, env, vault, context) is Ok,
    ensures
        context.loan_amount == execution.amount,
        ({
            &&& before.querier.uusd_balance matches Ok(balance_before)
            &&& after.querier.uusd_balance matches Ok(balance_after)
            &&& balance_after >= context.stable_before_exec >= balance_before
        }),
{
}

/// The check after a flash loan fails as unauthorized for every caller but
/// the vault itself, whatever the context and whatever the host reports.
pub proof fn repay_assertion_is_for_the_vault_only(
    deps: Deps,
    env: Env,
    info: MessageInfo,
    context: FlashloanContext,
)
    requires
        info.sender@ != env.contract_address@,
    ensures
        repay_assertion_outcome(deps, env, info, context) == Err::<Seq<Instruction>, Refusal>(
            Refusal::Unauthorized,
        ),
{
}

/// A rebalance fails as unauthorized for every caller but the vault itself,
/// whatever the target and whatever the host reports.
pub proof fn rebalance_is_for_the_vault_only(
    deps: Deps,
    env: Env,
    info: MessageInfo,
    reserved_target: u128,
)
    requires
        info.sender@ != env.contract_address@,
    ensures
        rebalance_outcome(deps, env, info, reserved_target) == Err::<Seq<Instruction>, Refusal>(
            Refusal::Unauthorized,
        ),
{
}

} // verus!
