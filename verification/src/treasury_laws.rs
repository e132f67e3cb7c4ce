//! Laws of the treasury contract, stated over the effects that its
//! operations are specified to have.
use vstd::prelude::*;

use crate::errors::{treasury_error_code, TreasuryError};
use crate::host::{Address, ContractEvent, Env, Step, TokenCall};
use crate::treasury::{
    min_balance_check, movement_check, withdrawal_check, TreasuryCall, TreasuryFailure, TreasuryState,
};

verus! {

/// A successful withdrawal moves a positive amount that the treasury holds
/// and leaves at least the minimum balance behind; the admin authorized it
/// and the treasury was not paused. The treasury pays from itself to `to`.
pub proof fn lemma_withdraw_keeps_minimum(
    s: TreasuryState,
    env: Env,
    to: Address,
    amount: i128,
    treasury_balance: i128,
)
    requires
        s.after_withdraw(env, to, amount, treasury_balance) is Ok,
    ensures
        0 < amount <= treasury_balance,
        treasury_balance - amount >= s.min_balance_or_zero(),
        !s.is_paused(),
        s.admin is Some && env.authorizes(s.admin->0),
        s.token is Some,
        s.after_withdraw(env, to, amount, treasury_balance)->Ok_0.calls.last() == (TokenCall::Transfer {
            token: s.token->0,
            from: env.current_contract,
            to,
            amount,
        }),
        s.after_withdraw(env, to, amount, treasury_balance)->Ok_0.state == s,
{
}

/// While paused, no deposit or withdrawal of a positive amount goes through:
/// each fails with `Paused`. Setting the switch is what `is_paused` reads back.
pub proof fn lemma_pause_blocks_movement(
    s: TreasuryState,
    env: Env,
    who: Address,
    amount: i128,
    treasury_balance: i128,
    paused: bool,
)
    ensures
        s.is_paused() && amount > 0 ==> s.after_deposit(env, who, amount) == Err::<Step<TreasuryState>, TreasuryFailure>(
            TreasuryFailure::Contract(TreasuryError::Paused),
        ),
        s.is_paused() && amount > 0 ==> s.after_withdraw(env, who, amount, treasury_balance) == Err::<
            Step<TreasuryState>,
            TreasuryFailure,
        >(TreasuryFailure::Contract(TreasuryError::Paused)),
        s.after_set_paused(env, paused) is Ok ==> s.after_set_paused(env, paused)->Ok_0.state.is_paused() == paused,
{
}

/// A non-positive amount is never moved: deposits and withdrawals of it fail
/// with `InvalidAmount`, whatever else holds.
pub proof fn lemma_non_positive_amount_rejected(
    s: TreasuryState,
    env: Env,
    who: Address,
    amount: i128,
    treasury_balance: i128,
)
    requires
        amount <= 0,
    ensures
        s.after_deposit(env, who, amount) == Err::<Step<TreasuryState>, TreasuryFailure>(
            TreasuryFailure::Contract(TreasuryError::InvalidAmount),
        ),
        s.after_withdraw(env, who, amount, treasury_balance) == Err::<Step<TreasuryState>, TreasuryFailure>(
            TreasuryFailure::Contract(TreasuryError::InvalidAmount),
        ),
{
}

/// A minimum balance that was set is non-negative and is what withdrawals
/// then keep: a withdrawal that would leave less fails with
/// `MinBalanceViolation`.
pub proof fn lemma_min_balance_enforced(
    s: TreasuryState,
    env: Env,
    min_balance: i128,
    env2: Env,
    to: Address,
    amount: i128,
    treasury_balance: i128,
)
    requires
        s.after_set_min_balance(env, min_balance) is Ok,
        env2.authorizes(s.admin->0),
        s.token is Some,
        !s.is_paused(),
        0 < amount <= treasury_balance,
        treasury_balance - amount < min_balance,
    ensures
        min_balance >= 0,
        s.after_set_min_balance(env, min_balance)->Ok_0.state.min_balance_or_zero() == min_balance,
        s.after_set_min_balance(env, min_balance)->Ok_0.state.after_withdraw(env2, to, amount, treasury_balance)
            == Err::<Step<TreasuryState>, TreasuryFailure>(
            TreasuryFailure::Contract(TreasuryError::MinBalanceViolation),
        ),
{
}

/// A successful deposit moves exactly `amount` from `from` into the treasury
/// in the configured token, announces it, and changes no stored state.
pub proof fn lemma_deposit_moves_into_treasury(s: TreasuryState, env: Env, from: Address, amount: i128)
    requires
        s.after_deposit(env, from, amount) is Ok,
    ensures
        amount > 0,
        env.authorizes(from),
        s.token is Some,
        s.after_deposit(env, from, amount)->Ok_0.state == s,
        s.after_deposit(env, from, amount)->Ok_0.calls == seq![
            TokenCall::Transfer { token: s.token->0, from, to: env.current_contract, amount },
        ],
        s.after_deposit(env, from, amount)->Ok_0.events == seq![
            ContractEvent::Deposit { from, amount, token: s.token->0 },
        ],
{
}

/// Only the admin configures the treasury or withdraws from it; before
/// initialization the admin setters fail with `NotInitialized`.
pub proof fn lemma_only_admin_configures(
    s: TreasuryState,
    env: Env,
    paused: bool,
    min_balance: i128,
    to: Address,
    amount: i128,
    treasury_balance: i128,
)
    ensures
        s.after_set_paused(env, paused) is Ok ==> s.admin is Some && env.authorizes(s.admin->0),
        s.after_set_min_balance(env, min_balance) is Ok ==> s.admin is Some && env.authorizes(s.admin->0),
        s.after_withdraw(env, to, amount, treasury_balance) is Ok ==> s.admin is Some && env.authorizes(s.admin->0),
        s.admin is None ==> s.after_set_paused(env, paused) == Err::<Step<TreasuryState>, TreasuryFailure>(
            TreasuryFailure::Contract(TreasuryError::NotInitialized),
        ),
        s.admin is None ==> s.after_set_min_balance(env, min_balance) == Err::<Step<TreasuryState>, TreasuryFailure>(
            TreasuryFailure::Contract(TreasuryError::NotInitialized),
        ),
{
}

/// The treasury can be initialized once: afterwards it is unpaused with a
/// minimum balance of zero, and any further authorized initialization fails
/// with `AlreadyInitialized`.
pub proof fn lemma_initialize_once(
    s: TreasuryState,
    env: Env,
    admin: Address,
    token_address: Address,
    env2: Env,
    admin2: Address,
    token2: Address,
)
    requires
        s.after_initialize(env, admin, token_address) is Ok,
        env2.authorizes(admin2),
    ensures
        ({
            let t = s.after_initialize(env, admin, token_address)->Ok_0.state;
            &&& t.admin == Some(admin)
            &&& t.token == Some(token_address)
            &&& !t.is_paused()
            &&& t.min_balance_or_zero() == 0
            &&& t.after_initialize(env2, admin2, token2) == Err::<Step<TreasuryState>, TreasuryFailure>(
                TreasuryFailure::Contract(TreasuryError::AlreadyInitialized),
            )
        }),
{
}

/// The stored minimum balance is never negative (or is not set yet).
pub open spec fn min_balance_non_negative(s: TreasuryState) -> bool {
    match s.min_balance {
        Some(m) => m >= 0,
        None => true,
    }
}

/// No single invocation, successful or not, makes the minimum balance negative.
pub proof fn lemma_call_keeps_min_balance_non_negative(s: TreasuryState, env: Env, call: TreasuryCall)
    requires
        min_balance_non_negative(s),
    ensures
        min_balance_non_negative(s.after_call(env, call)),
{
}

/// In every state reached from a freshly deployed treasury, by any sequence
/// of invocations that succeed or fail, the minimum balance is non-negative,
/// so every successful withdrawal leaves a non-negative balance behind.
pub proof fn lemma_min_balance_non_negative_when_reachable(
    calls: Seq<(Env, TreasuryCall)>,
    env: Env,
    to: Address,
    amount: i128,
    treasury_balance: i128,
)
    ensures
        ({
            let fresh = TreasuryState { admin: None, token: None, paused: None, min_balance: None };
            let t = fresh.after_calls(calls);
            &&& min_balance_non_negative(t)
            &&& t.min_balance_or_zero() >= 0
            &&& (t.after_withdraw(env, to, amount, treasury_balance) is Ok ==> treasury_balance - amount >= 0)
        }),
    decreases calls.len(),
{
    let fresh = TreasuryState { admin: None, token: None, paused: None, min_balance: None };
    if calls.len() > 0 {
        lemma_min_balance_non_negative_when_reachable(calls.drop_last(), env, to, amount, treasury_balance);
        lemma_call_keeps_min_balance_non_negative(fresh.after_calls(calls.drop_last()), calls.last().0, calls.last().1);
    }
    let t = fresh.after_calls(calls);
    if t.after_withdraw(env, to, amount, treasury_balance) is Ok {
        lemma_withdraw_keeps_minimum(t, env, to, amount, treasury_balance);
    }
}

/// A positive amount moves exactly when the treasury is not paused; a
/// non-positive one is an invalid amount whatever the switch says.
pub proof fn lemma_movement_check_by_inputs(amount: i128, paused: bool)
    ensures
        (movement_check(amount, paused) is Ok) <==> (amount > 0 && !paused),
        amount <= 0 ==> movement_check(amount, paused) == Err::<(), TreasuryError>(TreasuryError::InvalidAmount),
        amount > 0 && paused ==> movement_check(amount, paused) == Err::<(), TreasuryError>(TreasuryError::Paused),
{
}

/// Any non-negative minimum balance is accepted, and only a negative one is
/// refused.
pub proof fn lemma_min_balance_check_by_inputs(amount: i128)
    ensures
        (min_balance_check(amount) is Ok) <==> amount >= 0,
{
}

/// A positive withdrawal that the balance covers and that keeps the minimum
/// succeeds, leaving exactly the difference, even when that empties the
/// treasury; one the balance does not cover is an insufficient balance; one
/// that would cut into the minimum is a minimum-balance violation.
pub proof fn lemma_withdrawal_check_by_inputs(balance: i128, amount: i128, min_balance: i128)
    requires
        amount > 0,
    ensures
        amount <= balance && balance - amount >= min_balance ==> withdrawal_check(balance, amount, min_balance)
            == Ok::<i128, TreasuryError>((balance - amount) as i128),
        amount > balance ==> withdrawal_check(balance, amount, min_balance) == Err::<i128, TreasuryError>(
            TreasuryError::InsufficientBalance,
        ),
        amount <= balance && balance - amount < min_balance ==> withdrawal_check(balance, amount, min_balance)
            == Err::<i128, TreasuryError>(TreasuryError::MinBalanceViolation),
{
}

/// Anyone who authorizes deposits a positive amount into an unpaused,
/// initialized treasury; no other signature is needed. The amount moves from
/// the depositor to the treasury, the deposit is announced, and the stored
/// state does not change.
pub proof fn lemma_deposit_succeeds(s: TreasuryState, env: Env, from: Address, amount: i128, token: Address)
    requires
        amount > 0,
        !s.is_paused(),
        s.token == Some(token),
        env.authorizes(from),
    ensures
        s.after_deposit(env, from, amount) == Ok::<Step<TreasuryState>, TreasuryFailure>(
            Step {
                state: s,
                events: seq![ContractEvent::Deposit { from, amount, token }],
                calls: seq![TokenCall::Transfer { token, from, to: env.current_contract, amount }],
            },
        ),
{
}

/// The admin of an unpaused treasury withdraws any positive amount that the
/// reported balance covers and that keeps the minimum balance, emptying the
/// treasury included: the balance is queried, the amount moves from the
/// treasury to `to`, the withdrawal is announced, and the stored state does
/// not change.
pub proof fn lemma_covered_withdrawal_succeeds(
    s: TreasuryState,
    env: Env,
    admin: Address,
    token: Address,
    to: Address,
    amount: i128,
    treasury_balance: i128,
)
    requires
        amount > 0,
        !s.is_paused(),
        s.admin == Some(admin),
        env.authorizes(admin),
        s.token == Some(token),
        amount <= treasury_balance,
        treasury_balance - amount >= s.min_balance_or_zero(),
    ensures
        s.after_withdraw(env, to, amount, treasury_balance) == Ok::<Step<TreasuryState>, TreasuryFailure>(
            Step {
                state: s,
                events: seq![ContractEvent::Withdraw { to, amount, token }],
                calls: seq![
                    TokenCall::Balance { token, account: env.current_contract },
                    TokenCall::Transfer { token, from: env.current_contract, to, amount },
                ],
            },
        ),
{
}

/// The admin of an initialized treasury sets the pause switch to either
/// value and any non-negative minimum balance; each changes only its own
/// setting.
pub proof fn lemma_admin_settings_succeed(s: TreasuryState, env: Env, admin: Address, paused: bool, amount: i128)
    requires
        s.admin == Some(admin),
        env.authorizes(admin),
    ensures
        s.after_set_paused(env, paused) == Ok::<Step<TreasuryState>, TreasuryFailure>(
            Step { state: TreasuryState { paused: Some(paused), ..s }, events: Seq::empty(), calls: Seq::empty() },
        ),
        amount >= 0 ==> s.after_set_min_balance(env, amount) == Ok::<Step<TreasuryState>, TreasuryFailure>(
            Step { state: TreasuryState { min_balance: Some(amount), ..s }, events: Seq::empty(), calls: Seq::empty() },
        ),
        amount < 0 ==> s.after_set_min_balance(env, amount) == Err::<Step<TreasuryState>, TreasuryFailure>(
            TreasuryFailure::Contract(TreasuryError::NegativeMinBalance),
        ),
{
}

/// An uninitialized treasury is initialized by any admin who authorizes,
/// with any token: unpaused, with a minimum balance of zero.
pub proof fn lemma_first_initialize_succeeds(s: TreasuryState, env: Env, admin: Address, token_address: Address)
    requires
        s.admin is None,
        env.authorizes(admin),
    ensures
        s.after_initialize(env, admin, token_address) == Ok::<Step<TreasuryState>, TreasuryFailure>(
            Step {
                state: TreasuryState {
                    admin: Some(admin),
                    token: Some(token_address),
                    paused: Some(false),
                    min_balance: Some(0),
                },
                events: Seq::empty(),
                calls: Seq::empty(),
            },
        ),
{
}

/// Distinct treasury errors have distinct codes.
pub proof fn lemma_treasury_error_codes_distinct(a: TreasuryError, b: TreasuryError)
    ensures
        treasury_error_code(a) == treasury_error_code(b) ==> a == b,
{
}

} // verus!
