//! The treasury contract: holds one token for its admin, takes deposits
//! from anyone, and pays out withdrawals that the admin authorizes while
//! keeping a minimum balance.
use vstd::prelude::*;

use crate::errors::TreasuryError;
use crate::host::{settles, Address, ContractEvent, Env, Step, TokenCall};

verus! {

/// Why an invocation of the treasury contract is rejected. A rejected
/// invocation changes nothing.
#[derive(Clone, Copy, Debug, PartialEq, Eq, Structural)]
pub enum TreasuryFailure {
    /// The contract raised one of its error codes.
    Contract(TreasuryError),
    /// The given address did not authorize the invocation.
    Unauthorized(Address),
}

/// Whether `amount` may move in or out while the treasury is `paused`.
pub open spec fn movement_check(amount: i128, paused: bool) -> Result<(), TreasuryError> {
    if amount <= 0 {
        Err(TreasuryError::InvalidAmount)
    } else if paused {
        Err(TreasuryError::Paused)
    } else {
        Ok(())
    }
}

/// Whether `amount` may become the minimum balance.
pub open spec fn min_balance_check(amount: i128) -> Result<(), TreasuryError> {
    if amount < 0 {
        Err(TreasuryError::NegativeMinBalance)
    } else {
        Ok(())
    }
}

/// Whether `amount` may leave a treasury that holds `balance` and must keep
/// `min_balance`; on success, the balance that remains.
pub open spec fn withdrawal_check(balance: i128, amount: i128, min_balance: i128) -> Result<i128, TreasuryError> {
    if balance < amount || balance - amount > i128::MAX {
        Err(TreasuryError::InsufficientBalance)
    } else if balance - amount < min_balance {
        Err(TreasuryError::MinBalanceViolation)
    } else {
        Ok((balance - amount) as i128)
    }
}

/// Checks the amount of a deposit or withdrawal and the pause switch.
pub fn check_movement(amount: i128, paused: bool) -> (r: Result<(), TreasuryError>)
    ensures
        r == movement_check(amount, paused),
{
    if amount <= 0 {
        Err(TreasuryError::InvalidAmount)
    } else if paused {
        Err(TreasuryError::Paused)
    } else {
        Ok(())
    }
}

/// Checks a new minimum balance.
pub fn check_min_balance(amount: i128) -> (r: Result<(), TreasuryError>)
    ensures
        r == min_balance_check(amount),
{
    if amount < 0 {
        Err(TreasuryError::NegativeMinBalance)
    } else {
        Ok(())
    }
}

/// Checks a withdrawal against the treasury's balance and minimum balance.
pub fn check_withdrawal(balance: i128, amount: i128, min_balance: i128) -> (r: Result<i128, TreasuryError>)
    ensures
        r == withdrawal_check(balance, amount, min_balance),
{
    if balance < amount {
        return Err(TreasuryError::InsufficientBalance);
    }
    let remaining = match balance.checked_sub(amount) {
        Some(v) => v,
        None => return Err(TreasuryError::InsufficientBalance),
    };
    if remaining < min_balance {
        return Err(TreasuryError::MinBalanceViolation);
    }
    Ok(remaining)
}

/// The stored state of the treasury contract.
pub struct TreasuryState {
    pub admin: Option<Address>,
    pub token: Option<Address>,
    pub paused: Option<bool>,
    pub min_balance: Option<i128>,
}

impl TreasuryState {
    /// Whether deposits and withdrawals are paused (not paused when never set).
    pub open spec fn is_paused(self) -> bool {
        self.paused == Some(true)
    }

    /// The minimum balance (zero when never set).
    pub open spec fn min_balance_or_zero(self) -> i128 {
        match self.min_balance {
            Some(m) => m,
            None => 0,
        }
    }

    /// The effect of `initialize(admin, token_address)`.
    pub open spec fn after_initialize(self, env: Env, admin: Address, token_address: Address) -> Result<Step<TreasuryState>, TreasuryFailure> {
        if !env.authorizes(admin) {
            Err(TreasuryFailure::Unauthorized(admin))
        } else if self.admin is Some {
            Err(TreasuryFailure::Contract(TreasuryError::AlreadyInitialized))
        } else {
            Ok(Step {
                state: TreasuryState {
                    admin: Some(admin),
                    token: Some(token_address),
                    paused: Some(false),
                    min_balance: Some(0),
                },
                events: Seq::empty(),
                calls: Seq::empty(),
            })
        }
    }

    /// The effect of `set_paused(paused)`.
    pub open spec fn after_set_paused(self, env: Env, paused: bool) -> Result<Step<TreasuryState>, TreasuryFailure> {
        match self.admin {
            None => Err(TreasuryFailure::Contract(TreasuryError::NotInitialized)),
            Some(admin) => if !env.authorizes(admin) {
                Err(TreasuryFailure::Unauthorized(admin))
            } else {
                Ok(Step { state: TreasuryState { paused: Some(paused), ..self }, events: Seq::empty(), calls: Seq::empty() })
            },
        }
    }

    /// The effect of `set_min_balance(amount)`.
    pub open spec fn after_set_min_balance(self, env: Env, amount: i128) -> Result<Step<TreasuryState>, TreasuryFailure> {
        match self.admin {
            None => Err(TreasuryFailure::Contract(TreasuryError::NotInitialized)),
            Some(admin) => if !env.authorizes(admin) {
                Err(TreasuryFailure::Unauthorized(admin))
            } else {
                match min_balance_check(amount) {
                    Err(e) => Err(TreasuryFailure::Contract(e)),
                    Ok(_) => Ok(Step {
                        state: TreasuryState { min_balance: Some(amount), ..self },
                        events: Seq::empty(),
                        calls: Seq::empty(),
                    }),
                }
            },
        }
    }

    /// The effect of `deposit(from, amount)`: `from` pays `amount` into the treasury.
    pub open spec fn after_deposit(self, env: Env, from: Address, amount: i128) -> Result<Step<TreasuryState>, TreasuryFailure> {
        match movement_check(amount, self.is_paused()) {
            Err(e) => Err(TreasuryFailure::Contract(e)),
            Ok(_) => if !env.authorizes(from) {
                Err(TreasuryFailure::Unauthorized(from))
            } else {
                match self.token {
                    None => Err(TreasuryFailure::Contract(TreasuryError::NotInitialized)),
                    Some(token) => Ok(Step {
                        state: self,
                        events: seq![ContractEvent::Deposit { from, amount, token }],
                        calls: seq![TokenCall::Transfer { token, from, to: env.current_contract, amount }],
                    }),
                }
            },
        }
    }

    /// The effect of `withdraw(to, amount)` when the token reports
    /// `treasury_balance` as the treasury's balance.
    pub open spec fn after_withdraw(self, env: Env, to: Address, amount: i128, treasury_balance: i128) -> Result<Step<TreasuryState>, TreasuryFailure> {
        match movement_check(amount, self.is_paused()) {
            Err(e) => Err(TreasuryFailure::Contract(e)),
            Ok(_) => match self.admin {
                None => Err(TreasuryFailure::Contract(TreasuryError::NotInitialized)),
                Some(admin) => if !env.authorizes(admin) {
                    Err(TreasuryFailure::Unauthorized(admin))
                } else {
                    match self.token {
                        None => Err(TreasuryFailure::Contract(TreasuryError::NotInitialized)),
                        Some(token) => match withdrawal_check(treasury_balance, amount, self.min_balance_or_zero()) {
                            Err(e) => Err(TreasuryFailure::Contract(e)),
                            Ok(_) => Ok(Step {
                                state: self,
                                events: seq![ContractEvent::Withdraw { to, amount, token }],
                                calls: seq![
                                    TokenCall::Balance { token, account: env.current_contract },
                                    TokenCall::Transfer { token, from: env.current_contract, to, amount },
                                ],
                            }),
                        },
                    }
                },
            },
        }
    }
}

/// A state-changing invocation of the treasury contract, with its
/// arguments; a withdrawal carries the balance the token reports.
pub enum TreasuryCall {
    Initialize { admin: Address, token_address: Address },
    SetPaused { paused: bool },
    SetMinBalance { amount: i128 },
    Deposit { from: Address, amount: i128 },
    Withdraw { to: Address, amount: i128, treasury_balance: i128 },
}

impl TreasuryState {
    /// The state after invoking `call` in `env`: the step's state on
    /// success, the same state on failure.
    pub open spec fn after_call(self, env: Env, call: TreasuryCall) -> TreasuryState {
        let r = match call {
            TreasuryCall::Initialize { admin, token_address } => self.after_initialize(env, admin, token_address),
            TreasuryCall::SetPaused { paused } => self.after_set_paused(env, paused),
            TreasuryCall::SetMinBalance { amount } => self.after_set_min_balance(env, amount),
            TreasuryCall::Deposit { from, amount } => self.after_deposit(env, from, amount),
            TreasuryCall::Withdraw { to, amount, treasury_balance } =>
                self.after_withdraw(env, to, amount, treasury_balance),
        };
        match r {
            Ok(step) => step.state,
            Err(_) => self,
        }
    }

    /// The state after invoking `calls` in order, each in its own context.
    pub open spec fn after_calls(self, calls: Seq<(Env, TreasuryCall)>) -> TreasuryState
        decreases calls.len(),
    {
        if calls.len() == 0 {
            self
        } else {
            self.after_calls(calls.drop_last()).after_call(calls.last().0, calls.last().1)
        }
    }
}

/// The treasury contract and its stored state.
pub struct Treasury {
    admin: Option<Address>,
    token: Option<Address>,
    paused: Option<bool>,
    min_balance: Option<i128>,
}

impl View for Treasury {
    type V = TreasuryState;

    closed spec fn view(&self) -> TreasuryState {
        TreasuryState {
            admin: self.admin,
            token: self.token,
            paused: self.paused,
            min_balance: self.min_balance,
        }
    }
}

impl Treasury {
    /// A freshly deployed treasury: nothing stored.
    pub fn new() -> (r: Treasury)
        ensures
            r@.admin is None,
            r@.token is None,
            r@.paused is None,
            r@.min_balance is None,
    {
        Treasury { admin: None, token: None, paused: None, min_balance: None }
    }

    /// Initializes the treasury with its admin and token; unpaused, with a
    /// minimum balance of zero. The admin must authorize.
    pub fn initialize(&mut self, env: &mut Env, admin: Address, token_address: Address) -> (r: Result<(), TreasuryFailure>)
        ensures
            settles(old(self)@.after_initialize(*old(env), admin, token_address), r, old(self)@, final(self)@, *old(env), *final(env)),
    {
        if !env.is_authorized(admin) {
            return Err(TreasuryFailure::Unauthorized(admin));
        }
        if self.admin.is_some() {
            return Err(TreasuryFailure::Contract(TreasuryError::AlreadyInitialized));
        }
        self.admin = Some(admin);
        self.token = Some(token_address);
        self.paused = Some(false);
        self.min_balance = Some(0);
        proof {
            env.lemma_records_nothing();
        }
        Ok(())
    }

    /// Pauses or resumes deposits and withdrawals. Only the admin may call this.
    pub fn set_paused(&mut self, env: &mut Env, paused: bool) -> (r: Result<(), TreasuryFailure>)
        ensures
            settles(old(self)@.after_set_paused(*old(env), paused), r, old(self)@, final(self)@, *old(env), *final(env)),
    {
        let admin = match self.get_admin() {
            Err(e) => return Err(TreasuryFailure::Contract(e)),
            Ok(a) => a,
        };
        if !env.is_authorized(admin) {
            return Err(TreasuryFailure::Unauthorized(admin));
        }
        self.paused = Some(paused);
        proof {
            env.lemma_records_nothing();
        }
        Ok(())
    }

    /// Sets the balance that withdrawals must leave. Only the admin may call
    /// this; the amount may not be negative.
    pub fn set_min_balance(&mut self, env: &mut Env, amount: i128) -> (r: Result<(), TreasuryFailure>)
        ensures
            settles(old(self)@.after_set_min_balance(*old(env), amount), r, old(self)@, final(self)@, *old(env), *final(env)),
    {
        let admin = match self.get_admin() {
            Err(e) => return Err(TreasuryFailure::Contract(e)),
            Ok(a) => a,
        };
        if !env.is_authorized(admin) {
            return Err(TreasuryFailure::Unauthorized(admin));
        }
        if let Err(e) = check_min_balance(amount) {
            return Err(TreasuryFailure::Contract(e));
        }
        self.min_balance = Some(amount);
        proof {
            env.lemma_records_nothing();
        }
        Ok(())
    }

    /// Moves `amount` of the token from `from` into the treasury. `from`
    /// must authorize; the amount must be positive and the treasury unpaused.
    pub fn deposit(&self, env: &mut Env, from: Address, amount: i128) -> (r: Result<(), TreasuryFailure>)
        ensures
            settles(self@.after_deposit(*old(env), from, amount), r, self@, self@, *old(env), *final(env)),
    {
        if let Err(e) = check_movement(amount, self.is_paused()) {
            return Err(TreasuryFailure::Contract(e));
        }
        if !env.is_authorized(from) {
            return Err(TreasuryFailure::Unauthorized(from));
        }
        let token = match self.get_token() {
            Err(e) => return Err(TreasuryFailure::Contract(e)),
            Ok(t) => t,
        };
        let contract = env.current_contract;
        let event = ContractEvent::Deposit { from, amount, token };
        let call = TokenCall::Transfer { token, from, to: contract, amount };
        let events = vec![event];
        let calls = vec![call];
        assert(events@ =~= seq![event]);
        assert(calls@ =~= seq![call]);
        env.record(events, calls);
        Ok(())
    }

    /// Pays `amount` of the token from the treasury to `to`. The admin must
    /// authorize; the amount must be positive, the treasury unpaused, and
    /// `treasury_balance` (the balance the token reports for the treasury)
    /// must cover the amount and still leave the minimum balance.
    pub fn withdraw(&self, env: &mut Env, to: Address, amount: i128, treasury_balance: i128) -> (r: Result<(), TreasuryFailure>)
        ensures
            settles(self@.after_withdraw(*old(env), to, amount, treasury_balance), r, self@, self@, *old(env), *final(env)),
    {
        if let Err(e) = check_movement(amount, self.is_paused()) {
            return Err(TreasuryFailure::Contract(e));
        }
        let admin = match self.get_admin() {
            Err(e) => return Err(TreasuryFailure::Contract(e)),
            Ok(a) => a,
        };
        if !env.is_authorized(admin) {
            return Err(TreasuryFailure::Unauthorized(admin));
        }
        let min_balance = self.get_min_balance();
        let token = match self.get_token() {
            Err(e) => return Err(TreasuryFailure::Contract(e)),
            Ok(t) => t,
        };
        if let Err(e) = check_withdrawal(treasury_balance, amount, min_balance) {
            return Err(TreasuryFailure::Contract(e));
        }
        let contract = env.current_contract;
        let event = ContractEvent::Withdraw { to, amount, token };
        let query = TokenCall::Balance { token, account: contract };
        let transfer = TokenCall::Transfer { token, from: contract, to, amount };
        let events = vec![event];
        let calls = vec![query, transfer];
        assert(events@ =~= seq![event]);
        assert(calls@ =~= seq![query, transfer]);
        env.record(events, calls);
        Ok(())
    }

    /// The admin, or `NotInitialized`.
    pub fn get_admin(&self) -> (r: Result<Address, TreasuryError>)
        ensures
            r == (match self@.admin {
                Some(a) => Ok::<Address, TreasuryError>(a),
                None => Err(TreasuryError::NotInitialized),
            }),
    {
        match self.admin {
            Some(a) => Ok(a),
            None => Err(TreasuryError::NotInitialized),
        }
    }

    /// The token, or `NotInitialized`.
    pub fn get_token(&self) -> (r: Result<Address, TreasuryError>)
        ensures
            r == (match self@.token {
                Some(t) => Ok::<Address, TreasuryError>(t),
                None => Err(TreasuryError::NotInitialized),
            }),
    {
        match self.token {
            Some(t) => Ok(t),
            None => Err(TreasuryError::NotInitialized),
        }
    }

    /// The minimum balance, zero when never set.
    pub fn get_min_balance(&self) -> (r: i128)
        ensures
            r == self@.min_balance_or_zero(),
    {
        match self.min_balance {
            Some(m) => m,
            None => 0,
        }
    }

    /// Whether deposits and withdrawals are paused, false when never set.
    pub fn is_paused(&self) -> (r: bool)
        ensures
            r == self@.is_paused(),
    {
        match self.paused {
            Some(p) => p,
            None => false,
        }
    }
}

} // verus!
