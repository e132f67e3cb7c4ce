//! The context a contract invocation runs in: the ledger it sees, the
//! addresses that signed for it, and what it asks of the outside world
//! (events it publishes and calls it makes to the payment token).
use vstd::prelude::*;

use crate::events::{
    AdminTransferredEvent, ContentPriceSetEvent, MaxPriceClearedEvent, MaxPriceSetEvent,
};

verus! {

/// An account or contract, identified by a number.
#[derive(Clone, Copy, Debug, PartialEq, Eq, Structural)]
pub struct Address {
    pub id: u64,
}

/// An event that a contract publishes.
#[derive(Clone, Copy, Debug, PartialEq, Eq, Structural)]
pub enum ContractEvent {
    /// A buyer paid `price` to `creator` for `content_id`.
    ContentUnlocked { buyer: Address, creator: Address, content_id: u64, price: i128 },
    ContentPriceSet(ContentPriceSetEvent),
    MaxPriceSet(MaxPriceSetEvent),
    MaxPriceCleared(MaxPriceClearedEvent),
    AdminTransferred(AdminTransferredEvent),
    /// `from` moved `amount` of `token` into the treasury.
    Deposit { from: Address, amount: i128, token: Address },
    /// The treasury paid `amount` of `token` to `to`.
    Withdraw { to: Address, amount: i128, token: Address },
}

/// A call that a contract makes on the payment token contract.
#[derive(Clone, Copy, Debug, PartialEq, Eq, Structural)]
pub enum TokenCall {
    /// Ask `token` for the balance of `account`.
    Balance { token: Address, account: Address },
    /// Ask `token` to move `amount` from `from` to `to`.
    Transfer { token: Address, from: Address, to: Address, amount: i128 },
}

/// What a successful invocation leaves behind: the contract's new state,
/// the events it published and the token calls it made, in order.
///
/// The token calls are requests to another contract. On the host the step
/// takes effect only if each of them succeeds: a token call that fails (an
/// address that is no token, a transfer the token refuses) reverts the whole
/// invocation, state, events and all. What the token does is not modelled.
pub struct Step<S> {
    pub state: S,
    pub events: Seq<ContractEvent>,
    pub calls: Seq<TokenCall>,
}

/// An invocation whose effect on the contract state is given by `expected`
/// ended with `r`, taking the state from `old_state` to `new_state` and the
/// host context from `old_env` to `new_env`: on success it took the step
/// that `expected` gives, and on failure it returned that failure and
/// changed nothing. A successful step still depends on its recorded token
/// calls succeeding on the host (see [`Step`]).
pub open spec fn settles<S, T, F>(
    expected: Result<Step<S>, F>,
    r: Result<T, F>,
    old_state: S,
    new_state: S,
    old_env: Env,
    new_env: Env,
) -> bool {
    match expected {
        Ok(step) => {
            &&& r is Ok
            &&& new_state == step.state
            &&& new_env.records(old_env, step.events, step.calls)
        },
        Err(f) => {
            &&& r == Err::<T, F>(f)
            &&& new_state == old_state
            &&& new_env == old_env
        },
    }
}

/// The host context of one invocation.
///
/// A rejected invocation leaves it untouched: its events and token calls
/// are only recorded when the invocation succeeds.
pub struct Env {
    /// The ledger sequence number the invocation runs at.
    pub ledger_sequence: u32,
    /// The contract being invoked.
    pub current_contract: Address,
    /// The addresses that authorized this invocation.
    pub signers: Vec<Address>,
    /// Events published so far.
    pub events: Vec<ContractEvent>,
    /// Token calls made so far.
    pub token_calls: Vec<TokenCall>,
}

impl Env {
    /// Whether `who` authorized this invocation.
    pub open spec fn authorizes(self, who: Address) -> bool {
        self.signers@.contains(who)
    }

    /// `self` is `prev` with `events` and `calls` appended and nothing else changed.
    pub open spec fn records(self, prev: Env, events: Seq<ContractEvent>, calls: Seq<TokenCall>) -> bool {
        &&& self.ledger_sequence == prev.ledger_sequence
        &&& self.current_contract == prev.current_contract
        &&& self.signers@ == prev.signers@
        &&& self.events@ == prev.events@ + events
        &&& self.token_calls@ == prev.token_calls@ + calls
    }

    /// A context at `ledger_sequence` for `current_contract`, with no signers,
    /// events or calls.
    pub fn new(current_contract: Address, ledger_sequence: u32) -> (r: Env)
        ensures
            r.ledger_sequence == ledger_sequence,
            r.current_contract == current_contract,
            r.signers@ == Seq::<Address>::empty(),
            r.events@ == Seq::<ContractEvent>::empty(),
            r.token_calls@ == Seq::<TokenCall>::empty(),
    {
        Env {
            ledger_sequence,
            current_contract,
            signers: Vec::new(),
            events: Vec::new(),
            token_calls: Vec::new(),
        }
    }

    /// Checks that `who` authorized this invocation.
    pub fn is_authorized(&self, who: Address) -> (r: bool)
        ensures
            r == self.authorizes(who),
    {
        let mut i: usize = 0;
        while i < self.signers.len()
            invariant
                i <= self.signers@.len(),
                forall|j: int| 0 <= j < i ==> self.signers@[j] != who,
            decreases self.signers@.len() - i,
        {
            if self.signers[i].id == who.id {
                assert(self.signers@[i as int] == who);
                return true;
            }
            i = i + 1;
        }
        false
    }

    /// Appending nothing leaves a context as it was.
    pub proof fn lemma_records_nothing(self)
        ensures
            self.records(self, Seq::empty(), Seq::empty()),
    {
        assert(self.events@ + Seq::empty() =~= self.events@);
        assert(self.token_calls@ + Seq::empty() =~= self.token_calls@);
    }

    /// Records a successful invocation's events and token calls.
    pub fn record(&mut self, events: Vec<ContractEvent>, calls: Vec<TokenCall>)
        ensures
            final(self).records(*old(self), events@, calls@),
    {
        let mut events = events;
        let mut calls = calls;
        self.events.append(&mut events);
        self.token_calls.append(&mut calls);
    }
}

} // verus!
