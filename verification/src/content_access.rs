//! The content-access contract: creators price their content, buyers pay
//! the creator in the configured token to unlock it until an expiry
//! ledger, and an admin may cap prices.
use vstd::prelude::*;

use crate::events::{
    AdminTransferredEvent, ContentPriceSetEvent, MaxPriceClearedEvent, MaxPriceSetEvent,
};
use crate::host::{settles, Address, ContractEvent, Env, Step, TokenCall};
use crate::store::{KeyedStore, StoreKey};

verus! {

/// Metadata for a piece of content in a creator's catalog.
#[derive(Clone, Copy, Debug, PartialEq, Eq, Structural)]
pub struct ContentInfo {
    /// Price in the contract's configured token (smallest unit).
    pub price: i128,
    /// Whether the content is currently available for purchase.
    pub is_active: bool,
}

/// A purchase record stored per (buyer, creator, content_id).
/// The purchase gives access while the ledger sequence is below `expiry`;
/// `u64::MAX` means it never expires.
#[derive(Clone, Copy, Debug, PartialEq, Eq, Structural)]
pub struct Purchase {
    /// Ledger sequence at which this purchase expires (exclusive).
    pub expiry: u64,
}

/// Error codes of the content-access contract. Their numbers (see
/// [`error_code`]) are stable and part of the public client API.
#[derive(Clone, Copy, Debug, PartialEq, Eq, Structural)]
pub enum Error {
    /// Code 1: the contract was already initialized.
    AlreadyInitialized,
    /// Code 2: no price registered for (creator, content_id).
    ContentPriceNotSet,
    /// Code 3: the contract was never initialized.
    NotInitialized,
    /// Code 4: the purchase record exists but its expiry ledger has passed.
    PurchaseExpired,
    /// Code 6: no purchase record for the claimer.
    NotBuyer,
}

/// The stable number of each error.
pub open spec fn error_code(e: Error) -> u32 {
    match e {
        Error::AlreadyInitialized => 1,
        Error::ContentPriceNotSet => 2,
        Error::NotInitialized => 3,
        Error::PurchaseExpired => 4,
        Error::NotBuyer => 6,
    }
}

impl Error {
    /// The stable number of this error.
    pub fn code(&self) -> (r: u32)
        ensures
            r == error_code(*self),
    {
        match self {
            Error::AlreadyInitialized => 1,
            Error::ContentPriceNotSet => 2,
            Error::NotInitialized => 3,
            Error::PurchaseExpired => 4,
            Error::NotBuyer => 6,
        }
    }
}

/// Why an invocation of the content-access contract is rejected. A rejected
/// invocation changes nothing.
#[derive(Clone, Copy, Debug, PartialEq, Eq, Structural)]
pub enum Failure {
    /// The contract raised one of its error codes.
    Contract(Error),
    /// The given address did not authorize the invocation.
    Unauthorized(Address),
    /// The contract has no admin or no payment token configured.
    Uninitialized,
    /// A content price must be positive.
    NonPositivePrice,
    /// A content price may not exceed the configured maximum.
    PriceAboveMax,
    /// A maximum price must be positive, or zero to remove the cap.
    NegativeMaxPrice,
    /// An expiry ledger of zero would be expired at once.
    ZeroExpiry,
}

/// Identifies a purchase record.
#[derive(Clone, Copy, Debug, PartialEq, Eq, Structural)]
pub struct AccessKey {
    pub buyer: Address,
    pub creator: Address,
    pub content_id: u64,
}

/// Identifies a content price.
#[derive(Clone, Copy, Debug, PartialEq, Eq, Structural)]
pub struct PriceKey {
    pub creator: Address,
    pub content_id: u64,
}

impl StoreKey for AccessKey {
    fn same(&self, other: &Self) -> (r: bool) {
        self.buyer.id == other.buyer.id && self.creator.id == other.creator.id
            && self.content_id == other.content_id
    }
}

impl StoreKey for PriceKey {
    fn same(&self, other: &Self) -> (r: bool) {
        self.creator.id == other.creator.id && self.content_id == other.content_id
    }
}

/// Whether a purchase record gives access at ledger `ledger_sequence`:
/// `NotBuyer` without a record, `PurchaseExpired` once the expiry is reached.
pub open spec fn access_result(record: Option<Purchase>, ledger_sequence: u32) -> Result<(), Error> {
    match record {
        None => Err(Error::NotBuyer),
        Some(p) => if p.expiry <= ledger_sequence {
            Err(Error::PurchaseExpired)
        } else {
            Ok(())
        },
    }
}

/// What an unlock does once the buyer has authorized it, given the existing
/// record, the stored price and whether a payment token is configured:
/// `Ok(None)` when a live purchase already exists, `Ok(Some(price))` when the
/// buyer is to be charged `price`.
///
/// The checks come in this order: a live purchase makes the call a no-op
/// (unless the expiry ledger is zero); otherwise a missing price fails with
/// `ContentPriceNotSet`, a missing token with `Uninitialized`, and only then
/// an expiry ledger of zero, which would be expired at once, with `ZeroExpiry`.
pub open spec fn unlock_plan(
    existing: Option<Purchase>,
    price: Option<i128>,
    token_configured: bool,
    ledger_sequence: u32,
    expiry_ledger: u64,
) -> Result<Option<i128>, Failure> {
    if access_result(existing, ledger_sequence) is Ok {
        if expiry_ledger == 0 {
            Err(Failure::ZeroExpiry)
        } else {
            Ok(None)
        }
    } else {
        match price {
            None => Err(Failure::Contract(Error::ContentPriceNotSet)),
            Some(p) => if !token_configured {
                Err(Failure::Uninitialized)
            } else if expiry_ledger == 0 {
                Err(Failure::ZeroExpiry)
            } else {
                Ok(Some(p))
            },
        }
    }
}

/// Whether `price` may be set while the cap is `max_price`.
pub open spec fn price_check(price: i128, max_price: Option<i128>) -> Result<(), Failure> {
    if price <= 0 {
        Err(Failure::NonPositivePrice)
    } else if max_price is Some && price > max_price->0 {
        Err(Failure::PriceAboveMax)
    } else {
        Ok(())
    }
}

/// The cap that `set_max_price(max_price)` leaves: zero removes it.
pub open spec fn max_price_update(max_price: i128) -> Result<Option<i128>, Failure> {
    if max_price == 0 {
        Ok(None)
    } else if max_price < 0 {
        Err(Failure::NegativeMaxPrice)
    } else {
        Ok(Some(max_price))
    }
}

/// Checks a purchase record against the ledger sequence.
pub fn check_access(record: Option<Purchase>, ledger_sequence: u32) -> (r: Result<(), Error>)
    ensures
        r == access_result(record, ledger_sequence),
{
    match record {
        None => Err(Error::NotBuyer),
        Some(p) => if p.expiry <= ledger_sequence as u64 {
            Err(Error::PurchaseExpired)
        } else {
            Ok(())
        },
    }
}

/// Decides an authorized unlock from the existing record and the stored price.
pub fn plan_unlock(
    existing: Option<Purchase>,
    price: Option<i128>,
    token_configured: bool,
    ledger_sequence: u32,
    expiry_ledger: u64,
) -> (r: Result<Option<i128>, Failure>)
    ensures
        r == unlock_plan(existing, price, token_configured, ledger_sequence, expiry_ledger),
{
    if check_access(existing, ledger_sequence).is_ok() {
        if expiry_ledger == 0 {
            return Err(Failure::ZeroExpiry);
        }
        return Ok(None);
    }
    match price {
        None => Err(Failure::Contract(Error::ContentPriceNotSet)),
        Some(p) => if !token_configured {
            Err(Failure::Uninitialized)
        } else if expiry_ledger == 0 {
            Err(Failure::ZeroExpiry)
        } else {
            Ok(Some(p))
        },
    }
}

/// Checks a new content price against the cap.
pub fn check_price(price: i128, max_price: Option<i128>) -> (r: Result<(), Failure>)
    ensures
        r == price_check(price, max_price),
{
    if price <= 0 {
        return Err(Failure::NonPositivePrice);
    }
    match max_price {
        Some(m) => if price > m {
            Err(Failure::PriceAboveMax)
        } else {
            Ok(())
        },
        None => Ok(()),
    }
}

/// The cap to store for a `set_max_price(max_price)` request.
pub fn plan_max_price(max_price: i128) -> (r: Result<Option<i128>, Failure>)
    ensures
        r == max_price_update(max_price),
{
    if max_price == 0 {
        Ok(None)
    } else if max_price < 0 {
        Err(Failure::NegativeMaxPrice)
    } else {
        Ok(Some(max_price))
    }
}

/// The stored state of the content-access contract.
pub struct ContentAccessState {
    pub admin: Option<Address>,
    pub token: Option<Address>,
    pub max_price: Option<i128>,
    pub purchases: Map<AccessKey, Purchase>,
    pub prices: Map<PriceKey, i128>,
}

impl ContentAccessState {
    /// The purchase record of `buyer` for `creator`'s `content_id`.
    pub open spec fn purchase_of(self, buyer: Address, creator: Address, content_id: u64) -> Option<Purchase> {
        let k = AccessKey { buyer, creator, content_id };
        if self.purchases.contains_key(k) {
            Some(self.purchases[k])
        } else {
            None
        }
    }

    /// The stored price of `creator`'s `content_id`.
    pub open spec fn price_of(self, creator: Address, content_id: u64) -> Option<i128> {
        let k = PriceKey { creator, content_id };
        if self.prices.contains_key(k) {
            Some(self.prices[k])
        } else {
            None
        }
    }

    /// Whether `buyer` holds a live purchase of `creator`'s `content_id` at
    /// ledger `ledger_sequence`.
    pub open spec fn has_access(self, buyer: Address, creator: Address, content_id: u64, ledger_sequence: u32) -> bool {
        access_result(self.purchase_of(buyer, creator, content_id), ledger_sequence) is Ok
    }

    /// The effect of `initialize(admin, token_address)`. The token is asked
    /// for the admin's balance, which fails the invocation if it is no token.
    pub open spec fn after_initialize(self, env: Env, admin: Address, token_address: Address) -> Result<Step<ContentAccessState>, Failure> {
        if !env.authorizes(admin) {
            Err(Failure::Unauthorized(admin))
        } else if self.admin is Some {
            Err(Failure::Contract(Error::AlreadyInitialized))
        } else {
            Ok(Step {
                state: ContentAccessState { admin: Some(admin), token: Some(token_address), ..self },
                events: Seq::empty(),
                calls: seq![TokenCall::Balance { token: token_address, account: admin }],
            })
        }
    }

    /// The effect of `unlock_content(buyer, creator, content_id, expiry_ledger)`.
    pub open spec fn after_unlock(self, env: Env, buyer: Address, creator: Address, content_id: u64, expiry_ledger: u64) -> Result<Step<ContentAccessState>, Failure> {
        if !env.authorizes(buyer) {
            Err(Failure::Unauthorized(buyer))
        } else {
            match unlock_plan(
                self.purchase_of(buyer, creator, content_id),
                self.price_of(creator, content_id),
                self.token is Some,
                env.ledger_sequence,
                expiry_ledger,
            ) {
                Err(f) => Err(f),
                Ok(None) => Ok(Step { state: self, events: Seq::empty(), calls: Seq::empty() }),
                Ok(Some(price)) => match self.token {
                    None => Err(Failure::Uninitialized),
                    Some(token) => Ok(Step {
                        state: ContentAccessState {
                            purchases: self.purchases.insert(
                                AccessKey { buyer, creator, content_id },
                                Purchase { expiry: expiry_ledger },
                            ),
                            ..self
                        },
                        events: seq![ContractEvent::ContentUnlocked { buyer, creator, content_id, price }],
                        calls: seq![TokenCall::Transfer { token, from: buyer, to: creator, amount: price }],
                    }),
                },
            }
        }
    }

    /// The effect of `set_content_price(creator, content_id, price)`.
    pub open spec fn after_set_content_price(self, env: Env, creator: Address, content_id: u64, price: i128) -> Result<Step<ContentAccessState>, Failure> {
        if !env.authorizes(creator) {
            Err(Failure::Unauthorized(creator))
        } else {
            match price_check(price, self.max_price) {
                Err(f) => Err(f),
                Ok(_) => Ok(Step {
                    state: ContentAccessState {
                        prices: self.prices.insert(PriceKey { creator, content_id }, price),
                        ..self
                    },
                    events: seq![ContractEvent::ContentPriceSet(ContentPriceSetEvent { creator, content_id, price })],
                    calls: Seq::empty(),
                }),
            }
        }
    }

    /// The effect of `set_max_price(max_price)`.
    pub open spec fn after_set_max_price(self, env: Env, max_price: i128) -> Result<Step<ContentAccessState>, Failure> {
        match self.admin {
            None => Err(Failure::Uninitialized),
            Some(admin) => if !env.authorizes(admin) {
                Err(Failure::Unauthorized(admin))
            } else {
                match max_price_update(max_price) {
                    Err(f) => Err(f),
                    Ok(None) => Ok(Step {
                        state: ContentAccessState { max_price: None, ..self },
                        events: seq![ContractEvent::MaxPriceCleared(MaxPriceClearedEvent { cleared_by: admin })],
                        calls: Seq::empty(),
                    }),
                    Ok(Some(m)) => Ok(Step {
                        state: ContentAccessState { max_price: Some(m), ..self },
                        events: seq![ContractEvent::MaxPriceSet(MaxPriceSetEvent { price: m, set_by: admin })],
                        calls: Seq::empty(),
                    }),
                }
            },
        }
    }

    /// The effect of `set_admin(new_admin)`.
    pub open spec fn after_set_admin(self, env: Env, new_admin: Address) -> Result<Step<ContentAccessState>, Failure> {
        match self.admin {
            None => Err(Failure::Contract(Error::NotInitialized)),
            Some(admin) => if !env.authorizes(admin) {
                Err(Failure::Unauthorized(admin))
            } else {
                Ok(Step {
                    state: ContentAccessState { admin: Some(new_admin), ..self },
                    events: seq![ContractEvent::AdminTransferred(AdminTransferredEvent { old_admin: admin, new_admin })],
                    calls: Seq::empty(),
                })
            },
        }
    }
}

/// A state-changing invocation of the content-access contract, with its
/// arguments.
pub enum ContentAccessCall {
    Initialize { admin: Address, token_address: Address },
    UnlockContent { buyer: Address, creator: Address, content_id: u64, expiry_ledger: u64 },
    SetContentPrice { creator: Address, content_id: u64, price: i128 },
    SetMaxPrice { max_price: i128 },
    SetAdmin { new_admin: Address },
}

impl ContentAccessState {
    /// The state after invoking `call` in `env`: the step's state on
    /// success, the same state on failure.
    pub open spec fn after_call(self, env: Env, call: ContentAccessCall) -> ContentAccessState {
        let r = match call {
            ContentAccessCall::Initialize { admin, token_address } => self.after_initialize(env, admin, token_address),
            ContentAccessCall::UnlockContent { buyer, creator, content_id, expiry_ledger } =>
                self.after_unlock(env, buyer, creator, content_id, expiry_ledger),
            ContentAccessCall::SetContentPrice { creator, content_id, price } =>
                self.after_set_content_price(env, creator, content_id, price),
            ContentAccessCall::SetMaxPrice { max_price } => self.after_set_max_price(env, max_price),
            ContentAccessCall::SetAdmin { new_admin } => self.after_set_admin(env, new_admin),
        };
        match r {
            Ok(step) => step.state,
            Err(_) => self,
        }
    }

    /// The state after invoking `calls` in order, each in its own context.
    pub open spec fn after_calls(self, calls: Seq<(Env, ContentAccessCall)>) -> ContentAccessState
        decreases calls.len(),
    {
        if calls.len() == 0 {
            self
        } else {
            self.after_calls(calls.drop_last()).after_call(calls.last().0, calls.last().1)
        }
    }
}

/// The content-access contract and its stored state.
pub struct ContentAccess {
    admin: Option<Address>,
    token: Option<Address>,
    max_price: Option<i128>,
    purchases: KeyedStore<AccessKey, Purchase>,
    prices: KeyedStore<PriceKey, i128>,
}

impl View for ContentAccess {
    type V = ContentAccessState;

    closed spec fn view(&self) -> ContentAccessState {
        ContentAccessState {
            admin: self.admin,
            token: self.token,
            max_price: self.max_price,
            purchases: self.purchases@,
            prices: self.prices@,
        }
    }
}

impl ContentAccess {
    /// A freshly deployed contract: nothing stored.
    pub fn new() -> (r: ContentAccess)
        ensures
            r@.admin is None,
            r@.token is None,
            r@.max_price is None,
            r@.purchases == Map::<AccessKey, Purchase>::empty(),
            r@.prices == Map::<PriceKey, i128>::empty(),
    {
        ContentAccess {
            admin: None,
            token: None,
            max_price: None,
            purchases: KeyedStore::new(),
            prices: KeyedStore::new(),
        }
    }

    /// Initializes the contract with its admin and payment token. The admin
    /// must authorize; a second initialization fails with `AlreadyInitialized`.
    pub fn initialize(&mut self, env: &mut Env, admin: Address, token_address: Address) -> (r: Result<(), Failure>)
        ensures
            settles(old(self)@.after_initialize(*old(env), admin, token_address), r, old(self)@, final(self)@, *old(env), *final(env)),
    {
        if !env.is_authorized(admin) {
            return Err(Failure::Unauthorized(admin));
        }
        if self.admin.is_some() {
            return Err(Failure::Contract(Error::AlreadyInitialized));
        }
        self.admin = Some(admin);
        self.token = Some(token_address);
        let calls = vec![TokenCall::Balance { token: token_address, account: admin }];
        assert(calls@ =~= seq![TokenCall::Balance { token: token_address, account: admin }]);
        env.record(Vec::new(), calls);
        assert(final(self)@ == old(self)@.after_initialize(*old(env), admin, token_address)->Ok_0.state);
        Ok(())
    }

    /// Unlocks content for `buyer` by paying the stored price to `creator`.
    /// The buyer must authorize. A live purchase makes the call a no-op; an
    /// expired one is renewed. An expiry ledger of zero is rejected, after the
    /// price and token checks when a purchase would be made (see [`unlock_plan`]).
    pub fn unlock_content(
        &mut self,
        env: &mut Env,
        buyer: Address,
        creator: Address,
        content_id: u64,
        expiry_ledger: u64,
    ) -> (r: Result<(), Failure>)
        ensures
            settles(old(self)@.after_unlock(*old(env), buyer, creator, content_id, expiry_ledger), r, old(self)@, final(self)@, *old(env), *final(env)),
    {
        if !env.is_authorized(buyer) {
            return Err(Failure::Unauthorized(buyer));
        }
        let key = AccessKey { buyer, creator, content_id };
        let existing = self.purchases.get(&key);
        let price = self.prices.get(&PriceKey { creator, content_id });
        match plan_unlock(existing, price, self.token.is_some(), env.ledger_sequence, expiry_ledger) {
            Err(f) => Err(f),
            Ok(None) => {
                proof {
                    env.lemma_records_nothing();
                }
                Ok(())
            },
            Ok(Some(price)) => match self.token {
                None => Err(Failure::Uninitialized),
                Some(token) => {
                    self.purchases.insert(key, Purchase { expiry: expiry_ledger });
                    let event = ContractEvent::ContentUnlocked { buyer, creator, content_id, price };
                    let call = TokenCall::Transfer { token, from: buyer, to: creator, amount: price };
                    let events = vec![event];
                    let calls = vec![call];
                    assert(events@ =~= seq![event]);
                    assert(calls@ =~= seq![call]);
                    env.record(events, calls);
                    assert(final(self)@ == old(self)@.after_unlock(*old(env), buyer, creator, content_id, expiry_ledger)->Ok_0.state);
                    Ok(())
                },
            },
        }
    }

    /// Whether `buyer` holds a live purchase of `creator`'s `content_id`.
    pub fn has_access(&self, env: &Env, buyer: Address, creator: Address, content_id: u64) -> (r: bool)
        ensures
            r == self@.has_access(buyer, creator, content_id, env.ledger_sequence),
    {
        let record = self.purchases.get(&AccessKey { buyer, creator, content_id });
        check_access(record, env.ledger_sequence).is_ok()
    }

    /// Verifies that `claimer` bought `creator`'s `content_id` and that the
    /// purchase has not expired.
    pub fn verify_access(&self, env: &Env, claimer: Address, creator: Address, content_id: u64) -> (r: Result<(), Error>)
        ensures
            r == access_result(self@.purchase_of(claimer, creator, content_id), env.ledger_sequence),
    {
        let record = self.purchases.get(&AccessKey { buyer: claimer, creator, content_id });
        check_access(record, env.ledger_sequence)
    }

    /// The price of `creator`'s `content_id`, if one was set.
    pub fn get_content_price(&self, creator: Address, content_id: u64) -> (r: Option<i128>)
        ensures
            r == self@.price_of(creator, content_id),
    {
        self.prices.get(&PriceKey { creator, content_id })
    }

    /// Sets the price of a creator's content. The creator must authorize;
    /// the price must be positive and within the cap.
    pub fn set_content_price(&mut self, env: &mut Env, creator: Address, content_id: u64, price: i128) -> (r: Result<(), Failure>)
        ensures
            settles(old(self)@.after_set_content_price(*old(env), creator, content_id, price), r, old(self)@, final(self)@, *old(env), *final(env)),
    {
        if !env.is_authorized(creator) {
            return Err(Failure::Unauthorized(creator));
        }
        match check_price(price, self.max_price) {
            Err(f) => Err(f),
            Ok(()) => {
                self.prices.insert(PriceKey { creator, content_id }, price);
                let event = ContractEvent::ContentPriceSet(ContentPriceSetEvent { creator, content_id, price });
                let events = vec![event];
                assert(events@ =~= seq![event]);
                env.record(events, Vec::new());
                assert(final(self)@ == old(self)@.after_set_content_price(*old(env), creator, content_id, price)->Ok_0.state);
                Ok(())
            },
        }
    }

    /// Sets the global price cap; zero removes it. Only the admin may call this.
    pub fn set_max_price(&mut self, env: &mut Env, max_price: i128) -> (r: Result<(), Failure>)
        ensures
            settles(old(self)@.after_set_max_price(*old(env), max_price), r, old(self)@, final(self)@, *old(env), *final(env)),
    {
        let admin = match self.admin {
            None => return Err(Failure::Uninitialized),
            Some(a) => a,
        };
        if !env.is_authorized(admin) {
            return Err(Failure::Unauthorized(admin));
        }
        match plan_max_price(max_price) {
            Err(f) => Err(f),
            Ok(None) => {
                self.max_price = None;
                let event = ContractEvent::MaxPriceCleared(MaxPriceClearedEvent { cleared_by: admin });
                let events = vec![event];
                assert(events@ =~= seq![event]);
                env.record(events, Vec::new());
                Ok(())
            },
            Ok(Some(m)) => {
                self.max_price = Some(m);
                let event = ContractEvent::MaxPriceSet(MaxPriceSetEvent { price: m, set_by: admin });
                let events = vec![event];
                assert(events@ =~= seq![event]);
                env.record(events, Vec::new());
                Ok(())
            },
        }
    }

    /// The configured price cap, if any.
    pub fn get_max_price(&self) -> (r: Option<i128>)
        ensures
            r == self@.max_price,
    {
        self.max_price
    }

    /// Hands the admin role to `new_admin`. The current admin must authorize.
    pub fn set_admin(&mut self, env: &mut Env, new_admin: Address) -> (r: Result<(), Failure>)
        ensures
            settles(old(self)@.after_set_admin(*old(env), new_admin), r, old(self)@, final(self)@, *old(env), *final(env)),
    {
        let admin = match self.admin {
            None => return Err(Failure::Contract(Error::NotInitialized)),
            Some(a) => a,
        };
        if !env.is_authorized(admin) {
            return Err(Failure::Unauthorized(admin));
        }
        self.admin = Some(new_admin);
        let event = ContractEvent::AdminTransferred(AdminTransferredEvent { old_admin: admin, new_admin });
        let events = vec![event];
        assert(events@ =~= seq![event]);
        env.record(events, Vec::new());
        Ok(())
    }

    /// The configured admin.
    pub fn admin(&self) -> (r: Result<Address, Error>)
        ensures
            r == (match self@.admin {
                Some(a) => Ok::<Address, Error>(a),
                None => Err(Error::NotInitialized),
            }),
    {
        match self.admin {
            Some(a) => Ok(a),
            None => Err(Error::NotInitialized),
        }
    }
}

} // verus!
