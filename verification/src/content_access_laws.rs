//! Laws of the content-access contract, stated over the effects that its
//! operations are specified to have.
use vstd::prelude::*;

use crate::content_access::{
    access_result, error_code, max_price_update, price_check, unlock_plan, AccessKey,
    ContentAccessCall, ContentAccessState, Error, Failure, PriceKey, Purchase,
};
use crate::events::{AdminTransferredEvent, ContentPriceSetEvent, MaxPriceClearedEvent, MaxPriceSetEvent};
use crate::host::{Address, ContractEvent, Env, Step, TokenCall};

verus! {

/// A successful unlock whose expiry lies beyond the current ledger leaves the
/// buyer with access to the content at that ledger.
pub proof fn lemma_unlock_grants_access(
    s: ContentAccessState,
    env: Env,
    buyer: Address,
    creator: Address,
    content_id: u64,
    expiry_ledger: u64,
)
    requires
        s.after_unlock(env, buyer, creator, content_id, expiry_ledger) is Ok,
        expiry_ledger > env.ledger_sequence,
    ensures
        s.after_unlock(env, buyer, creator, content_id, expiry_ledger)->Ok_0.state.has_access(
            buyer,
            creator,
            content_id,
            env.ledger_sequence,
        ),
{
}

/// An unlock changes at most the purchase record of its own
/// (buyer, creator, content_id): every other record, the prices, the admin,
/// the token and the cap stay as they were.
pub proof fn lemma_unlock_touches_only_its_record(
    s: ContentAccessState,
    env: Env,
    buyer: Address,
    creator: Address,
    content_id: u64,
    expiry_ledger: u64,
    other_buyer: Address,
    other_creator: Address,
    other_content_id: u64,
)
    requires
        s.after_unlock(env, buyer, creator, content_id, expiry_ledger) is Ok,
        other_buyer != buyer || other_creator != creator || other_content_id != content_id,
    ensures
        ({
            let t = s.after_unlock(env, buyer, creator, content_id, expiry_ledger)->Ok_0.state;
            &&& t.purchase_of(other_buyer, other_creator, other_content_id) == s.purchase_of(
                other_buyer,
                other_creator,
                other_content_id,
            )
            &&& t.prices == s.prices
            &&& t.admin == s.admin
            &&& t.token == s.token
            &&& t.max_price == s.max_price
        }),
{
    let k = AccessKey { buyer: other_buyer, creator: other_creator, content_id: other_content_id };
    assert(k != AccessKey { buyer, creator, content_id });
}

/// Unlocking content the buyer already holds a live purchase of changes
/// nothing, publishes nothing and charges nothing.
pub proof fn lemma_live_purchase_makes_unlock_a_no_op(
    s: ContentAccessState,
    env: Env,
    buyer: Address,
    creator: Address,
    content_id: u64,
    expiry_ledger: u64,
)
    requires
        env.authorizes(buyer),
        expiry_ledger != 0,
        s.has_access(buyer, creator, content_id, env.ledger_sequence),
    ensures
        s.after_unlock(env, buyer, creator, content_id, expiry_ledger) == Ok::<Step<ContentAccessState>, Failure>(
            Step { state: s, events: Seq::empty(), calls: Seq::empty() },
        ),
{
}

/// Unlocking twice is the same as unlocking once: after a successful unlock
/// whose expiry lies beyond the ledger, repeating it (at that ledger or an
/// earlier one) changes nothing, publishes nothing and charges nothing.
pub proof fn lemma_unlock_idempotent(
    s: ContentAccessState,
    env: Env,
    env2: Env,
    buyer: Address,
    creator: Address,
    content_id: u64,
    expiry_ledger: u64,
)
    requires
        s.after_unlock(env, buyer, creator, content_id, expiry_ledger) is Ok,
        expiry_ledger > env.ledger_sequence,
        env2.authorizes(buyer),
        env2.ledger_sequence <= env.ledger_sequence,
    ensures
        ({
            let t = s.after_unlock(env, buyer, creator, content_id, expiry_ledger)->Ok_0.state;
            t.after_unlock(env2, buyer, creator, content_id, expiry_ledger) == Ok::<Step<ContentAccessState>, Failure>(
                Step { state: t, events: Seq::empty(), calls: Seq::empty() },
            )
        }),
{
    lemma_unlock_grants_access(s, env, buyer, creator, content_id, expiry_ledger);
    let t = s.after_unlock(env, buyer, creator, content_id, expiry_ledger)->Ok_0.state;
    assert(t.has_access(buyer, creator, content_id, env2.ledger_sequence));
    lemma_live_purchase_makes_unlock_a_no_op(t, env2, buyer, creator, content_id, expiry_ledger);
}

/// A buyer without a live purchase who unlocks successfully pays exactly the
/// stored price to the creator, in the configured token, once; the unlock is
/// announced with that price; the new record expires at `expiry_ledger`.
pub proof fn lemma_unlock_charges_stored_price(
    s: ContentAccessState,
    env: Env,
    buyer: Address,
    creator: Address,
    content_id: u64,
    expiry_ledger: u64,
)
    requires
        s.after_unlock(env, buyer, creator, content_id, expiry_ledger) is Ok,
        !s.has_access(buyer, creator, content_id, env.ledger_sequence),
    ensures
        ({
            let step = s.after_unlock(env, buyer, creator, content_id, expiry_ledger)->Ok_0;
            &&& env.authorizes(buyer)
            &&& s.price_of(creator, content_id) is Some
            &&& s.token is Some
            &&& step.calls == seq![
                TokenCall::Transfer {
                    token: s.token->0,
                    from: buyer,
                    to: creator,
                    amount: s.price_of(creator, content_id)->0,
                },
            ]
            &&& step.events == seq![
                ContractEvent::ContentUnlocked {
                    buyer,
                    creator,
                    content_id,
                    price: s.price_of(creator, content_id)->0,
                },
            ]
            &&& step.state.purchase_of(buyer, creator, content_id) == Some(Purchase { expiry: expiry_ledger })
        }),
{
}

/// An expired purchase does not block a new one: with a price and token
/// configured, the buyer may buy again, and access is restored.
pub proof fn lemma_repurchase_after_expiry(
    s: ContentAccessState,
    env: Env,
    buyer: Address,
    creator: Address,
    content_id: u64,
    expiry_ledger: u64,
)
    requires
        s.purchase_of(buyer, creator, content_id) is Some,
        s.purchase_of(buyer, creator, content_id)->0.expiry <= env.ledger_sequence,
        s.price_of(creator, content_id) is Some,
        s.token is Some,
        env.authorizes(buyer),
        expiry_ledger > env.ledger_sequence,
    ensures
        !s.has_access(buyer, creator, content_id, env.ledger_sequence),
        s.after_unlock(env, buyer, creator, content_id, expiry_ledger) is Ok,
        s.after_unlock(env, buyer, creator, content_id, expiry_ledger)->Ok_0.state.has_access(
            buyer,
            creator,
            content_id,
            env.ledger_sequence,
        ),
{
}

/// `verify_access` and `has_access` agree: verification succeeds exactly when
/// there is a live purchase, fails with `NotBuyer` exactly when there is no
/// record, and with `PurchaseExpired` exactly when the record has expired.
pub proof fn lemma_verify_agrees_with_has_access(
    s: ContentAccessState,
    buyer: Address,
    creator: Address,
    content_id: u64,
    ledger_sequence: u32,
)
    ensures
        (access_result(s.purchase_of(buyer, creator, content_id), ledger_sequence) is Ok) == s.has_access(
            buyer,
            creator,
            content_id,
            ledger_sequence,
        ),
        (access_result(s.purchase_of(buyer, creator, content_id), ledger_sequence) == Err::<(), Error>(
            Error::NotBuyer,
        )) == (s.purchase_of(buyer, creator, content_id) is None),
        (access_result(s.purchase_of(buyer, creator, content_id), ledger_sequence) == Err::<(), Error>(
            Error::PurchaseExpired,
        )) == (s.purchase_of(buyer, creator, content_id) is Some && s.purchase_of(
            buyer,
            creator,
            content_id,
        )->0.expiry <= ledger_sequence),
{
}

/// A price that was set successfully is what `get_content_price` then
/// returns; it is positive and within the cap, and no other price changes.
pub proof fn lemma_price_read_after_write(
    s: ContentAccessState,
    env: Env,
    creator: Address,
    content_id: u64,
    price: i128,
    other_creator: Address,
    other_content_id: u64,
)
    requires
        s.after_set_content_price(env, creator, content_id, price) is Ok,
    ensures
        ({
            let t = s.after_set_content_price(env, creator, content_id, price)->Ok_0.state;
            &&& env.authorizes(creator)
            &&& t.price_of(creator, content_id) == Some(price)
            &&& price > 0
            &&& (s.max_price is Some ==> price <= s.max_price->0)
            &&& ((other_creator != creator || other_content_id != content_id) ==> t.price_of(
                other_creator,
                other_content_id,
            ) == s.price_of(other_creator, other_content_id))
            &&& t.purchases == s.purchases
        }),
{
    if other_creator != creator || other_content_id != content_id {
        assert(crate::content_access::PriceKey { creator: other_creator, content_id: other_content_id }
            != crate::content_access::PriceKey { creator, content_id });
    }
}

/// After the admin sets a positive cap, a creator's price above it is
/// rejected with `PriceAboveMax`; after the admin sets zero, there is no cap.
pub proof fn lemma_cap_limits_new_prices(
    s: ContentAccessState,
    env: Env,
    max_price: i128,
    env2: Env,
    creator: Address,
    content_id: u64,
    price: i128,
)
    requires
        s.after_set_max_price(env, max_price) is Ok,
        env2.authorizes(creator),
    ensures
        ({
            let t = s.after_set_max_price(env, max_price)->Ok_0.state;
            &&& max_price >= 0
            &&& (max_price == 0 ==> t.max_price is None)
            &&& (max_price > 0 ==> t.max_price == Some(max_price))
            &&& (max_price > 0 && price > max_price ==> t.after_set_content_price(env2, creator, content_id, price)
                == Err::<Step<ContentAccessState>, Failure>(Failure::PriceAboveMax))
        }),
{
}

/// Only the admin changes the cap or the admin: each succeeds only on an
/// initialized contract whose admin authorized the call.
pub proof fn lemma_only_admin_configures(
    s: ContentAccessState,
    env: Env,
    max_price: i128,
    new_admin: Address,
)
    ensures
        s.after_set_max_price(env, max_price) is Ok ==> s.admin is Some && env.authorizes(s.admin->0),
        s.after_set_admin(env, new_admin) is Ok ==> s.admin is Some && env.authorizes(s.admin->0),
        s.admin is Some && !env.authorizes(s.admin->0) ==> s.after_set_max_price(env, max_price)
            == Err::<Step<ContentAccessState>, Failure>(Failure::Unauthorized(s.admin->0))
            && s.after_set_admin(env, new_admin) == Err::<Step<ContentAccessState>, Failure>(
            Failure::Unauthorized(s.admin->0),
        ),
{
}

/// After a successful `set_admin`, the new admin is the admin, and a call
/// that the new admin did not authorize can no longer change it.
pub proof fn lemma_set_admin_hands_over(
    s: ContentAccessState,
    env: Env,
    new_admin: Address,
    env2: Env,
    next_admin: Address,
)
    requires
        s.after_set_admin(env, new_admin) is Ok,
        !env2.authorizes(new_admin),
    ensures
        s.after_set_admin(env, new_admin)->Ok_0.state.admin == Some(new_admin),
        s.after_set_admin(env, new_admin)->Ok_0.state.after_set_admin(env2, next_admin)
            == Err::<Step<ContentAccessState>, Failure>(Failure::Unauthorized(new_admin)),
{
}

/// The contract can be initialized once: afterwards the admin and token are
/// the configured ones, and any further authorized initialization fails
/// with `AlreadyInitialized`.
pub proof fn lemma_initialize_once(
    s: ContentAccessState,
    env: Env,
    admin: Address,
    token_address: Address,
    env2: Env,
    admin2: Address,
    token2: Address,
)
    requires
        s.after_initialize(env, admin, token_address) is Ok,
        env2.authorizes(admin2),
    ensures
        s.after_initialize(env, admin, token_address)->Ok_0.state.admin == Some(admin),
        s.after_initialize(env, admin, token_address)->Ok_0.state.token == Some(token_address),
        s.after_initialize(env, admin, token_address)->Ok_0.state.after_initialize(env2, admin2, token2)
            == Err::<Step<ContentAccessState>, Failure>(Failure::Contract(Error::AlreadyInitialized)),
{
}

/// A purchase gives access exactly while the ledger is below its expiry; one
/// that expires at `u64::MAX` gives access at every ledger.
pub proof fn lemma_access_lasts_until_expiry(
    s: ContentAccessState,
    buyer: Address,
    creator: Address,
    content_id: u64,
    ledger_sequence: u32,
)
    requires
        s.purchase_of(buyer, creator, content_id) is Some,
    ensures
        s.has_access(buyer, creator, content_id, ledger_sequence) == (ledger_sequence < s.purchase_of(
            buyer,
            creator,
            content_id,
        )->0.expiry),
        s.purchase_of(buyer, creator, content_id)->0.expiry == u64::MAX ==> s.has_access(
            buyer,
            creator,
            content_id,
            ledger_sequence,
        ),
{
}

/// An authorized unlock with expiry ledger zero is rejected with `ZeroExpiry`
/// when the buyer holds a live purchase, and when a purchase could otherwise
/// be made (price and token configured).
pub proof fn lemma_zero_expiry_rejected(
    s: ContentAccessState,
    env: Env,
    buyer: Address,
    creator: Address,
    content_id: u64,
)
    requires
        env.authorizes(buyer),
        s.has_access(buyer, creator, content_id, env.ledger_sequence) || (s.price_of(creator, content_id) is Some
            && s.token is Some),
    ensures
        s.after_unlock(env, buyer, creator, content_id, 0) == Err::<Step<ContentAccessState>, Failure>(
            Failure::ZeroExpiry,
        ),
{
}

/// Without a live purchase and without a stored price, an authorized unlock
/// fails with `ContentPriceNotSet`, whatever the expiry ledger, and changes
/// nothing.
pub proof fn lemma_missing_price_rejected(
    s: ContentAccessState,
    env: Env,
    buyer: Address,
    creator: Address,
    content_id: u64,
    expiry_ledger: u64,
)
    requires
        env.authorizes(buyer),
        !s.has_access(buyer, creator, content_id, env.ledger_sequence),
        s.price_of(creator, content_id) is None,
    ensures
        s.after_unlock(env, buyer, creator, content_id, expiry_ledger) == Err::<Step<ContentAccessState>, Failure>(
            Failure::Contract(Error::ContentPriceNotSet),
        ),
{
}

/// No single invocation, successful or not, removes the admin or changes the
/// configured token once both are set.
pub proof fn lemma_call_keeps_configuration(
    s: ContentAccessState,
    env: Env,
    call: ContentAccessCall,
    token_address: Address,
)
    requires
        s.token == Some(token_address),
        s.admin is Some,
    ensures
        s.after_call(env, call).token == Some(token_address),
        s.after_call(env, call).admin is Some,
{
}

/// Once `initialize` has succeeded, every later state, after any sequence of
/// invocations that succeed or fail, keeps the configured token and has an
/// admin.
pub proof fn lemma_configuration_persists(
    s: ContentAccessState,
    env: Env,
    admin: Address,
    token_address: Address,
    calls: Seq<(Env, ContentAccessCall)>,
)
    requires
        s.after_initialize(env, admin, token_address) is Ok,
    ensures
        s.after_initialize(env, admin, token_address)->Ok_0.state.after_calls(calls).token == Some(token_address),
        s.after_initialize(env, admin, token_address)->Ok_0.state.after_calls(calls).admin is Some,
    decreases calls.len(),
{
    let t = s.after_initialize(env, admin, token_address)->Ok_0.state;
    if calls.len() > 0 {
        lemma_configuration_persists(s, env, admin, token_address, calls.drop_last());
        lemma_call_keeps_configuration(t.after_calls(calls.drop_last()), calls.last().0, calls.last().1, token_address);
    }
}

/// An authorized invocation is exactly one that one of its signers made.
pub proof fn lemma_authorizes_means_signed(env: Env, who: Address)
    ensures
        env.authorizes(who) <==> exists|i: int| 0 <= i < env.signers@.len() && env.signers@[i] == who,
{
}

/// A purchase record gives access exactly while the ledger is below its
/// expiry; without a record the claimer is no buyer.
pub proof fn lemma_access_result_by_expiry(record: Option<Purchase>, ledger_sequence: u32)
    ensures
        record is None ==> access_result(record, ledger_sequence) == Err::<(), Error>(Error::NotBuyer),
        record is Some && ledger_sequence < record->0.expiry ==> access_result(record, ledger_sequence) == Ok::<(), Error>(()),
        record is Some && ledger_sequence >= record->0.expiry ==> access_result(record, ledger_sequence) == Err::<(), Error>(
            Error::PurchaseExpired,
        ),
{
}

/// A buyer without a live purchase, facing a stored price and a configured
/// token, is charged that price whatever the cap; a live purchase is kept.
pub proof fn lemma_unlock_plan_by_inputs(
    existing: Option<Purchase>,
    price: Option<i128>,
    token_configured: bool,
    ledger_sequence: u32,
    expiry_ledger: u64,
)
    ensures
        existing is Some && ledger_sequence < existing->0.expiry && expiry_ledger != 0 ==> unlock_plan(
            existing,
            price,
            token_configured,
            ledger_sequence,
            expiry_ledger,
        ) == Ok::<Option<i128>, Failure>(None),
        (existing is None || existing->0.expiry <= ledger_sequence) && price is Some && token_configured
            && expiry_ledger != 0 ==> unlock_plan(existing, price, token_configured, ledger_sequence, expiry_ledger)
            == Ok::<Option<i128>, Failure>(Some(price->0)),
        (existing is None || existing->0.expiry <= ledger_sequence) && price is None ==> unlock_plan(
            existing,
            price,
            token_configured,
            ledger_sequence,
            expiry_ledger,
        ) == Err::<Option<i128>, Failure>(Failure::Contract(Error::ContentPriceNotSet)),
{
}

/// An authorized buyer without a live purchase buys content that has a price,
/// once a token is configured and the expiry ledger is not zero, whatever
/// the cap: the buyer pays exactly the stored price to the creator, the
/// purchase is recorded with the requested expiry, the unlock is announced,
/// and nothing else changes.
pub proof fn lemma_priced_unlock_succeeds(
    s: ContentAccessState,
    env: Env,
    buyer: Address,
    creator: Address,
    content_id: u64,
    expiry_ledger: u64,
    price: i128,
    token: Address,
)
    requires
        env.authorizes(buyer),
        s.purchase_of(buyer, creator, content_id) is None || s.purchase_of(buyer, creator, content_id)->0.expiry
            <= env.ledger_sequence,
        s.price_of(creator, content_id) == Some(price),
        s.token == Some(token),
        expiry_ledger != 0,
    ensures
        s.after_unlock(env, buyer, creator, content_id, expiry_ledger) == Ok::<Step<ContentAccessState>, Failure>(
            Step {
                state: ContentAccessState {
                    purchases: s.purchases.insert(
                        AccessKey { buyer, creator, content_id },
                        Purchase { expiry: expiry_ledger },
                    ),
                    ..s
                },
                events: seq![ContractEvent::ContentUnlocked { buyer, creator, content_id, price }],
                calls: seq![TokenCall::Transfer { token, from: buyer, to: creator, amount: price }],
            },
        ),
{
}

/// A price is accepted exactly when it is positive and not above the cap
/// (a price equal to the cap is accepted).
pub proof fn lemma_price_check_by_inputs(price: i128, max_price: Option<i128>)
    ensures
        (price_check(price, max_price) is Ok) <==> (0 < price && (max_price is None || price <= max_price->0)),
        price <= 0 ==> price_check(price, max_price) == Err::<(), Failure>(Failure::NonPositivePrice),
        0 < price && max_price is Some && price > max_price->0 ==> price_check(price, max_price) == Err::<(), Failure>(
            Failure::PriceAboveMax,
        ),
{
}

/// A creator who authorizes sets any positive price that is not above the
/// cap: the price is stored under (creator, content_id) and announced, and
/// nothing else changes.
pub proof fn lemma_price_within_cap_is_set(
    s: ContentAccessState,
    env: Env,
    creator: Address,
    content_id: u64,
    price: i128,
)
    requires
        env.authorizes(creator),
        0 < price,
        s.max_price is None || price <= s.max_price->0,
    ensures
        s.after_set_content_price(env, creator, content_id, price) == Ok::<Step<ContentAccessState>, Failure>(
            Step {
                state: ContentAccessState { prices: s.prices.insert(PriceKey { creator, content_id }, price), ..s },
                events: seq![ContractEvent::ContentPriceSet(ContentPriceSetEvent { creator, content_id, price })],
                calls: Seq::empty(),
            },
        ),
{
}

/// A cap request of zero removes the cap, a positive one becomes the cap,
/// and only a negative one is refused.
pub proof fn lemma_max_price_update_by_inputs(max_price: i128)
    ensures
        max_price == 0 ==> max_price_update(max_price) == Ok::<Option<i128>, Failure>(None),
        max_price > 0 ==> max_price_update(max_price) == Ok::<Option<i128>, Failure>(Some(max_price)),
        max_price < 0 ==> max_price_update(max_price) == Err::<Option<i128>, Failure>(Failure::NegativeMaxPrice),
{
}

/// The admin of an initialized contract may set any non-negative cap,
/// raising or lowering whatever cap was set before: a positive value becomes
/// the cap and zero removes it; the change is announced and nothing else
/// changes.
pub proof fn lemma_admin_sets_any_cap(s: ContentAccessState, env: Env, admin: Address, max_price: i128)
    requires
        s.admin == Some(admin),
        env.authorizes(admin),
        max_price >= 0,
    ensures
        s.after_set_max_price(env, max_price) is Ok,
        max_price > 0 ==> s.after_set_max_price(env, max_price) == Ok::<Step<ContentAccessState>, Failure>(
            Step {
                state: ContentAccessState { max_price: Some(max_price), ..s },
                events: seq![ContractEvent::MaxPriceSet(MaxPriceSetEvent { price: max_price, set_by: admin })],
                calls: Seq::empty(),
            },
        ),
        max_price == 0 ==> s.after_set_max_price(env, max_price) == Ok::<Step<ContentAccessState>, Failure>(
            Step {
                state: ContentAccessState { max_price: None, ..s },
                events: seq![ContractEvent::MaxPriceCleared(MaxPriceClearedEvent { cleared_by: admin })],
                calls: Seq::empty(),
            },
        ),
{
}

/// The admin of an initialized contract may hand the role to any address;
/// the hand-over is announced and nothing else changes.
pub proof fn lemma_admin_hands_over_to_anyone(s: ContentAccessState, env: Env, admin: Address, new_admin: Address)
    requires
        s.admin == Some(admin),
        env.authorizes(admin),
    ensures
        s.after_set_admin(env, new_admin) == Ok::<Step<ContentAccessState>, Failure>(
            Step {
                state: ContentAccessState { admin: Some(new_admin), ..s },
                events: seq![ContractEvent::AdminTransferred(AdminTransferredEvent { old_admin: admin, new_admin })],
                calls: Seq::empty(),
            },
        ),
{
}

/// An uninitialized contract is initialized by any admin who authorizes,
/// with any token: both are stored, the token is asked for the admin's
/// balance, and nothing else changes.
pub proof fn lemma_first_initialize_succeeds(s: ContentAccessState, env: Env, admin: Address, token_address: Address)
    requires
        s.admin is None,
        env.authorizes(admin),
    ensures
        s.after_initialize(env, admin, token_address) == Ok::<Step<ContentAccessState>, Failure>(
            Step {
                state: ContentAccessState { admin: Some(admin), token: Some(token_address), ..s },
                events: Seq::empty(),
                calls: seq![TokenCall::Balance { token: token_address, account: admin }],
            },
        ),
{
}

/// Distinct errors have distinct codes.
pub proof fn lemma_error_codes_distinct(a: Error, b: Error)
    ensures
        error_code(a) == error_code(b) ==> a == b,
{
}

} // verus!
