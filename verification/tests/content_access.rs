use content_treasury::content_access::{ContentAccess, Error, Failure};
use content_treasury::events::ContentPriceSetEvent;
use content_treasury::host::{Address, ContractEvent, Env, TokenCall};

/// Default expiry: far future (non-expiring purchase).
const NO_EXPIRY: u64 = u64::MAX;

/// A context at ledger 1000 in which every address the test uses has signed.
fn setup_test() -> (Env, ContentAccess, Address, Address, Address, Address) {
    let contract_id = Address { id: 100 };
    let mut env = Env::new(contract_id, 1000);
    let admin = Address { id: 1 };
    let token_address = Address { id: 2 };
    let buyer = Address { id: 3 };
    let creator = Address { id: 4 };
    env.signers = vec![admin, buyer, creator];
    (env, ContentAccess::new(), admin, token_address, buyer, creator)
}

/// A new address that has signed the invocation.
fn generate(env: &mut Env, id: u64) -> Address {
    let a = Address { id };
    env.signers.push(a);
    a
}

#[test]
fn test_initialize() {
    let (mut env, mut client, admin, token_address, _, _) = setup_test();
    client.initialize(&mut env, admin, token_address).unwrap();

    let buyer = generate(&mut env, 10);
    let creator = generate(&mut env, 11);
    assert!(!client.has_access(&env, buyer, creator, 1));
}

#[test]
fn test_unlock_content_works() {
    let (mut env, mut client, admin, token_address, buyer, creator) = setup_test();
    client.initialize(&mut env, admin, token_address).unwrap();
    assert!(!client.has_access(&env, buyer, creator, 1));

    client.set_content_price(&mut env, creator, 1, 100).unwrap();
    let before = env.events.len();
    client.unlock_content(&mut env, buyer, creator, 1, NO_EXPIRY).unwrap();

    assert!(client.has_access(&env, buyer, creator, 1));
    assert_eq!(
        env.events[before..].to_vec(),
        vec![ContractEvent::ContentUnlocked { buyer, creator, content_id: 1, price: 100 }]
    );
}

#[test]
fn test_duplicate_unlock_is_idempotent() {
    let (mut env, mut client, admin, token_address, buyer, creator) = setup_test();
    client.initialize(&mut env, admin, token_address).unwrap();
    client.set_content_price(&mut env, creator, 1, 100).unwrap();

    client.unlock_content(&mut env, buyer, creator, 1, NO_EXPIRY).unwrap();
    assert!(client.has_access(&env, buyer, creator, 1));

    client.unlock_content(&mut env, buyer, creator, 1, NO_EXPIRY).unwrap();
    assert!(client.has_access(&env, buyer, creator, 1));
}

#[test]
fn test_has_access_returns_false_for_non_existent() {
    let (mut env, mut client, admin, token_address, buyer, creator) = setup_test();
    client.initialize(&mut env, admin, token_address).unwrap();
    assert!(!client.has_access(&env, buyer, creator, 999));
}

#[test]
fn test_access_is_buyer_specific() {
    let (mut env, mut client, admin, token_address, buyer, creator) = setup_test();
    let buyer2 = generate(&mut env, 10);

    client.initialize(&mut env, admin, token_address).unwrap();
    client.set_content_price(&mut env, creator, 1, 100).unwrap();
    client.unlock_content(&mut env, buyer, creator, 1, NO_EXPIRY).unwrap();

    assert!(client.has_access(&env, buyer, creator, 1));
    assert!(!client.has_access(&env, buyer2, creator, 1));
}

#[test]
fn test_access_is_creator_specific() {
    let (mut env, mut client, admin, token_address, buyer, creator) = setup_test();
    let creator2 = generate(&mut env, 10);

    client.initialize(&mut env, admin, token_address).unwrap();
    client.set_content_price(&mut env, creator, 1, 100).unwrap();
    client.set_content_price(&mut env, creator2, 1, 100).unwrap();
    client.unlock_content(&mut env, buyer, creator, 1, NO_EXPIRY).unwrap();

    assert!(client.has_access(&env, buyer, creator, 1));
    assert!(!client.has_access(&env, buyer, creator2, 1));
}

#[test]
fn test_access_is_content_id_specific() {
    let (mut env, mut client, admin, token_address, buyer, creator) = setup_test();
    client.initialize(&mut env, admin, token_address).unwrap();
    client.set_content_price(&mut env, creator, 1, 100).unwrap();
    client.set_content_price(&mut env, creator, 2, 100).unwrap();
    client.unlock_content(&mut env, buyer, creator, 1, NO_EXPIRY).unwrap();

    assert!(client.has_access(&env, buyer, creator, 1));
    assert!(!client.has_access(&env, buyer, creator, 2));
}

#[test]
fn test_multiple_unlocks_different_content() {
    let (mut env, mut client, admin, token_address, buyer, creator) = setup_test();
    client.initialize(&mut env, admin, token_address).unwrap();
    client.set_content_price(&mut env, creator, 1, 100).unwrap();
    client.set_content_price(&mut env, creator, 2, 150).unwrap();
    client.set_content_price(&mut env, creator, 3, 200).unwrap();

    client.unlock_content(&mut env, buyer, creator, 1, NO_EXPIRY).unwrap();
    client.unlock_content(&mut env, buyer, creator, 2, NO_EXPIRY).unwrap();
    client.unlock_content(&mut env, buyer, creator, 3, NO_EXPIRY).unwrap();

    assert!(client.has_access(&env, buyer, creator, 1));
    assert!(client.has_access(&env, buyer, creator, 2));
    assert!(client.has_access(&env, buyer, creator, 3));
}

#[test]
fn test_multiple_buyers_same_content() {
    let (mut env, mut client, admin, token_address, buyer, creator) = setup_test();
    let buyer2 = generate(&mut env, 10);
    let buyer3 = generate(&mut env, 11);

    client.initialize(&mut env, admin, token_address).unwrap();
    client.set_content_price(&mut env, creator, 1, 100).unwrap();
    client.unlock_content(&mut env, buyer, creator, 1, NO_EXPIRY).unwrap();
    client.unlock_content(&mut env, buyer2, creator, 1, NO_EXPIRY).unwrap();

    assert!(client.has_access(&env, buyer, creator, 1));
    assert!(client.has_access(&env, buyer2, creator, 1));
    assert!(!client.has_access(&env, buyer3, creator, 1));
}

#[test]
fn test_set_admin_works() {
    let (mut env, mut client, admin, token_address, _, _) = setup_test();
    client.initialize(&mut env, admin, token_address).unwrap();
    let new_admin = generate(&mut env, 10);
    client.set_admin(&mut env, new_admin).unwrap();

    let admin3 = generate(&mut env, 11);
    client.set_admin(&mut env, admin3).unwrap();
}

#[test]
fn test_admin_view_returns_configured_admin() {
    let (mut env, mut client, admin, token_address, _, _) = setup_test();
    client.initialize(&mut env, admin, token_address).unwrap();
    assert_eq!(client.admin(), Ok(admin));
}

#[test]
fn admin_view_uninitialized_is_not_initialized() {
    let client = ContentAccess::new();
    assert_eq!(client.admin(), Err(Error::NotInitialized));
}

#[test]
fn set_admin_without_admin_auth_is_unauthorized() {
    let mut env = Env::new(Address { id: 100 }, 0);
    let mut client = ContentAccess::new();
    let admin = Address { id: 1 };
    let token_address = Address { id: 2 };
    env.signers = vec![admin];
    client.initialize(&mut env, admin, token_address).unwrap();

    env.signers.clear();
    let non_admin = Address { id: 3 };
    assert_eq!(client.set_admin(&mut env, non_admin), Err(Failure::Unauthorized(admin)));
    assert_eq!(client.admin(), Ok(admin));
}

#[test]
fn test_initialize_fails_if_already_initialized() {
    let (mut env, mut client, admin, token_address, _, _) = setup_test();
    client.initialize(&mut env, admin, token_address).unwrap();
    let result = client.initialize(&mut env, admin, token_address);
    assert_eq!(result, Err(Failure::Contract(Error::AlreadyInitialized)));
    assert_eq!(Error::AlreadyInitialized.code(), 1);
}

#[test]
fn test_unlock_with_expired_purchase() {
    let (mut env, mut client, admin, token_address, buyer, creator) = setup_test();
    client.initialize(&mut env, admin, token_address).unwrap();
    client.set_content_price(&mut env, creator, 1, 100).unwrap();

    client.unlock_content(&mut env, buyer, creator, 1, 1100).unwrap();
    assert!(client.has_access(&env, buyer, creator, 1), "should have access before expiry");

    env.ledger_sequence = 1101;
    assert!(
        !client.has_access(&env, buyer, creator, 1),
        "has_access must return false after expiry"
    );

    env.signers.clear();
    let result = client.verify_access(&env, buyer, creator, 1);
    assert_eq!(
        result,
        Err(Error::PurchaseExpired),
        "verify_access must return PurchaseExpired for expired purchase"
    );
    assert_eq!(Error::PurchaseExpired.code(), 4);
}

#[test]
fn test_unlock_with_wrong_content_id() {
    let (mut env, mut client, admin, token_address, buyer, creator) = setup_test();
    client.initialize(&mut env, admin, token_address).unwrap();
    client.set_content_price(&mut env, creator, 1, 100).unwrap();
    client.set_content_price(&mut env, creator, 2, 200).unwrap();

    client.unlock_content(&mut env, buyer, creator, 1, NO_EXPIRY).unwrap();

    env.signers.clear();
    let result = client.verify_access(&env, buyer, creator, 2);
    assert_eq!(
        result,
        Err(Error::NotBuyer),
        "verify_access must return NotBuyer when content_id was never purchased"
    );
    assert!(
        !client.has_access(&env, buyer, creator, 2),
        "has_access must be false for wrong content_id"
    );
}

#[test]
fn test_unlock_as_non_buyer() {
    let (mut env, mut client, admin, token_address, buyer, creator) = setup_test();
    let non_buyer = generate(&mut env, 10);

    client.initialize(&mut env, admin, token_address).unwrap();
    client.set_content_price(&mut env, creator, 1, 100).unwrap();

    client.unlock_content(&mut env, buyer, creator, 1, NO_EXPIRY).unwrap();
    assert!(client.has_access(&env, buyer, creator, 1));

    env.signers.clear();
    let result = client.verify_access(&env, non_buyer, creator, 1);
    assert_eq!(
        result,
        Err(Error::NotBuyer),
        "verify_access must return NotBuyer for a caller who never purchased"
    );
    assert!(
        !client.has_access(&env, non_buyer, creator, 1),
        "has_access must be false for non-buyer"
    );
    assert_eq!(Error::NotBuyer.code(), 6);
}

#[test]
fn test_unlock_event_fields() {
    let (mut env, mut client, admin, token_address, buyer, creator) = setup_test();
    client.initialize(&mut env, admin, token_address).unwrap();
    client.set_content_price(&mut env, creator, 42, 750).unwrap();
    client.unlock_content(&mut env, buyer, creator, 42, NO_EXPIRY).unwrap();

    let unlock_event = env
        .events
        .iter()
        .find(|e| matches!(e, ContractEvent::ContentUnlocked { .. }));
    assert!(unlock_event.is_some(), "content_unlocked event not emitted");
    match unlock_event.unwrap() {
        ContractEvent::ContentUnlocked { buyer: event_buyer, creator: event_creator, content_id, price } => {
            assert_eq!(*event_buyer, buyer);
            assert_eq!(*event_creator, creator);
            assert_eq!(*content_id, 42u64);
            assert_eq!(*price, 750i128);
        },
        _ => unreachable!(),
    }
}

fn count_unlock_events(env: &Env) -> usize {
    env.events
        .iter()
        .filter(|e| matches!(e, ContractEvent::ContentUnlocked { .. }))
        .count()
}

#[test]
fn test_duplicate_unlock_emits_no_second_event() {
    let (mut env, mut client, admin, token_address, buyer, creator) = setup_test();
    client.initialize(&mut env, admin, token_address).unwrap();
    client.set_content_price(&mut env, creator, 1, 100).unwrap();

    client.unlock_content(&mut env, buyer, creator, 1, NO_EXPIRY).unwrap();
    let count_after_first = count_unlock_events(&env);

    client.unlock_content(&mut env, buyer, creator, 1, NO_EXPIRY).unwrap();
    let count_after_second = count_unlock_events(&env);

    assert_eq!(count_after_first, 1);
    assert_eq!(count_after_second, 1, "duplicate unlock must not emit a second event");
}

#[test]
fn test_initialize_valid_token_succeeds() {
    let (mut env, mut client, admin, token_address, _, _) = setup_test();
    client.initialize(&mut env, admin, token_address).unwrap();
    assert_eq!(
        env.token_calls,
        vec![TokenCall::Balance { token: token_address, account: admin }]
    );
}

#[test]
fn test_set_content_price_by_creator_succeeds() {
    let (mut env, mut client, admin, token_address, _, creator) = setup_test();
    client.initialize(&mut env, admin, token_address).unwrap();
    client.set_content_price(&mut env, creator, 42, 500).unwrap();
    assert_eq!(client.get_content_price(creator, 42), Some(500));
}

#[test]
fn set_content_price_without_creator_auth_is_unauthorized() {
    let mut env = Env::new(Address { id: 100 }, 1000);
    let mut client = ContentAccess::new();
    let admin = Address { id: 1 };
    let token_id = Address { id: 2 };
    env.signers = vec![admin];
    client.initialize(&mut env, admin, token_id).unwrap();

    let creator = Address { id: 3 };
    env.signers.clear();
    assert_eq!(
        client.set_content_price(&mut env, creator, 1, 100),
        Err(Failure::Unauthorized(creator))
    );
    assert_eq!(client.get_content_price(creator, 1), None);
}

#[test]
fn initialize_without_admin_auth_is_unauthorized() {
    let mut env = Env::new(Address { id: 100 }, 1000);
    let mut client = ContentAccess::new();
    let admin = Address { id: 1 };
    let token_address = Address { id: 2 };
    assert_eq!(client.initialize(&mut env, admin, token_address), Err(Failure::Unauthorized(admin)));
    assert!(env.token_calls.is_empty());
}

#[test]
fn unlock_content_without_buyer_auth_is_unauthorized() {
    let mut env = Env::new(Address { id: 100 }, 1000);
    let mut client = ContentAccess::new();
    let admin = Address { id: 1 };
    let token_address = Address { id: 2 };
    let buyer = Address { id: 3 };
    let creator = Address { id: 4 };
    env.signers = vec![admin, creator];
    client.initialize(&mut env, admin, token_address).unwrap();
    client.set_content_price(&mut env, creator, 1, 100).unwrap();

    let events = env.events.clone();
    assert_eq!(
        client.unlock_content(&mut env, buyer, creator, 1, NO_EXPIRY),
        Err(Failure::Unauthorized(buyer))
    );
    assert_eq!(env.events, events);
    assert!(!client.has_access(&env, buyer, creator, 1));
}

#[test]
fn test_repurchase_after_expiry() {
    let (mut env, mut client, admin, token_address, buyer, creator) = setup_test();
    client.initialize(&mut env, admin, token_address).unwrap();
    client.set_content_price(&mut env, creator, 1, 100).unwrap();

    client.unlock_content(&mut env, buyer, creator, 1, 1100).unwrap();
    assert!(client.has_access(&env, buyer, creator, 1));

    env.ledger_sequence = 1101;
    assert!(!client.has_access(&env, buyer, creator, 1));

    client.unlock_content(&mut env, buyer, creator, 1, 2000).unwrap();
    assert!(client.has_access(&env, buyer, creator, 1), "re-purchase should restore access");
}

#[test]
fn unlock_pays_stored_price_to_creator() {
    let (mut env, mut client, admin, token_address, buyer, creator) = setup_test();
    client.initialize(&mut env, admin, token_address).unwrap();
    client.set_content_price(&mut env, creator, 7, 321).unwrap();
    let calls_before = env.token_calls.len();
    client.unlock_content(&mut env, buyer, creator, 7, 5000).unwrap();
    assert_eq!(
        env.token_calls[calls_before..].to_vec(),
        vec![TokenCall::Transfer { token: token_address, from: buyer, to: creator, amount: 321 }]
    );
    assert_eq!(client.verify_access(&env, buyer, creator, 7), Ok(()));
}

#[test]
fn unlock_without_price_is_content_price_not_set() {
    let (mut env, mut client, admin, token_address, buyer, creator) = setup_test();
    client.initialize(&mut env, admin, token_address).unwrap();
    assert_eq!(
        client.unlock_content(&mut env, buyer, creator, 1, NO_EXPIRY),
        Err(Failure::Contract(Error::ContentPriceNotSet))
    );
    assert_eq!(Error::ContentPriceNotSet.code(), 2);
    assert!(env.token_calls.len() == 1);
}

#[test]
fn unlock_with_zero_expiry_is_rejected() {
    let (mut env, mut client, admin, token_address, buyer, creator) = setup_test();
    client.initialize(&mut env, admin, token_address).unwrap();
    client.set_content_price(&mut env, creator, 1, 100).unwrap();
    assert_eq!(client.unlock_content(&mut env, buyer, creator, 1, 0), Err(Failure::ZeroExpiry));
    assert!(!client.has_access(&env, buyer, creator, 1));
}

#[test]
fn unlock_with_zero_expiry_and_no_price_is_content_price_not_set() {
    let (mut env, mut client, admin, token_address, buyer, creator) = setup_test();
    client.initialize(&mut env, admin, token_address).unwrap();
    assert_eq!(
        client.unlock_content(&mut env, buyer, creator, 1, 0),
        Err(Failure::Contract(Error::ContentPriceNotSet))
    );
}

#[test]
fn unlock_with_zero_expiry_and_live_purchase_is_rejected() {
    let (mut env, mut client, admin, token_address, buyer, creator) = setup_test();
    client.initialize(&mut env, admin, token_address).unwrap();
    client.set_content_price(&mut env, creator, 1, 100).unwrap();
    client.unlock_content(&mut env, buyer, creator, 1, NO_EXPIRY).unwrap();
    assert_eq!(client.unlock_content(&mut env, buyer, creator, 1, 0), Err(Failure::ZeroExpiry));
    assert!(client.has_access(&env, buyer, creator, 1));
}

#[test]
fn unlock_before_initialize_is_uninitialized() {
    let mut env = Env::new(Address { id: 100 }, 1000);
    let mut client = ContentAccess::new();
    let buyer = Address { id: 3 };
    let creator = Address { id: 4 };
    env.signers = vec![buyer, creator];
    client.set_content_price(&mut env, creator, 1, 100).unwrap();
    assert_eq!(client.unlock_content(&mut env, buyer, creator, 1, NO_EXPIRY), Err(Failure::Uninitialized));
    assert_eq!(Error::NotInitialized.code(), 3);
}

#[test]
fn content_price_must_be_positive_and_within_cap() {
    let (mut env, mut client, admin, token_address, _, creator) = setup_test();
    client.initialize(&mut env, admin, token_address).unwrap();
    assert_eq!(client.set_content_price(&mut env, creator, 1, 0), Err(Failure::NonPositivePrice));
    assert_eq!(client.set_content_price(&mut env, creator, 1, -5), Err(Failure::NonPositivePrice));
    client.set_max_price(&mut env, 300).unwrap();
    assert_eq!(client.set_content_price(&mut env, creator, 1, 301), Err(Failure::PriceAboveMax));
    client.set_content_price(&mut env, creator, 1, 300).unwrap();
    assert_eq!(
        env.events.last(),
        Some(&ContractEvent::ContentPriceSet(ContentPriceSetEvent { creator, content_id: 1, price: 300 }))
    );
}

#[test]
fn negative_max_price_is_rejected() {
    let (mut env, mut client, admin, token_address, _, _) = setup_test();
    client.initialize(&mut env, admin, token_address).unwrap();
    assert_eq!(client.set_max_price(&mut env, -1), Err(Failure::NegativeMaxPrice));
    assert_eq!(client.get_max_price(), None);
}

#[test]
fn set_max_price_before_initialize_is_uninitialized() {
    let mut env = Env::new(Address { id: 100 }, 1000);
    let mut client = ContentAccess::new();
    assert_eq!(client.set_max_price(&mut env, 10), Err(Failure::Uninitialized));
    assert_eq!(client.set_admin(&mut env, Address { id: 5 }), Err(Failure::Contract(Error::NotInitialized)));
}
