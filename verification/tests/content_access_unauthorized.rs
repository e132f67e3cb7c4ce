use content_treasury::content_access::{ContentAccess, Failure};
use content_treasury::host::{Address, Env};

fn setup() -> (Env, ContentAccess, Address, Address) {
    let mut env = Env::new(Address { id: 100 }, 1000);
    let admin = Address { id: 1 };
    let token_address = Address { id: 2 };
    env.signers = vec![admin];
    let mut client = ContentAccess::new();
    client.initialize(&mut env, admin, token_address).unwrap();
    (env, client, admin, token_address)
}

/// Only `rogue` has signed.
fn mock_rogue_auth(env: &mut Env, rogue: Address) {
    env.signers = vec![rogue];
}

#[test]
fn initialize_reverts_for_non_admin_auth() {
    let mut env = Env::new(Address { id: 100 }, 1000);
    let admin = Address { id: 1 };
    let rogue = Address { id: 9 };
    let token_address = Address { id: 2 };
    let mut client = ContentAccess::new();

    mock_rogue_auth(&mut env, rogue);
    assert!(client.initialize(&mut env, admin, token_address).is_err());
}

#[test]
fn unlock_content_reverts_for_non_buyer_auth() {
    let (mut env, mut client, _admin, _token_address) = setup();
    let buyer = Address { id: 3 };
    let rogue = Address { id: 9 };
    let creator = Address { id: 4 };

    env.signers.push(creator);
    client.set_content_price(&mut env, creator, 1, 100).unwrap();

    mock_rogue_auth(&mut env, rogue);
    assert!(client.unlock_content(&mut env, buyer, creator, 1, u64::MAX).is_err());
}

#[test]
fn set_content_price_reverts_for_non_creator_auth() {
    let (mut env, mut client, _admin, _token_address) = setup();
    let creator = Address { id: 4 };
    let rogue = Address { id: 9 };

    mock_rogue_auth(&mut env, rogue);
    assert!(client.set_content_price(&mut env, creator, 7, 100).is_err());
}

#[test]
fn set_max_price_reverts_for_non_admin_auth() {
    let (mut env, mut client, admin, _token_address) = setup();
    let rogue = Address { id: 9 };

    mock_rogue_auth(&mut env, rogue);
    assert!(client.set_max_price(&mut env, 500).is_err());
    assert_eq!(client.admin(), Ok(admin));
}

#[test]
fn set_admin_reverts_for_non_admin_auth() {
    let (mut env, mut client, admin, _token_address) = setup();
    let rogue = Address { id: 9 };
    let new_admin = Address { id: 10 };

    mock_rogue_auth(&mut env, rogue);
    assert_eq!(client.set_admin(&mut env, new_admin), Err(Failure::Unauthorized(admin)));
    assert_eq!(client.admin(), Ok(admin));
}

#[test]
fn initialize_reverts_if_already_initialized() {
    let (mut env, mut client, _admin, token_address) = setup();
    let second_admin = Address { id: 11 };

    env.signers.push(second_admin);
    assert!(client.initialize(&mut env, second_admin, token_address).is_err());
}

#[test]
fn admin_can_set_max_price_baseline() {
    let (mut env, mut client, _admin, _token_address) = setup();
    client.set_max_price(&mut env, 500).unwrap();
    assert_eq!(client.get_max_price(), Some(500));
}
