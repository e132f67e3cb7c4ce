use content_treasury::errors::TreasuryError;
use content_treasury::host::{Address, ContractEvent, Env, TokenCall};
use content_treasury::treasury::{Treasury, TreasuryFailure};

/// An initialized treasury with every address the test uses signed.
fn setup() -> (Env, Treasury, Address, Address, Address, Address) {
    let treasury_id = Address { id: 100 };
    let mut env = Env::new(treasury_id, 1000);
    let admin = Address { id: 1 };
    let user = Address { id: 2 };
    let token_address = Address { id: 3 };
    env.signers = vec![admin, user];
    let mut client = Treasury::new();
    client.initialize(&mut env, admin, token_address).unwrap();
    (env, client, admin, user, treasury_id, token_address)
}

fn assert_contract_error<T: std::fmt::Debug>(result: Result<T, TreasuryFailure>, error: TreasuryError) {
    match result {
        Err(TreasuryFailure::Contract(actual)) => {
            assert_eq!(actual.code(), error.code());
            assert_eq!(actual, error);
        },
        _ => panic!("expected contract error {}", error.code()),
    }
}

#[test]
fn double_initialize_returns_already_initialized() {
    let (mut env, mut client, admin, _user, _treasury_id, _token) = setup();
    let token_address = Address { id: 30 };
    assert_contract_error(
        client.initialize(&mut env, admin, token_address),
        TreasuryError::AlreadyInitialized,
    );
}

#[test]
fn uninitialized_admin_setter_returns_not_initialized() {
    let mut env = Env::new(Address { id: 100 }, 1000);
    let mut client = Treasury::new();
    assert_contract_error(client.set_paused(&mut env, true), TreasuryError::NotInitialized);
}

#[test]
fn negative_min_balance_returns_error_code() {
    let (mut env, mut client, _admin, _user, _treasury_id, _token) = setup();
    assert_contract_error(client.set_min_balance(&mut env, -1), TreasuryError::NegativeMinBalance);
}

#[test]
fn zero_deposit_returns_invalid_amount() {
    let (mut env, client, _admin, user, _treasury_id, _token) = setup();
    assert_contract_error(client.deposit(&mut env, user, 0), TreasuryError::InvalidAmount);
}

#[test]
fn zero_withdraw_returns_invalid_amount() {
    let (mut env, client, _admin, user, _treasury_id, _token) = setup();
    assert_contract_error(client.withdraw(&mut env, user, 0, 0), TreasuryError::InvalidAmount);
}

#[test]
fn paused_deposit_returns_paused() {
    let (mut env, mut client, _admin, user, _treasury_id, _token) = setup();
    client.set_paused(&mut env, true).unwrap();
    assert_contract_error(client.deposit(&mut env, user, 100), TreasuryError::Paused);
}

#[test]
fn insufficient_balance_returns_error_code() {
    let (mut env, client, _admin, user, _treasury_id, _token) = setup();
    assert_contract_error(client.withdraw(&mut env, user, 100, 0), TreasuryError::InsufficientBalance);
}

#[test]
fn min_balance_violation_returns_error_code() {
    let (mut env, mut client, _admin, user, treasury_id, token) = setup();
    client.deposit(&mut env, user, 500).unwrap();
    assert_eq!(
        env.token_calls,
        vec![TokenCall::Transfer { token, from: user, to: treasury_id, amount: 500 }]
    );
    client.set_min_balance(&mut env, 400).unwrap();

    assert_contract_error(client.withdraw(&mut env, user, 101, 500), TreasuryError::MinBalanceViolation);
}

#[test]
fn withdraw_within_min_balance_pays_out() {
    let (mut env, mut client, _admin, user, treasury_id, token) = setup();
    client.set_min_balance(&mut env, 400).unwrap();
    client.withdraw(&mut env, user, 100, 500).unwrap();
    assert_eq!(
        env.token_calls,
        vec![
            TokenCall::Balance { token, account: treasury_id },
            TokenCall::Transfer { token, from: treasury_id, to: user, amount: 100 },
        ]
    );
    assert_eq!(env.events, vec![ContractEvent::Withdraw { to: user, amount: 100, token }]);
}

#[test]
fn deposit_announces_transfer() {
    let (mut env, client, _admin, user, _treasury_id, token) = setup();
    client.deposit(&mut env, user, 250).unwrap();
    assert_eq!(env.events, vec![ContractEvent::Deposit { from: user, amount: 250, token }]);
}

#[test]
fn withdraw_needs_admin_auth() {
    let (mut env, client, admin, user, _treasury_id, _token) = setup();
    env.signers = vec![user];
    assert_eq!(client.withdraw(&mut env, user, 10, 500), Err(TreasuryFailure::Unauthorized(admin)));
    assert!(env.token_calls.is_empty());
}

#[test]
fn deposit_needs_depositor_auth() {
    let (mut env, client, admin, user, _treasury_id, _token) = setup();
    env.signers = vec![admin];
    assert_eq!(client.deposit(&mut env, user, 10), Err(TreasuryFailure::Unauthorized(user)));
}

#[test]
fn deposit_before_initialize_is_not_initialized() {
    let mut env = Env::new(Address { id: 100 }, 1000);
    let user = Address { id: 2 };
    env.signers = vec![user];
    let client = Treasury::new();
    assert_contract_error(client.deposit(&mut env, user, 10), TreasuryError::NotInitialized);
}

#[test]
fn paused_withdraw_returns_paused() {
    let (mut env, mut client, _admin, user, _treasury_id, _token) = setup();
    client.set_paused(&mut env, true).unwrap();
    assert!(client.is_paused());
    assert_contract_error(client.withdraw(&mut env, user, 10, 500), TreasuryError::Paused);
    client.set_paused(&mut env, false).unwrap();
    client.withdraw(&mut env, user, 10, 500).unwrap();
}

#[test]
fn treasury_error_codes_are_stable() {
    assert_eq!(TreasuryError::NegativeMinBalance.code(), 1);
    assert_eq!(TreasuryError::Paused.code(), 2);
    assert_eq!(TreasuryError::InsufficientBalance.code(), 3);
    assert_eq!(TreasuryError::MinBalanceViolation.code(), 4);
    assert_eq!(TreasuryError::NotInitialized.code(), 5);
    assert_eq!(TreasuryError::InvalidAmount.code(), 6);
    assert_eq!(TreasuryError::AlreadyInitialized.code(), 7);
}
