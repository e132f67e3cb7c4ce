use content_treasury::content_access::ContentAccess;
use content_treasury::events::{
    AdminTransferredEvent, ContentPriceSetEvent, MaxPriceClearedEvent, MaxPriceSetEvent,
};
use content_treasury::host::{Address, ContractEvent, Env};

fn setup() -> (Env, ContentAccess, Address, Address) {
    let mut env = Env::new(Address { id: 100 }, 1000);
    let admin = Address { id: 1 };
    let creator = Address { id: 2 };
    let token_address = Address { id: 3 };
    env.signers = vec![admin, creator];
    let mut client = ContentAccess::new();
    client.initialize(&mut env, admin, token_address).unwrap();
    (env, client, admin, creator)
}

#[test]
fn set_content_price_emits_structured_event() {
    let (mut env, mut client, _admin, creator) = setup();
    client.set_content_price(&mut env, creator, 42, 750).unwrap();

    let data = env
        .events
        .iter()
        .find_map(|e| match e {
            ContractEvent::ContentPriceSet(d) => Some(*d),
            _ => None,
        })
        .expect("content_price_set event");
    assert_eq!(data, ContentPriceSetEvent { creator, content_id: 42, price: 750 });
}

#[test]
fn set_max_price_emits_structured_event() {
    let (mut env, mut client, admin, _creator) = setup();
    client.set_max_price(&mut env, 1_000).unwrap();

    let data = env
        .events
        .iter()
        .find_map(|e| match e {
            ContractEvent::MaxPriceSet(d) => Some(*d),
            _ => None,
        })
        .expect("max_price_set event");
    assert_eq!(data, MaxPriceSetEvent { price: 1_000, set_by: admin });
}

#[test]
fn clear_max_price_emits_structured_event() {
    let (mut env, mut client, admin, _creator) = setup();
    client.set_max_price(&mut env, 1_000).unwrap();
    client.set_max_price(&mut env, 0).unwrap();

    let data = env
        .events
        .iter()
        .find_map(|e| match e {
            ContractEvent::MaxPriceCleared(d) => Some(*d),
            _ => None,
        })
        .expect("max_price_cleared event");
    assert_eq!(data, MaxPriceClearedEvent { cleared_by: admin });
    assert_eq!(client.get_max_price(), None);
}

#[test]
fn set_admin_emits_structured_event() {
    let (mut env, mut client, admin, _creator) = setup();
    let new_admin = Address { id: 50 };
    client.set_admin(&mut env, new_admin).unwrap();

    let data = env
        .events
        .iter()
        .find_map(|e| match e {
            ContractEvent::AdminTransferred(d) => Some(*d),
            _ => None,
        })
        .expect("admin_transferred event");
    assert_eq!(data, AdminTransferredEvent { old_admin: admin, new_admin });
    assert_eq!(client.admin(), Ok(new_admin));
}
