//! Structured event payloads of the content-access contract.
use vstd::prelude::*;

use crate::host::Address;

verus! {

/// A creator set the price of one piece of content.
#[derive(Clone, Copy, Debug, PartialEq, Eq, Structural)]
pub struct ContentPriceSetEvent {
    pub creator: Address,
    pub content_id: u64,
    pub price: i128,
}

/// The admin set the maximum content price.
#[derive(Clone, Copy, Debug, PartialEq, Eq, Structural)]
pub struct MaxPriceSetEvent {
    pub price: i128,
    pub set_by: Address,
}

/// The admin removed the maximum content price.
#[derive(Clone, Copy, Debug, PartialEq, Eq, Structural)]
pub struct MaxPriceClearedEvent {
    pub cleared_by: Address,
}

/// The admin handed the role to another address.
#[derive(Clone, Copy, Debug, PartialEq, Eq, Structural)]
pub struct AdminTransferredEvent {
    pub old_admin: Address,
    pub new_admin: Address,
}

} // verus!
