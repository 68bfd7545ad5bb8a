use vstd::prelude::*;

use crate::address::Address;

verus! {

/// Published when tokens are minted to `to`.
#[derive(Debug, PartialEq)]
pub struct MintEvent {
    pub to: Address,
    pub amount: i128,
}

/// Published when `amount` tokens move from `from` to `to`.
#[derive(Debug, PartialEq)]
pub struct TransferEvent {
    pub from: Address,
    pub to: Address,
    pub amount: i128,
}

/// Published when the administrator approves or revokes an investor.
#[derive(Debug, PartialEq)]
pub struct WhitelistEvent {
    pub investor: Address,
    pub approved: bool,
}

} // verus!
