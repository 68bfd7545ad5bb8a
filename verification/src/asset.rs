use vstd::prelude::*;

use crate::address::Address;

verus! {

/// The description of the asset that the launchpad sells.
#[derive(Debug)]
pub struct AssetInfo {
    /// The asset's short name (a symbol of at most 32 characters).
    pub name: String,
    pub total_supply: i128,
    pub price_per_unit: i128,
    /// The token in which investors pay.
    pub payment_token: Address,
    /// While set, minting, transfers and investor access are refused.
    pub paused: bool,
}

/// The mathematical value of an [`AssetInfo`].
pub struct AssetView {
    pub name: Seq<char>,
    pub total_supply: i128,
    pub price_per_unit: i128,
    pub payment_token: Seq<char>,
    pub paused: bool,
}

impl View for AssetInfo {
    type V = AssetView;

    open spec fn view(&self) -> AssetView {
        AssetView {
            name: self.name@,
            total_supply: self.total_supply,
            price_per_unit: self.price_per_unit,
            payment_token: self.payment_token@,
            paused: self.paused,
        }
    }
}

impl Clone for AssetInfo {
    fn clone(&self) -> (r: Self)
        ensures
            r@ == self@,
    {
        AssetInfo {
            name: self.name.clone(),
            total_supply: self.total_supply,
            price_per_unit: self.price_per_unit,
            payment_token: self.payment_token.clone(),
            paused: self.paused,
        }
    }
}

} // verus!
