use vstd::prelude::*;

use crate::address::Address;
use crate::asset::AssetView;
use crate::error::{Error, Failure};

verus! {

/// The number of investment slots the launchpad offers.
pub const MAX_SLOTS: u32 = 10;

/// The mathematical value of the launchpad's stored state, key by key.
///
/// An absent key is `None` (or absent from the map): the contract tells an
/// entry that was never written apart from one that holds a default.
pub struct LaunchpadView {
    pub admin: Option<Seq<char>>,
    pub asset: Option<AssetView>,
    pub used_slots: Option<u32>,
    pub balances: Map<Seq<char>, i128>,
    pub whitelist: Map<Seq<char>, bool>,
}

impl LaunchpadView {
    /// Storage that the contract can work on: an administrator is never
    /// stored without the asset description.
    pub open spec fn wf(self) -> bool {
        self.admin is Some ==> self.asset is Some
    }

    pub open spec fn initialized(self) -> bool {
        self.admin is Some
    }

    pub open spec fn paused(self) -> bool {
        self.asset matches Some(a) && a.paused
    }

    /// The balance of `owner`; an owner with no stored balance holds 0.
    pub open spec fn balance_of(self, owner: Seq<char>) -> i128 {
        if self.balances.contains_key(owner) {
            self.balances[owner]
        } else {
            0
        }
    }

    /// Whether `investor` is approved; an investor never listed is not.
    pub open spec fn whitelisted(self, investor: Seq<char>) -> bool {
        self.whitelist.contains_key(investor) && self.whitelist[investor]
    }

    /// The number of slots consumed so far; none if never stored.
    pub open spec fn slots_used(self) -> u32 {
        match self.used_slots {
            Some(n) => n,
            None => 0,
        }
    }

    /// The slots left, counting down to 0 and never below.
    pub open spec fn slots_left(self) -> u32 {
        if self.slots_used() >= MAX_SLOTS {
            0
        } else {
            (MAX_SLOTS - self.slots_used()) as u32
        }
    }

    /// Every stored balance is non-negative.
    pub open spec fn balances_nonnegative(self) -> bool {
        forall|a: Seq<char>| #[trigger] self.balances.contains_key(a) ==> self.balances[a] >= 0
    }
}

/// The empty storage of a contract that has not been initialized.
pub open spec fn empty_view() -> LaunchpadView {
    LaunchpadView {
        admin: None,
        asset: None,
        used_slots: None,
        balances: Map::empty(),
        whitelist: Map::empty(),
    }
}

/// Whether `who` is among the addresses that authorized the call.
pub open spec fn signed_by(signers: Seq<Address>, who: Seq<char>) -> bool {
    exists|i: int| 0 <= i < signers.len() && #[trigger] signers[i]@ == who
}

pub open spec fn fits_i128(x: int) -> bool {
    i128::MIN <= x <= i128::MAX
}

/// The refusal, if any, of a call that only the administrator may make:
/// the contract must be initialized, the stored administrator must have
/// authorized the call, and `caller` must be that administrator.
pub open spec fn admin_refusal(s: LaunchpadView, caller: Seq<char>, signers: Seq<Address>) -> Option<
    Failure,
> {
    match s.admin {
        None => Some(Failure::Contract(Error::NotInitialized)),
        Some(admin) => if !signed_by(signers, admin) {
            Some(Failure::NotAuthorized)
        } else if caller != admin {
            Some(Failure::Contract(Error::Unauthorized))
        } else {
            None
        },
    }
}

/// What `initialize` does to the storage.
pub open spec fn initialize_result(
    s: LaunchpadView,
    admin: Seq<char>,
    asset: AssetView,
    signers: Seq<Address>,
) -> Result<LaunchpadView, Failure> {
    if s.initialized() {
        Err(Failure::Contract(Error::AlreadyInitialized))
    } else if !signed_by(signers, admin) {
        Err(Failure::NotAuthorized)
    } else {
        Ok(LaunchpadView { admin: Some(admin), asset: Some(asset), used_slots: Some(0), ..s })
    }
}

/// What `mint` does to the storage.
pub open spec fn mint_result(
    s: LaunchpadView,
    caller: Seq<char>,
    to: Seq<char>,
    amount: i128,
    signers: Seq<Address>,
) -> Result<LaunchpadView, Failure> {
    match admin_refusal(s, caller, signers) {
        Some(f) => Err(f),
        None => if s.paused() {
            Err(Failure::Contract(Error::Paused))
        } else if amount <= 0 {
            Err(Failure::Contract(Error::InvalidAmount))
        } else if !fits_i128(s.balance_of(to) + amount) {
            Err(Failure::Contract(Error::Overflow))
        } else {
            Ok(
                LaunchpadView {
                    balances: s.balances.insert(to, (s.balance_of(to) + amount) as i128),
                    ..s
                },
            )
        },
    }
}

/// What `transfer` does to the storage.
pub open spec fn transfer_result(
    s: LaunchpadView,
    from: Seq<char>,
    to: Seq<char>,
    amount: i128,
    signers: Seq<Address>,
) -> Result<LaunchpadView, Failure> {
    if !s.initialized() {
        Err(Failure::Contract(Error::NotInitialized))
    } else if !signed_by(signers, from) {
        Err(Failure::NotAuthorized)
    } else if s.paused() {
        Err(Failure::Contract(Error::Paused))
    } else if amount <= 0 {
        Err(Failure::Contract(Error::InvalidAmount))
    } else if s.balance_of(from) < amount {
        Err(Failure::Contract(Error::InsufficientBalance))
    } else if from == to {
        Ok(s)
    } else if !fits_i128(s.balance_of(to) + amount) {
        Err(Failure::Contract(Error::Overflow))
    } else {
        Ok(
            LaunchpadView {
                balances: s.balances.insert(from, (s.balance_of(from) - amount) as i128).insert(
                    to,
                    (s.balance_of(to) + amount) as i128,
                ),
                ..s
            },
        )
    }
}

/// What `set_whitelist` does to the storage.
pub open spec fn set_whitelist_result(
    s: LaunchpadView,
    caller: Seq<char>,
    investor: Seq<char>,
    approved: bool,
    signers: Seq<Address>,
) -> Result<LaunchpadView, Failure> {
    match admin_refusal(s, caller, signers) {
        Some(f) => Err(f),
        None => Ok(LaunchpadView { whitelist: s.whitelist.insert(investor, approved), ..s }),
    }
}

/// Whether `investor` may invest now, and if not, why.
pub open spec fn access_result(s: LaunchpadView, investor: Seq<char>) -> Result<(), Error> {
    if !s.initialized() {
        Err(Error::NotInitialized)
    } else if s.paused() {
        Err(Error::Paused)
    } else if !s.whitelisted(investor) {
        Err(Error::NotWhitelisted)
    } else if s.slots_used() >= MAX_SLOTS {
        Err(Error::NoSlotsAvailable)
    } else {
        Ok(())
    }
}

/// What consuming an investment slot does to the storage.
pub open spec fn consume_result(s: LaunchpadView, investor: Seq<char>) -> Result<
    LaunchpadView,
    Error,
> {
    match access_result(s, investor) {
        Err(e) => Err(e),
        Ok(_) => Ok(LaunchpadView { used_slots: Some((s.slots_used() + 1) as u32), ..s }),
    }
}

} // verus!
