use vstd::prelude::*;
use vstd::hash_map::StringHashMap;

use crate::address::Address;
use crate::asset::AssetInfo;
use crate::error::{Error, Failure};
use crate::events::{MintEvent, TransferEvent, WhitelistEvent};
use crate::model::{
    access_result, admin_refusal, consume_result, empty_view, fits_i128, initialize_result,
    mint_result, set_whitelist_result, signed_by, transfer_result, LaunchpadView, MAX_SLOTS,
};

verus! {

/// The launchpad contract over its stored state.
///
/// Each entry point takes the addresses that authorized the call
/// (`signers`) where the contract asks the host for an authorization, and
/// returns, on success, the event that the contract publishes. A refused
/// call leaves the state as it was.
pub struct RwaLaunchpad {
    admin: Option<Address>,
    asset: Option<AssetInfo>,
    used_slots: Option<u32>,
    balances: StringHashMap<i128>,
    whitelist: StringHashMap<bool>,
}

impl View for RwaLaunchpad {
    type V = LaunchpadView;

    closed spec fn view(&self) -> LaunchpadView {
        LaunchpadView {
            admin: match self.admin {
                Some(a) => Some(a@),
                None => None,
            },
            asset: match self.asset {
                Some(a) => Some(a@),
                None => None,
            },
            used_slots: self.used_slots,
            balances: self.balances@,
            whitelist: self.whitelist@,
        }
    }
}

/// Whether `who` is among `signers`.
fn is_signed(signers: &[Address], who: &Address) -> (r: bool)
    ensures
        r == signed_by(signers@, who@),
{
    let mut i: usize = 0;
    while i < signers.len()
        invariant
            i <= signers@.len(),
            forall|j: int| 0 <= j < i ==> signers@[j]@ != who@,
        decreases signers@.len() - i,
    {
        if signers[i].same_as(who) {
            return true;
        }
        i = i + 1;
    }
    false
}

impl RwaLaunchpad {
    /// A contract whose storage is empty: nothing initialized, no balances,
    /// nobody listed.
    pub fn new() -> (r: Self)
        ensures
            r@ == empty_view(),
    {
        RwaLaunchpad {
            admin: None,
            asset: None,
            used_slots: None,
            balances: StringHashMap::new(),
            whitelist: StringHashMap::new(),
        }
    }

    /// The contract state held by the stored instance entries: the
    /// administrator, the asset description and the slot counter, each as
    /// read (`None` when absent), with no balance or whitelist entry loaded
    /// yet. There is none when an administrator is stored without an asset
    /// description, a state the contract never writes.
    pub fn from_storage(admin: Option<Address>, asset: Option<AssetInfo>, used_slots: Option<u32>) -> (r:
        Option<Self>)
        ensures
            r is None <==> (admin is Some && asset is None),
            r matches Some(p) ==> p@ == (LaunchpadView {
                admin: match admin {
                    Some(a) => Some(a@),
                    None => None,
                },
                asset: match asset {
                    Some(a) => Some(a@),
                    None => None,
                },
                used_slots,
                balances: Map::empty(),
                whitelist: Map::empty(),
            }),
            r matches Some(p) ==> p@.wf(),
    {
        if admin.is_some() && asset.is_none() {
            return None;
        }
        Some(
            RwaLaunchpad {
                admin,
                asset,
                used_slots,
                balances: StringHashMap::new(),
                whitelist: StringHashMap::new(),
            },
        )
    }

    /// Loads the stored balance entry of `owner` (`None` when absent).
    pub fn load_balance(&mut self, owner: &Address, stored: Option<i128>)
        ensures
            final(self)@ == (LaunchpadView {
                balances: match stored {
                    Some(v) => old(self)@.balances.insert(owner@, v),
                    None => old(self)@.balances.remove(owner@),
                },
                ..old(self)@
            }),
    {
        match stored {
            Some(v) => self.balances.insert(owner.to_text(), v),
            None => self.balances.remove(owner.as_str()),
        }
    }

    /// Loads the stored whitelist entry of `investor` (`None` when absent).
    pub fn load_whitelist(&mut self, investor: &Address, stored: Option<bool>)
        ensures
            final(self)@ == (LaunchpadView {
                whitelist: match stored {
                    Some(v) => old(self)@.whitelist.insert(investor@, v),
                    None => old(self)@.whitelist.remove(investor@),
                },
                ..old(self)@
            }),
    {
        match stored {
            Some(v) => self.whitelist.insert(investor.to_text(), v),
            None => self.whitelist.remove(investor.as_str()),
        }
    }

    /// The stored administrator, if any.
    pub fn stored_admin(&self) -> (r: Option<&Address>)
        ensures
            match r {
                Some(a) => self@.admin == Some(a@),
                None => self@.admin is None,
            },
    {
        self.admin.as_ref()
    }

    /// The stored asset description, if any.
    pub fn stored_asset(&self) -> (r: Option<&AssetInfo>)
        ensures
            match r {
                Some(a) => self@.asset == Some(a@),
                None => self@.asset is None,
            },
    {
        self.asset.as_ref()
    }

    /// The stored slot counter, if any.
    pub fn stored_used_slots(&self) -> (r: Option<u32>)
        ensures
            r == self@.used_slots,
    {
        self.used_slots
    }

    /// The stored balance entry of `owner`, if any.
    pub fn stored_balance(&self, owner: &Address) -> (r: Option<i128>)
        ensures
            r == (if self@.balances.contains_key(owner@) {
                Some(self@.balances[owner@])
            } else {
                None
            }),
    {
        match self.balances.get(owner.as_str()) {
            Some(v) => Some(*v),
            None => None,
        }
    }

    /// The stored whitelist entry of `investor`, if any.
    pub fn stored_whitelist(&self, investor: &Address) -> (r: Option<bool>)
        ensures
            r == (if self@.whitelist.contains_key(investor@) {
                Some(self@.whitelist[investor@])
            } else {
                None
            }),
    {
        match self.whitelist.get(investor.as_str()) {
            Some(v) => Some(*v),
            None => None,
        }
    }

    /// Fails with `NotInitialized` until the contract has an administrator.
    pub fn require_initialized(&self) -> (r: Result<(), Error>)
        ensures
            r == (if self@.initialized() {
                Ok::<(), Error>(())
            } else {
                Err(Error::NotInitialized)
            }),
    {
        if self.admin.is_none() {
            return Err(Error::NotInitialized);
        }
        Ok(())
    }

    /// The stored asset description of an initialized contract.
    fn read_asset(&self) -> (a: &AssetInfo)
        requires
            self@.wf(),
            self@.initialized(),
        ensures
            self@.asset == Some(a@),
    {
        match &self.asset {
            Some(a) => a,
            None => vstd::pervasive::unreached(),
        }
    }

    /// Refuses a call that only the administrator may make, unless the
    /// stored administrator authorized it and is the `caller`.
    fn require_admin(&self, caller: &Address, signers: &[Address]) -> (r: Result<(), Failure>)
        ensures
            r == (match admin_refusal(self@, caller@, signers@) {
                Some(f) => Err(f),
                None => Ok::<(), Failure>(()),
            }),
    {
        match &self.admin {
            None => Err(Failure::Contract(Error::NotInitialized)),
            Some(admin) => {
                if !is_signed(signers, admin) {
                    return Err(Failure::NotAuthorized);
                }
                if !caller.same_as(admin) {
                    return Err(Failure::Contract(Error::Unauthorized));
                }
                Ok(())
            },
        }
    }

    fn require_not_paused(&self) -> (r: Result<(), Error>)
        requires
            self@.wf(),
            self@.initialized(),
        ensures
            r == (if self@.paused() {
                Err(Error::Paused)
            } else {
                Ok::<(), Error>(())
            }),
    {
        if self.read_asset().paused {
            return Err(Error::Paused);
        }
        Ok(())
    }

    fn require_positive(amount: i128) -> (r: Result<(), Error>)
        ensures
            r == (if amount <= 0 {
                Err(Error::InvalidAmount)
            } else {
                Ok::<(), Error>(())
            }),
    {
        if amount <= 0 {
            return Err(Error::InvalidAmount);
        }
        Ok(())
    }

    fn checked_add(left: i128, right: i128) -> (r: Result<i128, Error>)
        ensures
            r == (if fits_i128(left + right) {
                Ok::<i128, Error>((left + right) as i128)
            } else {
                Err(Error::Overflow)
            }),
    {
        match left.checked_add(right) {
            Some(value) => Ok(value),
            None => Err(Error::Overflow),
        }
    }

    fn read_balance(&self, owner: &Address) -> (r: i128)
        ensures
            r == self@.balance_of(owner@),
    {
        match self.balances.get(owner.as_str()) {
            Some(v) => *v,
            None => 0,
        }
    }

    fn write_balance(&mut self, owner: &Address, amount: i128)
        ensures
            final(self)@ == (LaunchpadView {
                balances: old(self)@.balances.insert(owner@, amount),
                ..old(self)@
            }),
    {
        self.balances.insert(owner.to_text(), amount);
    }

    fn read_whitelist(&self, investor: &Address) -> (r: bool)
        ensures
            r == self@.whitelisted(investor@),
    {
        match self.whitelist.get(investor.as_str()) {
            Some(v) => *v,
            None => false,
        }
    }

    fn used_slots(&self) -> (r: u32)
        ensures
            r == self@.slots_used(),
    {
        match self.used_slots {
            Some(n) => n,
            None => 0,
        }
    }

    /// Only looks: refuses when every slot is taken, consumes none.
    fn check_variation_gate(&self, _investor: &Address) -> (r: Result<(), Error>)
        ensures
            r == (if self@.slots_used() >= MAX_SLOTS {
                Err(Error::NoSlotsAvailable)
            } else {
                Ok::<(), Error>(())
            }),
    {
        if self.used_slots() >= MAX_SLOTS {
            return Err(Error::NoSlotsAvailable);
        }
        Ok(())
    }

    fn validate_access(&self, investor: &Address) -> (r: Result<(), Error>)
        requires
            self@.wf(),
        ensures
            r == access_result(self@, investor@),
    {
        if self.admin.is_none() {
            return Err(Error::NotInitialized);
        }
        if self.read_asset().paused {
            return Err(Error::Paused);
        }
        if !self.read_whitelist(investor) {
            return Err(Error::NotWhitelisted);
        }
        self.check_variation_gate(investor)
    }

    /// Takes one investment slot for `investor`, after the same checks as
    /// [`RwaLaunchpad::check_access`]. A refused call consumes nothing.
    pub fn consume_investment_slot(&mut self, investor: &Address) -> (r: Result<(), Error>)
        requires
            old(self)@.wf(),
        ensures
            final(self)@.wf(),
            match consume_result(old(self)@, investor@) {
                Ok(next) => r == Ok::<(), Error>(()) && final(self)@ == next,
                Err(e) => r == Err::<(), Error>(e) && final(self)@ == old(self)@,
            },
    {
        match self.validate_access(investor) {
            Err(e) => Err(e),
            Ok(()) => {
                let next = self.used_slots() + 1;
                self.used_slots = Some(next);
                Ok(())
            },
        }
    }

    /// Stores `admin` and `asset` and opens the slot counter at 0. Only
    /// once, and only with `admin`'s authorization.
    pub fn initialize(&mut self, admin: Address, asset: AssetInfo, signers: &[Address]) -> (r:
        Result<(), Failure>)
        requires
            old(self)@.wf(),
        ensures
            final(self)@.wf(),
            match initialize_result(old(self)@, admin@, asset@, signers@) {
                Ok(next) => r == Ok::<(), Failure>(()) && final(self)@ == next,
                Err(f) => r == Err::<(), Failure>(f) && final(self)@ == old(self)@,
            },
    {
        if self.admin.is_some() {
            return Err(Failure::Contract(Error::AlreadyInitialized));
        }
        if !is_signed(signers, &admin) {
            return Err(Failure::NotAuthorized);
        }
        self.admin = Some(admin);
        self.asset = Some(asset);
        self.used_slots = Some(0);
        Ok(())
    }

    /// The balance of `id`: 0 for an address that never held tokens.
    pub fn balance(&self, id: &Address) -> (r: Result<i128, Error>)
        ensures
            r == (if self@.initialized() {
                Ok::<i128, Error>(self@.balance_of(id@))
            } else {
                Err(Error::NotInitialized)
            }),
    {
        self.require_initialized()?;
        Ok(self.read_balance(id))
    }

    /// Credits `amount` new tokens to `to`; the administrator only.
    pub fn mint(&mut self, admin: Address, to: Address, amount: i128, signers: &[Address]) -> (r:
        Result<MintEvent, Failure>)
        requires
            old(self)@.wf(),
        ensures
            final(self)@.wf(),
            match mint_result(old(self)@, admin@, to@, amount, signers@) {
                Ok(next) => {
                    &&& final(self)@ == next
                    &&& r matches Ok(ev)
                    &&& ev.to@ == to@
                    &&& ev.amount == amount
                },
                Err(f) => r matches Err(g) && g == f && final(self)@ == old(self)@,
            },
    {
        if let Err(f) = self.require_admin(&admin, signers) {
            return Err(f);
        }
        if let Err(e) = self.require_not_paused() {
            return Err(Failure::Contract(e));
        }
        if let Err(e) = Self::require_positive(amount) {
            return Err(Failure::Contract(e));
        }
        let previous = self.read_balance(&to);
        let next = match Self::checked_add(previous, amount) {
            Ok(v) => v,
            Err(e) => {
                return Err(Failure::Contract(e));
            },
        };
        self.write_balance(&to, next);
        Ok(MintEvent { to, amount })
    }

    /// Moves `amount` tokens from `from` to `to` with `from`'s
    /// authorization. A transfer to oneself changes no balance.
    pub fn transfer(&mut self, from: Address, to: Address, amount: i128, signers: &[Address]) -> (r:
        Result<TransferEvent, Failure>)
        requires
            old(self)@.wf(),
        ensures
            final(self)@.wf(),
            match transfer_result(old(self)@, from@, to@, amount, signers@) {
                Ok(next) => {
                    &&& final(self)@ == next
                    &&& r matches Ok(ev)
                    &&& ev.from@ == from@
                    &&& ev.to@ == to@
                    &&& ev.amount == amount
                },
                Err(f) => r matches Err(g) && g == f && final(self)@ == old(self)@,
            },
    {
        if let Err(e) = self.require_initialized() {
            return Err(Failure::Contract(e));
        }
        if !is_signed(signers, &from) {
            return Err(Failure::NotAuthorized);
        }
        if let Err(e) = self.require_not_paused() {
            return Err(Failure::Contract(e));
        }
        if let Err(e) = Self::require_positive(amount) {
            return Err(Failure::Contract(e));
        }
        let available = self.read_balance(&from);
        if available < amount {
            return Err(Failure::Contract(Error::InsufficientBalance));
        }
        if !from.same_as(&to) {
            let destination = self.read_balance(&to);
            let next = match Self::checked_add(destination, amount) {
                Ok(v) => v,
                Err(e) => {
                    return Err(Failure::Contract(e));
                },
            };
            self.write_balance(&from, available - amount);
            self.write_balance(&to, next);
        }
        Ok(TransferEvent { from, to, amount })
    }

    /// Approves or revokes `investor`; the administrator only.
    pub fn set_whitelist(
        &mut self,
        admin: Address,
        investor: Address,
        approved: bool,
        signers: &[Address],
    ) -> (r: Result<WhitelistEvent, Failure>)
        requires
            old(self)@.wf(),
        ensures
            final(self)@.wf(),
            match set_whitelist_result(old(self)@, admin@, investor@, approved, signers@) {
                Ok(next) => {
                    &&& final(self)@ == next
                    &&& r matches Ok(ev)
                    &&& ev.investor@ == investor@
                    &&& ev.approved == approved
                },
                Err(f) => r matches Err(g) && g == f && final(self)@ == old(self)@,
            },
    {
        if let Err(f) = self.require_admin(&admin, signers) {
            return Err(f);
        }
        self.whitelist.insert(investor.to_text(), approved);
        Ok(WhitelistEvent { investor, approved })
    }

    /// Whether `investor` is approved; `false` for one never listed.
    pub fn is_whitelisted(&self, investor: &Address) -> (r: Result<bool, Error>)
        ensures
            r == (if self@.initialized() {
                Ok::<bool, Error>(self@.whitelisted(investor@))
            } else {
                Err(Error::NotInitialized)
            }),
    {
        self.require_initialized()?;
        Ok(self.read_whitelist(investor))
    }

    /// The investment slots not yet consumed.
    pub fn remaining_slots(&self) -> (r: Result<u32, Error>)
        ensures
            r == (if self@.initialized() {
                Ok::<u32, Error>(self@.slots_left())
            } else {
                Err(Error::NotInitialized)
            }),
    {
        self.require_initialized()?;
        Ok(MAX_SLOTS.saturating_sub(self.used_slots()))
    }

    /// Whether `investor` may invest now; consumes no slot.
    pub fn check_access(&self, investor: &Address) -> (r: Result<(), Error>)
        requires
            self@.wf(),
        ensures
            r == access_result(self@, investor@),
    {
        self.validate_access(investor)
    }
}

} // verus!
