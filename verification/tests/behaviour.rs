use rwa_launchpad::address::Address;
use rwa_launchpad::asset::AssetInfo;
use rwa_launchpad::error::{Error, Failure};
use rwa_launchpad::events::{MintEvent, TransferEvent, WhitelistEvent};
use rwa_launchpad::launchpad::RwaLaunchpad;
use rwa_launchpad::model::MAX_SLOTS;

fn addr(key: &str) -> Address {
    Address::new(key.to_string())
}

fn asset(paused: bool) -> AssetInfo {
    AssetInfo {
        name: "SBDEMO".to_string(),
        total_supply: 1_000_000,
        price_per_unit: 100,
        payment_token: addr("payment-token"),
        paused,
    }
}

fn launched() -> (RwaLaunchpad, Address) {
    let admin = addr("admin");
    let mut pad = RwaLaunchpad::new();
    pad.initialize(admin.clone(), asset(false), &[admin.clone()]).unwrap();
    (pad, admin)
}

/// An initialized launchpad whose asset is paused, with `investor` listed
/// and `holder` holding `held` tokens.
fn paused_with(investor: &Address, holder: &Address, held: i128) -> (RwaLaunchpad, Address) {
    let admin = addr("admin");
    let mut pad = RwaLaunchpad::from_storage(Some(admin.clone()), Some(asset(true)), Some(0)).unwrap();
    pad.load_whitelist(investor, Some(true));
    pad.load_balance(holder, Some(held));
    (pad, admin)
}

#[test]
fn error_codes_follow_declaration_order() {
    let all = [
        Error::NotInitialized,
        Error::AlreadyInitialized,
        Error::InsufficientBalance,
        Error::InvalidAmount,
        Error::NotWhitelisted,
        Error::Paused,
        Error::Unauthorized,
        Error::NoSlotsAvailable,
        Error::Overflow,
    ];
    for (i, e) in all.iter().enumerate() {
        assert_eq!(e.code(), i as u32 + 1);
    }
}

#[test]
fn uninitialized_contract_refuses_everything() {
    let mut pad = RwaLaunchpad::new();
    let a = addr("a");
    let b = addr("b");
    let all = [a.clone(), b.clone()];
    assert_eq!(pad.require_initialized(), Err(Error::NotInitialized));
    assert_eq!(pad.balance(&a), Err(Error::NotInitialized));
    assert_eq!(pad.is_whitelisted(&a), Err(Error::NotInitialized));
    assert_eq!(pad.remaining_slots(), Err(Error::NotInitialized));
    assert_eq!(pad.check_access(&a), Err(Error::NotInitialized));
    assert_eq!(pad.consume_investment_slot(&a), Err(Error::NotInitialized));
    assert_eq!(
        pad.mint(a.clone(), b.clone(), 5, &all),
        Err(Failure::Contract(Error::NotInitialized))
    );
    assert_eq!(
        pad.transfer(a.clone(), b.clone(), 5, &all),
        Err(Failure::Contract(Error::NotInitialized))
    );
    assert_eq!(
        pad.set_whitelist(a.clone(), b.clone(), true, &all),
        Err(Failure::Contract(Error::NotInitialized))
    );
}

#[test]
fn initialize_needs_the_admins_authorization() {
    let admin = addr("admin");
    let other = addr("other");
    let mut pad = RwaLaunchpad::new();
    assert_eq!(pad.initialize(admin.clone(), asset(false), &[]), Err(Failure::NotAuthorized));
    assert_eq!(
        pad.initialize(admin.clone(), asset(false), &[other.clone()]),
        Err(Failure::NotAuthorized)
    );
    assert!(pad.stored_admin().is_none());
    assert_eq!(pad.initialize(admin.clone(), asset(false), &[other, admin.clone()]), Ok(()));
    assert_eq!(pad.stored_admin(), Some(&admin));
    assert_eq!(pad.stored_used_slots(), Some(0));
    assert_eq!(pad.remaining_slots(), Ok(MAX_SLOTS));
}

#[test]
fn second_initialize_changes_nothing() {
    let (mut pad, admin) = launched();
    let other = addr("other");
    assert_eq!(
        pad.initialize(other.clone(), asset(true), &[other.clone()]),
        Err(Failure::Contract(Error::AlreadyInitialized))
    );
    assert_eq!(pad.stored_admin(), Some(&admin));
    assert!(!pad.stored_asset().unwrap().paused);
}

#[test]
fn mint_returns_its_event_and_credits_only_the_recipient() {
    let (mut pad, admin) = launched();
    let alice = addr("alice");
    let bob = addr("bob");
    pad.mint(admin.clone(), bob.clone(), 7, &[admin.clone()]).unwrap();
    let ev = pad.mint(admin.clone(), alice.clone(), 250, &[admin.clone()]);
    assert_eq!(ev, Ok(MintEvent { to: alice.clone(), amount: 250 }));
    assert_eq!(pad.balance(&alice), Ok(250));
    assert_eq!(pad.balance(&bob), Ok(7));
    assert_eq!(pad.remaining_slots(), Ok(10));
}

#[test]
fn mint_needs_the_stored_admins_signature() {
    let (mut pad, admin) = launched();
    let alice = addr("alice");
    // The caller names the administrator, but nobody signed.
    assert_eq!(pad.mint(admin.clone(), alice.clone(), 5, &[]), Err(Failure::NotAuthorized));
    // The recipient's signature is not the administrator's.
    assert_eq!(
        pad.mint(admin.clone(), alice.clone(), 5, &[alice.clone()]),
        Err(Failure::NotAuthorized)
    );
    assert_eq!(pad.stored_balance(&alice), None);
}

#[test]
fn mint_overflow_is_refused() {
    let (mut pad, admin) = launched();
    let alice = addr("alice");
    pad.mint(admin.clone(), alice.clone(), i128::MAX, &[admin.clone()]).unwrap();
    assert_eq!(
        pad.mint(admin.clone(), alice.clone(), 1, &[admin.clone()]),
        Err(Failure::Contract(Error::Overflow))
    );
    assert_eq!(pad.balance(&alice), Ok(i128::MAX));
}

#[test]
fn transfer_overflow_is_refused_and_changes_nothing() {
    let (mut pad, admin) = launched();
    let alice = addr("alice");
    let bob = addr("bob");
    pad.mint(admin.clone(), bob.clone(), i128::MAX, &[admin.clone()]).unwrap();
    pad.mint(admin.clone(), alice.clone(), 3, &[admin.clone()]).unwrap();
    assert_eq!(
        pad.transfer(alice.clone(), bob.clone(), 1, &[alice.clone()]),
        Err(Failure::Contract(Error::Overflow))
    );
    assert_eq!(pad.balance(&alice), Ok(3));
    assert_eq!(pad.balance(&bob), Ok(i128::MAX));
}

#[test]
fn transfer_needs_the_senders_signature() {
    let (mut pad, admin) = launched();
    let alice = addr("alice");
    let bob = addr("bob");
    pad.mint(admin.clone(), alice.clone(), 10, &[admin.clone()]).unwrap();
    assert_eq!(
        pad.transfer(alice.clone(), bob.clone(), 5, &[bob.clone(), admin.clone()]),
        Err(Failure::NotAuthorized)
    );
    assert_eq!(pad.balance(&alice), Ok(10));
}

#[test]
fn transfer_moves_exactly_the_amount() {
    let (mut pad, admin) = launched();
    let alice = addr("alice");
    let bob = addr("bob");
    let carol = addr("carol");
    pad.mint(admin.clone(), alice.clone(), 90, &[admin.clone()]).unwrap();
    pad.mint(admin.clone(), bob.clone(), 10, &[admin.clone()]).unwrap();
    pad.mint(admin.clone(), carol.clone(), 5, &[admin.clone()]).unwrap();
    let ev = pad.transfer(alice.clone(), bob.clone(), 90, &[alice.clone()]);
    assert_eq!(
        ev,
        Ok(TransferEvent { from: alice.clone(), to: bob.clone(), amount: 90 })
    );
    assert_eq!(pad.balance(&alice), Ok(0));
    assert_eq!(pad.balance(&bob), Ok(100));
    assert_eq!(pad.balance(&carol), Ok(5));
}

#[test]
fn self_transfer_beyond_balance_is_refused() {
    let (mut pad, admin) = launched();
    let alice = addr("alice");
    pad.mint(admin.clone(), alice.clone(), 5, &[admin.clone()]).unwrap();
    assert_eq!(
        pad.transfer(alice.clone(), alice.clone(), 6, &[alice.clone()]),
        Err(Failure::Contract(Error::InsufficientBalance))
    );
    assert_eq!(
        pad.transfer(alice.clone(), alice.clone(), 5, &[alice.clone()]),
        Ok(TransferEvent { from: alice.clone(), to: alice.clone(), amount: 5 })
    );
    assert_eq!(pad.balance(&alice), Ok(5));
}

#[test]
fn pause_blocks_mint_transfer_and_access() {
    let investor = addr("investor");
    let alice = addr("alice");
    let (mut pad, admin) = paused_with(&investor, &alice, 50);
    let all = [admin.clone(), alice.clone(), investor.clone()];
    assert_eq!(
        pad.mint(admin.clone(), alice.clone(), 1, &all),
        Err(Failure::Contract(Error::Paused))
    );
    assert_eq!(
        pad.transfer(alice.clone(), investor.clone(), 1, &all),
        Err(Failure::Contract(Error::Paused))
    );
    assert_eq!(pad.check_access(&investor), Err(Error::Paused));
    // Listing still works while paused.
    assert_eq!(
        pad.set_whitelist(admin.clone(), alice.clone(), true, &all),
        Ok(WhitelistEvent { investor: alice.clone(), approved: true })
    );
    assert_eq!(pad.balance(&alice), Ok(50));
}

#[test]
fn whitelist_reads_back_per_investor() {
    let (mut pad, admin) = launched();
    let a = addr("a");
    let b = addr("b");
    pad.set_whitelist(admin.clone(), a.clone(), true, &[admin.clone()]).unwrap();
    assert_eq!(pad.is_whitelisted(&a), Ok(true));
    assert_eq!(pad.is_whitelisted(&b), Ok(false));
    assert_eq!(pad.stored_whitelist(&b), None);
    pad.set_whitelist(admin.clone(), b.clone(), false, &[admin.clone()]).unwrap();
    assert_eq!(pad.stored_whitelist(&b), Some(false));
    assert_eq!(pad.is_whitelisted(&a), Ok(true));
}

#[test]
fn remaining_slots_never_goes_below_zero() {
    let admin = addr("admin");
    let investor = addr("investor");
    let mut pad = RwaLaunchpad::from_storage(Some(admin), Some(asset(false)), Some(12)).unwrap();
    pad.load_whitelist(&investor, Some(true));
    assert_eq!(pad.remaining_slots(), Ok(0));
    assert_eq!(pad.check_access(&investor), Err(Error::NoSlotsAvailable));
    assert_eq!(pad.consume_investment_slot(&investor), Err(Error::NoSlotsAvailable));
    assert_eq!(pad.stored_used_slots(), Some(12));
}

#[test]
fn missing_slot_counter_counts_as_none_used() {
    let admin = addr("admin");
    let investor = addr("investor");
    let mut pad = RwaLaunchpad::from_storage(Some(admin), Some(asset(false)), None).unwrap();
    pad.load_whitelist(&investor, Some(true));
    assert_eq!(pad.remaining_slots(), Ok(10));
    assert_eq!(pad.consume_investment_slot(&investor), Ok(()));
    assert_eq!(pad.stored_used_slots(), Some(1));
    assert_eq!(pad.remaining_slots(), Ok(9));
}

#[test]
fn storage_without_asset_is_not_loaded() {
    assert!(RwaLaunchpad::from_storage(Some(addr("admin")), None, Some(0)).is_none());
    assert!(RwaLaunchpad::from_storage(None, None, None).is_some());
    assert!(RwaLaunchpad::from_storage(None, Some(asset(false)), None).is_some());
}

#[test]
fn loaded_entries_read_back() {
    let (mut pad, _) = launched();
    let a = addr("a");
    pad.load_balance(&a, Some(42));
    assert_eq!(pad.balance(&a), Ok(42));
    assert_eq!(pad.stored_balance(&a), Some(42));
    pad.load_balance(&a, None);
    assert_eq!(pad.stored_balance(&a), None);
    assert_eq!(pad.balance(&a), Ok(0));
    pad.load_whitelist(&a, Some(true));
    assert_eq!(pad.is_whitelisted(&a), Ok(true));
    pad.load_whitelist(&a, None);
    assert_eq!(pad.stored_whitelist(&a), None);
}

#[test]
fn addresses_compare_by_text() {
    let a = addr("GABC");
    let b = addr("GABC");
    let c = addr("GXYZ");
    assert!(a.same_as(&b));
    assert!(!a.same_as(&c));
    assert_eq!(a, b);
    assert_ne!(a, c);
    assert_eq!(a.as_str(), "GABC");
    assert_eq!(a.to_text(), "GABC".to_string());
    assert_eq!(a.clone(), a);
}

#[test]
fn administration_is_fixed_after_operations() {
    let (mut pad, admin) = launched();
    let investor = addr("investor");
    pad.set_whitelist(admin.clone(), investor.clone(), true, &[admin.clone()]).unwrap();
    pad.mint(admin.clone(), investor.clone(), 9, &[admin.clone()]).unwrap();
    pad.transfer(investor.clone(), admin.clone(), 4, &[investor.clone()]).unwrap();
    pad.consume_investment_slot(&investor).unwrap();
    assert_eq!(pad.stored_admin(), Some(&admin));
    assert_eq!(pad.stored_asset().unwrap().name, "SBDEMO".to_string());
    assert_eq!(pad.balance(&investor), Ok(5));
    assert_eq!(pad.balance(&admin), Ok(4));
    assert_eq!(pad.remaining_slots(), Ok(9));
}
