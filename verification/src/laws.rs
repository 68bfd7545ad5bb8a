//! Properties of the launchpad that span its operations, proved over the
//! transition functions that the operations' contracts are stated in.
use vstd::prelude::*;

use crate::address::Address;
use crate::asset::AssetView;
use crate::error::{Error, Failure};
use crate::model::{
    access_result, consume_result, empty_view, initialize_result, mint_result, set_whitelist_result,
    fits_i128, signed_by, transfer_result, LaunchpadView, MAX_SLOTS,
};

verus! {

/// A successful `initialize` stores the administrator and the asset and
/// opens all slots; from then on every further `initialize` is refused
/// with `AlreadyInitialized`, whoever signs it.
pub proof fn initialize_only_once(
    s: LaunchpadView,
    admin: Seq<char>,
    asset: AssetView,
    signers: Seq<Address>,
    admin2: Seq<char>,
    asset2: AssetView,
    signers2: Seq<Address>,
)
    requires
        initialize_result(s, admin, asset, signers) is Ok,
    ensures
        ({
            let n = initialize_result(s, admin, asset, signers)->Ok_0;
            &&& n.admin == Some(admin)
            &&& n.asset == Some(asset)
            &&& n.slots_left() == MAX_SLOTS
            &&& n.balances == s.balances
            &&& n.whitelist == s.whitelist
            &&& initialize_result(n, admin2, asset2, signers2) == Err::<LaunchpadView, Failure>(
                Failure::Contract(Error::AlreadyInitialized),
            )
        }),
{
}

/// Once initialized, the administrator and the asset description never
/// change: no other operation rewrites them.
pub proof fn administration_is_fixed(
    s: LaunchpadView,
    caller: Seq<char>,
    a: Seq<char>,
    b: Seq<char>,
    amount: i128,
    approved: bool,
    signers: Seq<Address>,
)
    ensures
        mint_result(s, caller, a, amount, signers) matches Ok(n) ==> n.admin == s.admin && n.asset
            == s.asset,
        transfer_result(s, a, b, amount, signers) matches Ok(n) ==> n.admin == s.admin && n.asset
            == s.asset,
        set_whitelist_result(s, caller, a, approved, signers) matches Ok(n) ==> n.admin == s.admin
            && n.asset == s.asset,
        consume_result(s, a) matches Ok(n) ==> n.admin == s.admin && n.asset == s.asset,
{
}

/// Only the stored administrator, having authorized the call and naming
/// itself as the caller, can mint or change the whitelist.
pub proof fn only_admin_mints_and_lists(
    s: LaunchpadView,
    caller: Seq<char>,
    who: Seq<char>,
    amount: i128,
    approved: bool,
    signers: Seq<Address>,
)
    ensures
        mint_result(s, caller, who, amount, signers) is Ok ==> s.admin == Some(caller) && signed_by(
            signers,
            caller,
        ),
        set_whitelist_result(s, caller, who, approved, signers) is Ok ==> s.admin == Some(caller)
            && signed_by(signers, caller),
{
}

/// The administrator's authorization alone is not enough: a caller other
/// than the stored administrator is refused with `Unauthorized`.
pub proof fn wrong_caller_is_unauthorized(
    s: LaunchpadView,
    caller: Seq<char>,
    who: Seq<char>,
    amount: i128,
    approved: bool,
    signers: Seq<Address>,
)
    requires
        s.admin matches Some(admin) && signed_by(signers, admin) && caller != admin,
    ensures
        mint_result(s, caller, who, amount, signers) == Err::<LaunchpadView, Failure>(
            Failure::Contract(Error::Unauthorized),
        ),
        set_whitelist_result(s, caller, who, approved, signers) == Err::<LaunchpadView, Failure>(
            Failure::Contract(Error::Unauthorized),
        ),
{
}

/// A mint credits exactly `amount` to `to` and touches nothing else: no
/// other balance, no whitelist entry, no slot.
pub proof fn mint_credits_exactly(
    s: LaunchpadView,
    caller: Seq<char>,
    to: Seq<char>,
    amount: i128,
    signers: Seq<Address>,
)
    requires
        mint_result(s, caller, to, amount, signers) is Ok,
    ensures
        ({
            let n = mint_result(s, caller, to, amount, signers)->Ok_0;
            &&& amount > 0
            &&& n.balance_of(to) == s.balance_of(to) + amount
            &&& forall|x: Seq<char>| x != to ==> #[trigger] n.balance_of(x) == s.balance_of(x)
            &&& n.whitelist == s.whitelist
            &&& n.used_slots == s.used_slots
        }),
{
}

/// A transfer between two different holders moves exactly `amount` from
/// one to the other: their sum is unchanged, so is every other balance,
/// the whitelist and the slots.
pub proof fn transfer_conserves_balances(
    s: LaunchpadView,
    from: Seq<char>,
    to: Seq<char>,
    amount: i128,
    signers: Seq<Address>,
)
    requires
        transfer_result(s, from, to, amount, signers) is Ok,
        from != to,
    ensures
        ({
            let n = transfer_result(s, from, to, amount, signers)->Ok_0;
            &&& n.balance_of(from) == s.balance_of(from) - amount
            &&& n.balance_of(to) == s.balance_of(to) + amount
            &&& n.balance_of(from) + n.balance_of(to) == s.balance_of(from) + s.balance_of(to)
            &&& forall|x: Seq<char>|
                x != from && x != to ==> #[trigger] n.balance_of(x) == s.balance_of(x)
            &&& n.whitelist == s.whitelist
            &&& n.used_slots == s.used_slots
        }),
{
}

/// A transfer to oneself that is accepted leaves the state as it was.
pub proof fn self_transfer_changes_nothing(
    s: LaunchpadView,
    holder: Seq<char>,
    amount: i128,
    signers: Seq<Address>,
)
    requires
        transfer_result(s, holder, holder, amount, signers) is Ok,
    ensures
        transfer_result(s, holder, holder, amount, signers) == Ok::<LaunchpadView, Failure>(s),
{
}

/// A transfer is refused, and so changes nothing, whenever the sender holds
/// less than `amount` (and the earlier checks pass).
pub proof fn transfer_needs_funds(
    s: LaunchpadView,
    from: Seq<char>,
    to: Seq<char>,
    amount: i128,
    signers: Seq<Address>,
)
    requires
        s.initialized(),
        signed_by(signers, from),
        !s.paused(),
        amount > 0,
        s.balance_of(from) < amount,
    ensures
        transfer_result(s, from, to, amount, signers) == Err::<LaunchpadView, Failure>(
            Failure::Contract(Error::InsufficientBalance),
        ),
{
}

/// What the administrator writes to the whitelist is what is read back;
/// no other investor's entry, no balance and no slot changes.
pub proof fn whitelist_reads_back(
    s: LaunchpadView,
    caller: Seq<char>,
    investor: Seq<char>,
    approved: bool,
    signers: Seq<Address>,
)
    requires
        set_whitelist_result(s, caller, investor, approved, signers) is Ok,
    ensures
        ({
            let n = set_whitelist_result(s, caller, investor, approved, signers)->Ok_0;
            &&& n.whitelisted(investor) == approved
            &&& forall|x: Seq<char>| x != investor ==> #[trigger] n.whitelisted(x) == s.whitelisted(x)
            &&& n.balances == s.balances
            &&& n.used_slots == s.used_slots
        }),
{
}

/// Consuming a slot succeeds exactly when the access check passes, fails
/// with the same error otherwise, and on success takes exactly one slot.
pub proof fn consume_agrees_with_access(s: LaunchpadView, investor: Seq<char>)
    ensures
        consume_result(s, investor) is Ok <==> access_result(s, investor) is Ok,
        access_result(s, investor) matches Err(e) ==> consume_result(s, investor) == Err::<
            LaunchpadView,
            Error,
        >(e),
        consume_result(s, investor) matches Ok(n) ==> {
            &&& n.slots_used() == s.slots_used() + 1
            &&& n.slots_left() + 1 == s.slots_left()
            &&& n.balances == s.balances
            &&& n.whitelist == s.whitelist
        },
{
}

/// No more than `MAX_SLOTS` slots are ever consumed: every operation keeps
/// the counter within the bound.
pub proof fn slots_stay_bounded(
    s: LaunchpadView,
    caller: Seq<char>,
    a: Seq<char>,
    b: Seq<char>,
    asset: AssetView,
    amount: i128,
    approved: bool,
    signers: Seq<Address>,
)
    requires
        s.slots_used() <= MAX_SLOTS,
    ensures
        initialize_result(s, a, asset, signers) matches Ok(n) ==> n.slots_used() <= MAX_SLOTS,
        mint_result(s, caller, a, amount, signers) matches Ok(n) ==> n.slots_used() <= MAX_SLOTS,
        transfer_result(s, a, b, amount, signers) matches Ok(n) ==> n.slots_used() <= MAX_SLOTS,
        set_whitelist_result(s, caller, a, approved, signers) matches Ok(n) ==> n.slots_used()
            <= MAX_SLOTS,
        consume_result(s, a) matches Ok(n) ==> n.slots_used() <= MAX_SLOTS,
{
}

/// No operation makes a balance negative.
pub proof fn balances_stay_nonnegative(
    s: LaunchpadView,
    caller: Seq<char>,
    a: Seq<char>,
    b: Seq<char>,
    asset: AssetView,
    amount: i128,
    approved: bool,
    signers: Seq<Address>,
)
    requires
        s.balances_nonnegative(),
    ensures
        initialize_result(s, a, asset, signers) matches Ok(n) ==> n.balances_nonnegative(),
        mint_result(s, caller, a, amount, signers) matches Ok(n) ==> n.balances_nonnegative(),
        transfer_result(s, a, b, amount, signers) matches Ok(n) ==> n.balances_nonnegative(),
        set_whitelist_result(s, caller, a, approved, signers) matches Ok(n)
            ==> n.balances_nonnegative(),
        consume_result(s, a) matches Ok(n) ==> n.balances_nonnegative(),
{
}

/// While the asset is paused, no tokens are minted or moved and no investor
/// gets access or a slot.
pub proof fn pause_blocks_activity(
    s: LaunchpadView,
    caller: Seq<char>,
    a: Seq<char>,
    b: Seq<char>,
    amount: i128,
    signers: Seq<Address>,
)
    requires
        s.paused(),
    ensures
        !(mint_result(s, caller, a, amount, signers) is Ok),
        !(transfer_result(s, a, b, amount, signers) is Ok),
        !(access_result(s, a) is Ok),
        !(consume_result(s, a) is Ok),
        s.initialized() ==> access_result(s, a) == Err::<(), Error>(Error::Paused),
{
}

/// `initialize` succeeds exactly on a contract that is not yet
/// initialized and with the new administrator's signature, whatever the
/// asset description (a paused one included); it then stores that
/// administrator and that description.
pub proof fn initialize_succeeds_exactly_when(
    s: LaunchpadView,
    admin: Seq<char>,
    asset: AssetView,
    signers: Seq<Address>,
)
    ensures
        initialize_result(s, admin, asset, signers) is Ok <==> (!s.initialized() && signed_by(
            signers,
            admin,
        )),
        initialize_result(s, admin, asset, signers) matches Ok(n) ==> n.admin == Some(admin)
            && n.asset == Some(asset) && n.slots_used() == 0,
{
}

/// `mint` succeeds exactly when the stored administrator signed and is the
/// caller, the asset is not paused, the amount is positive and the new
/// balance fits in an `i128`; the recipient's earlier balance matters only
/// through that bound. On success the recipient holds its earlier balance
/// plus `amount`.
pub proof fn mint_succeeds_exactly_when(
    s: LaunchpadView,
    caller: Seq<char>,
    to: Seq<char>,
    amount: i128,
    signers: Seq<Address>,
)
    ensures
        mint_result(s, caller, to, amount, signers) is Ok <==> {
            &&& s.admin == Some(caller)
            &&& signed_by(signers, caller)
            &&& !s.paused()
            &&& amount > 0
            &&& fits_i128(s.balance_of(to) + amount)
        },
        mint_result(s, caller, to, amount, signers) matches Ok(n) ==> n.balance_of(to)
            == s.balance_of(to) + amount,
{
}

/// `transfer` succeeds exactly when the contract is initialized and not
/// paused, the sender signed, `0 < amount <= balance_of(from)`, and either
/// the transfer is to oneself or the recipient's new balance fits in an
/// `i128`. On success between two holders, `amount` moves from one to the
/// other.
pub proof fn transfer_succeeds_exactly_when(
    s: LaunchpadView,
    from: Seq<char>,
    to: Seq<char>,
    amount: i128,
    signers: Seq<Address>,
)
    ensures
        transfer_result(s, from, to, amount, signers) is Ok <==> {
            &&& s.initialized()
            &&& signed_by(signers, from)
            &&& !s.paused()
            &&& 0 < amount <= s.balance_of(from)
            &&& (from == to || fits_i128(s.balance_of(to) + amount))
        },
        transfer_result(s, from, to, amount, signers) matches Ok(n) ==> (from != to ==> n.balance_of(
            from,
        ) == s.balance_of(from) - amount && n.balance_of(to) == s.balance_of(to) + amount),
{
}

/// The whitelist plays no part in a transfer: on two states that differ
/// only in their whitelists, a transfer gives the same answer and moves the
/// same balances.
pub proof fn transfer_ignores_whitelist(
    s: LaunchpadView,
    other_whitelist: Map<Seq<char>, bool>,
    from: Seq<char>,
    to: Seq<char>,
    amount: i128,
    signers: Seq<Address>,
)
    ensures
        ({
            let t = LaunchpadView { whitelist: other_whitelist, ..s };
            &&& (transfer_result(s, from, to, amount, signers) is Ok <==> transfer_result(
                t,
                from,
                to,
                amount,
                signers,
            ) is Ok)
            &&& (transfer_result(s, from, to, amount, signers) matches Err(f)
                ==> transfer_result(t, from, to, amount, signers) == Err::<LaunchpadView, Failure>(
                f,
            ))
            &&& (transfer_result(s, from, to, amount, signers) matches Ok(n)
                ==> transfer_result(t, from, to, amount, signers)->Ok_0.balances == n.balances)
        }),
{
}

/// `set_whitelist` succeeds exactly when the stored administrator signed
/// and is the caller, whatever the slot counter, the balances or the pause
/// flag; it then records `approved` for the investor.
pub proof fn set_whitelist_succeeds_exactly_when(
    s: LaunchpadView,
    caller: Seq<char>,
    investor: Seq<char>,
    approved: bool,
    signers: Seq<Address>,
)
    ensures
        set_whitelist_result(s, caller, investor, approved, signers) is Ok <==> (s.admin == Some(
            caller,
        ) && signed_by(signers, caller)),
        set_whitelist_result(s, caller, investor, approved, signers) matches Ok(n)
            ==> n.whitelisted(investor) == approved,
{
}

/// Access is granted exactly when the contract is initialized, not paused,
/// the investor is whitelisted and a slot is left; balances play no part.
/// Consuming a slot succeeds under the same condition.
pub proof fn access_granted_exactly_when(s: LaunchpadView, investor: Seq<char>)
    ensures
        access_result(s, investor) is Ok <==> {
            &&& s.initialized()
            &&& !s.paused()
            &&& s.whitelisted(investor)
            &&& s.slots_used() < MAX_SLOTS
        },
        consume_result(s, investor) is Ok <==> {
            &&& s.initialized()
            &&& !s.paused()
            &&& s.whitelisted(investor)
            &&& s.slots_used() < MAX_SLOTS
        },
{
}

/// Why a `mint` is refused: checks are made in the order initialized,
/// administrator's signature, caller, pause, amount, overflow, and the first
/// that fails names the refusal.
pub proof fn mint_refusals(
    s: LaunchpadView,
    caller: Seq<char>,
    to: Seq<char>,
    amount: i128,
    signers: Seq<Address>,
)
    ensures
        !s.initialized() ==> mint_result(s, caller, to, amount, signers) == Err::<
            LaunchpadView,
            Failure,
        >(Failure::Contract(Error::NotInitialized)),
        (s.admin matches Some(a) && !signed_by(signers, a)) ==> mint_result(
            s,
            caller,
            to,
            amount,
            signers,
        ) == Err::<LaunchpadView, Failure>(Failure::NotAuthorized),
        (s.admin == Some(caller) && signed_by(signers, caller) && s.paused()) ==> mint_result(
            s,
            caller,
            to,
            amount,
            signers,
        ) == Err::<LaunchpadView, Failure>(Failure::Contract(Error::Paused)),
        (s.admin == Some(caller) && signed_by(signers, caller) && !s.paused() && amount <= 0)
            ==> mint_result(s, caller, to, amount, signers) == Err::<LaunchpadView, Failure>(
            Failure::Contract(Error::InvalidAmount),
        ),
        (s.admin == Some(caller) && signed_by(signers, caller) && !s.paused() && amount > 0
            && !fits_i128(s.balance_of(to) + amount)) ==> mint_result(s, caller, to, amount, signers)
            == Err::<LaunchpadView, Failure>(Failure::Contract(Error::Overflow)),
{
}

/// Why a `transfer` is refused: checks are made in the order initialized,
/// sender's signature, pause, amount, funds, overflow (never for a transfer
/// to oneself), and the first that fails names the refusal.
pub proof fn transfer_refusals(
    s: LaunchpadView,
    from: Seq<char>,
    to: Seq<char>,
    amount: i128,
    signers: Seq<Address>,
)
    ensures
        !s.initialized() ==> transfer_result(s, from, to, amount, signers) == Err::<
            LaunchpadView,
            Failure,
        >(Failure::Contract(Error::NotInitialized)),
        (s.initialized() && !signed_by(signers, from)) ==> transfer_result(
            s,
            from,
            to,
            amount,
            signers,
        ) == Err::<LaunchpadView, Failure>(Failure::NotAuthorized),
        (s.initialized() && signed_by(signers, from) && s.paused()) ==> transfer_result(
            s,
            from,
            to,
            amount,
            signers,
        ) == Err::<LaunchpadView, Failure>(Failure::Contract(Error::Paused)),
        (s.initialized() && signed_by(signers, from) && !s.paused() && amount <= 0)
            ==> transfer_result(s, from, to, amount, signers) == Err::<LaunchpadView, Failure>(
            Failure::Contract(Error::InvalidAmount),
        ),
        (s.initialized() && signed_by(signers, from) && !s.paused() && 0 < amount && from != to
            && amount <= s.balance_of(from) && !fits_i128(s.balance_of(to) + amount))
            ==> transfer_result(s, from, to, amount, signers) == Err::<LaunchpadView, Failure>(
            Failure::Contract(Error::Overflow),
        ),
{
}

/// Why `set_whitelist` or `initialize` is refused.
pub proof fn admin_call_refusals(
    s: LaunchpadView,
    caller: Seq<char>,
    investor: Seq<char>,
    approved: bool,
    asset: AssetView,
    signers: Seq<Address>,
)
    ensures
        !s.initialized() ==> set_whitelist_result(s, caller, investor, approved, signers) == Err::<
            LaunchpadView,
            Failure,
        >(Failure::Contract(Error::NotInitialized)),
        (s.admin matches Some(a) && !signed_by(signers, a)) ==> set_whitelist_result(
            s,
            caller,
            investor,
            approved,
            signers,
        ) == Err::<LaunchpadView, Failure>(Failure::NotAuthorized),
        s.initialized() ==> initialize_result(s, caller, asset, signers) == Err::<
            LaunchpadView,
            Failure,
        >(Failure::Contract(Error::AlreadyInitialized)),
        (!s.initialized() && !signed_by(signers, caller)) ==> initialize_result(
            s,
            caller,
            asset,
            signers,
        ) == Err::<LaunchpadView, Failure>(Failure::NotAuthorized),
{
}

/// Why access (and so a slot) is refused: checks are made in the order
/// initialized, pause, whitelist, slots left.
pub proof fn access_refusals(s: LaunchpadView, investor: Seq<char>)
    ensures
        !s.initialized() ==> access_result(s, investor) == Err::<(), Error>(Error::NotInitialized),
        (s.initialized() && s.paused()) ==> access_result(s, investor) == Err::<(), Error>(
            Error::Paused,
        ),
        (s.initialized() && !s.paused() && !s.whitelisted(investor)) ==> access_result(s, investor)
            == Err::<(), Error>(Error::NotWhitelisted),
        (s.initialized() && !s.paused() && s.whitelisted(investor) && s.slots_used() >= MAX_SLOTS)
            ==> access_result(s, investor) == Err::<(), Error>(Error::NoSlotsAvailable),
{
}

/// A freshly initialized contract: nobody holds tokens, nobody is listed,
/// every slot is free.
pub proof fn fresh_contract_is_empty(
    admin: Seq<char>,
    asset: AssetView,
    signers: Seq<Address>,
    who: Seq<char>,
)
    requires
        signed_by(signers, admin),
    ensures
        initialize_result(empty_view(), admin, asset, signers) matches Ok(n) && n.balance_of(who)
            == 0 && !n.whitelisted(who) && n.slots_left() == MAX_SLOTS,
{
}

} // verus!
