use vstd::prelude::*;

use crate::currency::{moved, Balances, Currency};
use crate::pallet::{length_ok, paid_outcome, reserve_post, transfer_post, EventModel, Pallet};
use crate::types::{AccountId, Balance, Error};

verus! {

/// A name shorter than the minimum, and not longer than the maximum, is
/// refused as too short, and the registry is left as it was.
pub proof fn reserve_too_short_refused<C: Currency>(
    p: Pallet,
    c: C,
    p2: Pallet,
    c2: C,
    caller: AccountId,
    name: Seq<u8>,
    r: Result<(), Error>,
)
    requires
        reserve_post(p, c, p2, c2, caller, name, r),
        name.len() < p.bounds().min_length,
        name.len() <= p.bounds().max_length,
    ensures
        r == Err::<(), Error>(Error::TooShort),
        p2 == p,
{
}

/// A name longer than the maximum is refused as too long.
pub proof fn reserve_too_long_refused<C: Currency>(
    p: Pallet,
    c: C,
    p2: Pallet,
    c2: C,
    caller: AccountId,
    name: Seq<u8>,
    r: Result<(), Error>,
)
    requires
        reserve_post(p, c, p2, c2, caller, name, r),
        name.len() > p.bounds().max_length,
    ensures
        r == Err::<(), Error>(Error::TooLong),
{
}

/// Reserving a free name of valid length, with a fee account set, returns
/// what the fee payment returned, its error passed on unchanged. When the
/// payment succeeds so does the reservation: exactly one registration is
/// added, owned by the caller, and `Reserved` is emitted.
pub proof fn reserve_free_name_registers<C: Currency>(
    p: Pallet,
    c: C,
    p2: Pallet,
    c2: C,
    caller: AccountId,
    name: Seq<u8>,
    r: Result<(), Error>,
)
    requires
        p.wf(),
        reserve_post(p, c, p2, c2, caller, name, r),
        length_ok(p.bounds(), name.len()),
        !p.names().contains_key(name),
        p.fee_account() is Some,
    ensures
        r == paid_outcome(c.transfer_result(caller, p.fee_account()->Some_0, p.fee())),
        c.transfer_result(caller, p.fee_account()->Some_0, p.fee()) is Ok ==> {
            &&& r is Ok
            &&& p2.names().dom() == p.names().dom().insert(name)
            &&& p2.names().dom().len() == p.names().dom().len() + 1
            &&& forall|k: Seq<u8>| k != name && #[trigger] p.names().contains_key(k)
                ==> p2.names()[k] == p.names()[k]
            &&& p2.owner_of(name) == Some(caller)
            &&& p2.log() == p.log().push(EventModel::Reserved { who: caller, name })
        },
{
    if r is Ok {
        assert(p2.names().dom() =~= p.names().dom().insert(name));
        p.registered_names_valid();
    }
}

/// On the ledger of this library, a caller who holds the fee reserves a free
/// name of valid length, unless the fee account's balance would pass the
/// largest `Balance`.
pub proof fn reserve_with_funds_succeeds(
    p: Pallet,
    c: Balances,
    p2: Pallet,
    c2: Balances,
    caller: AccountId,
    name: Seq<u8>,
    r: Result<(), Error>,
)
    requires
        reserve_post(p, c, p2, c2, caller, name, r),
        length_ok(p.bounds(), name.len()),
        !p.names().contains_key(name),
        p.fee_account() is Some,
        c.held(caller) >= p.fee(),
        caller == p.fee_account()->Some_0 || c.held(p.fee_account()->Some_0) + p.fee()
            <= Balance::MAX,
    ensures
        r is Ok,
        p2.owner_of(name) == Some(caller),
{
}

/// Reserving a name that is already reserved is refused, whoever asks, and
/// its owner stays the same.
pub proof fn reserve_taken_name_refused<C: Currency>(
    p: Pallet,
    c: C,
    p2: Pallet,
    c2: C,
    caller: AccountId,
    name: Seq<u8>,
    r: Result<(), Error>,
)
    requires
        reserve_post(p, c, p2, c2, caller, name, r),
        p.wf(),
        p.names().contains_key(name),
    ensures
        r == Err::<(), Error>(Error::AlreadyReserved),
        p2.owner_of(name) == p.owner_of(name),
{
    p.registered_names_valid();
}

/// The owner of a name can hand it to any account; the former owner then
/// can no longer hand it on.
pub proof fn transfer_by_owner_moves_ownership(
    p: Pallet,
    p2: Pallet,
    p3: Pallet,
    owner: AccountId,
    name: Seq<u8>,
    to: AccountId,
    to2: AccountId,
    r: Result<(), Error>,
    r2: Result<(), Error>,
)
    requires
        p.wf(),
        p.owner_of(name) == Some(owner),
        transfer_post(p, p2, owner, name, to, r),
        transfer_post(p2, p3, owner, name, to2, r2),
        owner != to,
    ensures
        r is Ok,
        p2.owner_of(name) == Some(to),
        p2.log() == p.log().push(EventModel::Transferred { from: owner, to, name }),
        r2 == Err::<(), Error>(Error::NotOwner),
        p3 == p2,
{
    p.registered_names_valid();
}

/// Handing on a name that nobody holds is refused as not found, whoever
/// asks.
pub proof fn transfer_of_free_name_not_found(
    p: Pallet,
    p2: Pallet,
    caller: AccountId,
    name: Seq<u8>,
    to: AccountId,
    r: Result<(), Error>,
)
    requires
        transfer_post(p, p2, caller, name, to, r),
        p.owner_of(name) is None,
        name.len() <= p.bounds().max_length,
    ensures
        r == Err::<(), Error>(Error::NotFound),
        p2 == p,
{
}

/// Without a fee account every reservation fails, no value moves and no
/// name is registered; a free name of valid length is refused for exactly
/// that reason.
pub proof fn reserve_without_fee_account_fails<C: Currency>(
    p: Pallet,
    c: C,
    p2: Pallet,
    c2: C,
    caller: AccountId,
    name: Seq<u8>,
    r: Result<(), Error>,
)
    requires
        reserve_post(p, c, p2, c2, caller, name, r),
        p.fee_account() is None,
    ensures
        r is Err,
        forall|a: AccountId| #[trigger] c2.balance(a) == c.balance(a),
        p2.names() == p.names(),
        length_ok(p.bounds(), name.len()) && !p.names().contains_key(name) ==> r
            == Err::<(), Error>(Error::ReserveAccountNotConfigured),
{
}

/// A successful reservation takes exactly the fee from the caller and gives
/// it to the fee account; a caller holding less than the fee is refused,
/// and then neither a balance nor the registry changes.
pub proof fn reserve_pays_exactly_the_fee<C: Currency>(
    p: Pallet,
    c: C,
    p2: Pallet,
    c2: C,
    caller: AccountId,
    name: Seq<u8>,
    r: Result<(), Error>,
)
    requires
        reserve_post(p, c, p2, c2, caller, name, r),
    ensures
        r is Ok ==> p.fee_account() is Some && forall|a: AccountId|
            #[trigger] c2.balance(a) == moved(
                c.balance(a),
                a,
                caller,
                p.fee_account()->Some_0,
                p.fee() as nat,
            ),
        r is Ok && caller != p.fee_account()->Some_0 ==> {
            &&& c2.balance(caller) == c.balance(caller) - p.fee()
            &&& c2.balance(p.fee_account()->Some_0) == c.balance(p.fee_account()->Some_0) + p.fee()
        },
        c.balance(caller) < p.fee() ==> {
            &&& r is Err
            &&& p2.names() == p.names()
            &&& forall|a: AccountId| #[trigger] c2.balance(a) == c.balance(a)
        },
{
    if r is Ok && caller != p.fee_account()->Some_0 {
        assert(c2.balance(caller) == moved(c.balance(caller), caller, caller, p.fee_account()->Some_0, p.fee() as nat));
        let acct = p.fee_account()->Some_0;
        assert(c2.balance(acct) == moved(c.balance(acct), acct, caller, acct, p.fee() as nat));
    }
}

/// Looking up a name twice, with nothing changed between, gives the same
/// answer: the owner is a function of the registry and the name.
pub proof fn get_owner_idempotent(
    p: Pallet,
    q: Pallet,
    name: Seq<u8>,
    r1: Option<AccountId>,
    r2: Option<AccountId>,
)
    requires
        q == p,
        r1 == p.owner_of(name),
        r2 == q.owner_of(name),
    ensures
        r1 == r2,
{
}

} // verus!
