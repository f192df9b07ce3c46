use vstd::prelude::*;

use crate::currency::{moved, Currency};
use crate::registry::Registry;
use crate::types::{AccountId, Balance, Error, TransferError};

verus! {

/// The bounds that every name must keep, both inclusive.
#[derive(Clone, Copy, Debug, PartialEq, Eq, Structural)]
pub struct Config {
    /// The minimum length a name may be.
    pub min_length: u32,
    /// The maximum length a name may be.
    pub max_length: u32,
}

/// What a successful operation reports to the host.
#[derive(Debug, PartialEq, Eq)]
pub enum Event {
    /// `who` reserved `name`.
    Reserved { who: AccountId, name: Vec<u8> },
    /// `from` handed `name` on to `to`.
    Transferred { from: AccountId, to: AccountId, name: Vec<u8> },
}

/// An event with its name as a sequence of bytes.
pub enum EventModel {
    Reserved { who: AccountId, name: Seq<u8> },
    Transferred { from: AccountId, to: AccountId, name: Seq<u8> },
}

impl View for Event {
    type V = EventModel;

    open spec fn view(&self) -> EventModel {
        match self {
            Event::Reserved { who, name } => EventModel::Reserved { who: *who, name: name@ },
            Event::Transferred { from, to, name } => EventModel::Transferred {
                from: *from,
                to: *to,
                name: name@,
            },
        }
    }
}

/// The settings that the registry starts from.
#[derive(Clone, Copy, Debug, PartialEq, Eq, Structural)]
pub struct GenesisConfig {
    /// What a reservation costs.
    pub reservation_fee: Balance,
    /// The account that receives reservation fees, if any.
    pub reservation_account: Option<AccountId>,
}

/// The registry of names together with its reservation policy.
pub struct Pallet {
    config: Config,
    ans: Registry,
    reservation_fee: Balance,
    reservation_account: Option<AccountId>,
    events: Vec<Event>,
}

impl GenesisConfig {
    /// A registry with no names, which charges `reservation_fee` and pays it
    /// to `reservation_account`.
    pub fn build(&self, config: Config) -> (r: Pallet)
        ensures
            r.wf(),
            r.bounds() == config,
            r.names() == Map::<Seq<u8>, AccountId>::empty(),
            r.log() == Seq::<EventModel>::empty(),
            r.fee() == self.reservation_fee,
            r.fee_account() == self.reservation_account,
    {
        let r = Pallet {
            config,
            ans: Registry::new(),
            reservation_fee: self.reservation_fee,
            reservation_account: self.reservation_account,
            events: Vec::new(),
        };
        assert(r.events@.map_values(|e: Event| e@) =~= Seq::<EventModel>::empty());
        r
    }
}

/// True iff `n` is a length that a name may have under `c`.
pub open spec fn length_ok(c: Config, n: nat) -> bool {
    c.min_length <= n <= c.max_length
}

/// What `reserve` of `name` by `caller` does: from registry `p` and ledger
/// `c` it leads to `p2` and `c2` and returns `r`.
pub open spec fn reserve_post<C: Currency>(
    p: Pallet,
    c: C,
    p2: Pallet,
    c2: C,
    caller: AccountId,
    name: Seq<u8>,
    r: Result<(), Error>,
) -> bool {
    &&& r is Err ==> p2 == p
    &&& r is Err ==> forall|a: AccountId| #[trigger] c2.balance(a) == c.balance(a)
    &&& p.reserve_refusal(name) matches Some(e) ==> r == Err::<(), Error>(e)
    &&& p.reserve_refusal(name) is None ==> {
        &&& c.balance(caller) < p.fee() ==> r == Err::<(), Error>(
            Error::Transfer(TransferError::InsufficientBalance),
        )
        &&& r == paid_outcome(c.transfer_result(caller, p.fee_account()->Some_0, p.fee()))
        &&& r is Ok ==> {
            &&& p2.names() == p.names().insert(name, caller)
            &&& p2.log() == p.log().push(EventModel::Reserved { who: caller, name })
            &&& Pallet::same_settings(p2, p)
            &&& forall|a: AccountId| #[trigger]
                c2.balance(a) == moved(
                    c.balance(a),
                    a,
                    caller,
                    p.fee_account()->Some_0,
                    p.fee() as nat,
                )
        }
    }
}

/// What a reservation returns once the fee payment came back with `paid`:
/// success, or the payment's error passed on unchanged.
pub open spec fn paid_outcome(paid: Result<(), TransferError>) -> Result<(), Error> {
    match paid {
        Ok(()) => Ok(()),
        Err(e) => Err(Error::Transfer(e)),
    }
}

/// What `transfer_to` of `name` by `caller` to `to` does: from registry `p`
/// it leads to `p2` and returns `r`.
pub open spec fn transfer_post(
    p: Pallet,
    p2: Pallet,
    caller: AccountId,
    name: Seq<u8>,
    to: AccountId,
    r: Result<(), Error>,
) -> bool {
    &&& p.transfer_refusal(caller, name) matches Some(e) ==> {
        &&& r == Err::<(), Error>(e)
        &&& p2 == p
    }
    &&& p.transfer_refusal(caller, name) is None ==> {
        &&& r is Ok
        &&& p2.names() == p.names().insert(name, to)
        &&& p2.log() == p.log().push(EventModel::Transferred { from: caller, to, name })
        &&& Pallet::same_settings(p2, p)
    }
}

impl Pallet {
    /// Who owns which name.
    pub closed spec fn names(&self) -> Map<Seq<u8>, AccountId> {
        self.ans@
    }

    /// The events emitted so far, oldest first.
    pub closed spec fn log(&self) -> Seq<EventModel> {
        self.events@.map_values(|e: Event| e@)
    }

    /// The bounds on the length of a name.
    pub closed spec fn bounds(&self) -> Config {
        self.config
    }

    /// What a reservation costs.
    pub closed spec fn fee(&self) -> Balance {
        self.reservation_fee
    }

    /// The account that receives reservation fees, if any.
    pub closed spec fn fee_account(&self) -> Option<AccountId> {
        self.reservation_account
    }

    /// The store is consistent and every registered name has a valid length.
    pub closed spec fn wf(&self) -> bool {
        &&& self.ans.wf()
        &&& forall|k: Seq<u8>| #[trigger]
            self.ans@.contains_key(k) ==> length_ok(self.config, k.len())
    }

    /// A registry holds finitely many names, each of a valid length.
    pub proof fn registered_names_valid(&self)
        requires
            self.wf(),
        ensures
            self.names().dom().finite(),
            forall|k: Seq<u8>| #[trigger]
                self.names().contains_key(k) ==> length_ok(self.bounds(), k.len()),
    {
        self.ans.lemma_finite();
    }

    /// `a` and `b` have the same bounds, fee and fee account.
    pub open spec fn same_settings(a: Pallet, b: Pallet) -> bool {
        &&& a.bounds() == b.bounds()
        &&& a.fee() == b.fee()
        &&& a.fee_account() == b.fee_account()
    }

    /// The owner of `name`, or `None` where the name is free.
    pub open spec fn owner_of(&self, name: Seq<u8>) -> Option<AccountId> {
        if self.names().contains_key(name) {
            Some(self.names()[name])
        } else {
            None
        }
    }

    /// Why `reserve` of `name` is refused before any fee is asked, if it is.
    pub open spec fn reserve_refusal(&self, name: Seq<u8>) -> Option<Error> {
        if name.len() > self.bounds().max_length {
            Some(Error::TooLong)
        } else if name.len() < self.bounds().min_length {
            Some(Error::TooShort)
        } else if self.names().contains_key(name) {
            Some(Error::AlreadyReserved)
        } else if self.fee_account() is None {
            Some(Error::ReserveAccountNotConfigured)
        } else {
            None
        }
    }

    /// Why `transfer_to` of `name` by `caller` is refused, if it is.
    pub open spec fn transfer_refusal(&self, caller: AccountId, name: Seq<u8>) -> Option<Error> {
        if name.len() > self.bounds().max_length {
            Some(Error::TooLong)
        } else if !self.names().contains_key(name) {
            Some(Error::NotFound)
        } else if self.names()[name] != caller {
            Some(Error::NotOwner)
        } else {
            None
        }
    }

    /// Reserves `name` for `caller`, who pays the reservation fee to the
    /// fee account. The checks run in this order: too long, too short,
    /// already reserved, no fee account, the payment. On any refusal
    /// nothing changes, neither here nor in `currency`.
    pub fn reserve<C: Currency>(&mut self, currency: &mut C, caller: AccountId, name: Vec<u8>) -> (r: Result<(), Error>)
        requires
            old(self).wf(),
            old(currency).inv(),
        ensures
            final(self).wf(),
            final(currency).inv(),
            reserve_post(*old(self), *old(currency), *final(self), *final(currency), caller, name@, r),
    {
        if name.len() > self.config.max_length as usize {
            return Err(Error::TooLong);
        }
        if name.len() < self.config.min_length as usize {
            return Err(Error::TooShort);
        }
        if self.ans.contains(name.as_slice()) {
            return Err(Error::AlreadyReserved);
        }
        match self.reservation_account {
            None => Err(Error::ReserveAccountNotConfigured),
            Some(account) => {
                let paid = currency.transfer(caller, account, self.reservation_fee);
                self.complete_reserve(caller, name, paid)
            },
        }
    }

    /// Finishes the reservation of `name` for `caller`, which passed every
    /// check, once the fee payment came back with `paid`: on success the
    /// name is registered to `caller` and `Reserved` is emitted; on failure
    /// the payment's error is returned and nothing changes.
    pub fn complete_reserve(&mut self, caller: AccountId, name: Vec<u8>, paid: Result<(), TransferError>) -> (r: Result<(), Error>)
        requires
            old(self).wf(),
            old(self).reserve_refusal(name@) is None,
        ensures
            final(self).wf(),
            r == paid_outcome(paid),
            paid is Ok ==> {
                &&& final(self).names() == old(self).names().insert(name@, caller)
                &&& final(self).log() == old(self).log().push(
                    EventModel::Reserved { who: caller, name: name@ },
                )
                &&& Pallet::same_settings(*final(self), *old(self))
            },
            paid is Err ==> *final(self) == *old(self),
    {
        match paid {
            Err(e) => Err(Error::Transfer(e)),
            Ok(()) => {
                let key = name.clone();
                assert(key@ =~= name@);
                self.ans.put(key, caller);
                let ghost before = self.events@;
                self.events.push(Event::Reserved { who: caller, name });
                assert(self.events@.map_values(|e: Event| e@) =~= before.map_values(
                    |e: Event| e@,
                ).push(EventModel::Reserved { who: caller, name: name@ }));
                Ok(())
            },
        }
    }

    /// Hands `name` on from `caller`, its owner, to `to`. On any refusal
    /// nothing changes.
    pub fn transfer_to(&mut self, caller: AccountId, name: Vec<u8>, to: AccountId) -> (r: Result<(), Error>)
        requires
            old(self).wf(),
        ensures
            final(self).wf(),
            transfer_post(*old(self), *final(self), caller, name@, to, r),
    {
        if name.len() > self.config.max_length as usize {
            return Err(Error::TooLong);
        }
        match self.ans.get_owner(name.as_slice()) {
            None => Err(Error::NotFound),
            Some(current_owner) => {
                if caller != current_owner {
                    return Err(Error::NotOwner);
                }
                let key = name.clone();
                assert(key@ =~= name@);
                self.ans.put(key, to);
                let ghost before = self.events@;
                self.events.push(Event::Transferred { from: caller, to, name });
                assert(self.events@.map_values(|e: Event| e@) =~= before.map_values(
                    |e: Event| e@,
                ).push(EventModel::Transferred { from: caller, to, name: name@ }));
                Ok(())
            },
        }
    }

    /// The owner of `name`, or `None` where the name is free.
    pub fn get_owner(&self, name: &[u8]) -> (r: Option<AccountId>)
        requires
            self.wf(),
        ensures
            r == self.owner_of(name@),
    {
        self.ans.get_owner(name)
    }

    /// What a reservation costs.
    pub fn get_reservation_fee(&self) -> (r: Balance)
        ensures
            r == self.fee(),
    {
        self.reservation_fee
    }

    /// The account that receives reservation fees, if any.
    pub fn get_reservation_account(&self) -> (r: Option<AccountId>)
        ensures
            r == self.fee_account(),
    {
        self.reservation_account
    }

    /// The events emitted so far, oldest first.
    pub fn events(&self) -> (r: &Vec<Event>)
        ensures
            r@.map_values(|e: Event| e@) == self.log(),
    {
        &self.events
    }
}

} // verus!
