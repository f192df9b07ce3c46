use vstd::prelude::*;

use crate::table::Table;
use crate::types::{AccountId, Balance, TransferError};

verus! {

/// What `who` holds after `amount` has moved from `from` to `to`, given that
/// it held `before`.
pub open spec fn moved(before: nat, who: AccountId, from: AccountId, to: AccountId, amount: nat) -> int {
    before - (if who == from { amount } else { 0 }) + (if who == to { amount } else { 0 })
}

/// The host's capability to move value between accounts.
pub trait Currency {
    /// What `who` holds.
    spec fn balance(&self, who: AccountId) -> nat;

    /// What `transfer(from, to, amount)` returns on this ledger.
    spec fn transfer_result(&self, from: AccountId, to: AccountId, amount: Balance) -> Result<(), TransferError>;

    /// The internal consistency of the ledger.
    spec fn inv(&self) -> bool;

    /// Moves `amount` from `from` to `to`. The sender may be left with
    /// nothing. On failure no balance changes.
    fn transfer(&mut self, from: AccountId, to: AccountId, amount: Balance) -> (r: Result<(), TransferError>)
        requires
            old(self).inv(),
        ensures
            final(self).inv(),
            r == old(self).transfer_result(from, to, amount),
            old(self).balance(from) < amount ==> r == Err::<(), TransferError>(
                TransferError::InsufficientBalance,
            ),
            r is Ok ==> forall|a: AccountId|
                #[trigger] final(self).balance(a) == moved(
                    old(self).balance(a),
                    a,
                    from,
                    to,
                    amount as nat,
                ),
            r is Err ==> forall|a: AccountId| #[trigger]
                final(self).balance(a) == old(self).balance(a),
    ;
}

/// A ledger of balances, one per account; an account not listed holds zero.
pub struct Balances {
    table: Table<AccountId, Balance>,
}

impl View for Balances {
    type V = Map<AccountId, Balance>;

    closed spec fn view(&self) -> Map<AccountId, Balance> {
        self.table@
    }
}

impl Balances {
    /// The underlying table is consistent.
    pub closed spec fn wf(&self) -> bool {
        self.table.wf()
    }

    /// What `who` holds, as a number.
    pub open spec fn held(&self, who: AccountId) -> nat {
        if self@.contains_key(who) {
            self@[who] as nat
        } else {
            0
        }
    }

    /// A ledger in which every account holds zero.
    pub fn new() -> (r: Self)
        ensures
            r.wf(),
            forall|a: AccountId| #[trigger] r.held(a) == 0,
    {
        Balances { table: Table::new() }
    }

    /// What `who` holds.
    pub fn free_balance(&self, who: AccountId) -> (r: Balance)
        requires
            self.wf(),
        ensures
            r == self.held(who),
    {
        match self.table.get(&who) {
            Some(amount) => amount,
            None => 0,
        }
    }

    /// Sets what `who` holds to `amount`, leaving every other account as it was.
    pub fn set_balance(&mut self, who: AccountId, amount: Balance)
        requires
            old(self).wf(),
        ensures
            final(self).wf(),
            final(self).held(who) == amount,
            forall|a: AccountId| a != who ==> #[trigger] final(self).held(a) == old(self).held(a),
    {
        self.table.insert(who, amount);
    }
}

impl Currency for Balances {
    open spec fn balance(&self, who: AccountId) -> nat {
        self.held(who)
    }

    /// Refused when the sender holds too little, or when the receiver's
    /// balance would pass the largest `Balance`; a transfer to oneself only
    /// needs the sender to hold the amount.
    open spec fn transfer_result(&self, from: AccountId, to: AccountId, amount: Balance) -> Result<(), TransferError> {
        if self.held(from) < amount {
            Err(TransferError::InsufficientBalance)
        } else if from != to && self.held(to) + amount > Balance::MAX {
            Err(TransferError::Overflow)
        } else {
            Ok(())
        }
    }

    open spec fn inv(&self) -> bool {
        self.wf()
    }

    fn transfer(&mut self, from: AccountId, to: AccountId, amount: Balance) -> (r: Result<(), TransferError>) {
        let held_from = self.free_balance(from);
        if held_from < amount {
            return Err(TransferError::InsufficientBalance);
        }
        if from == to {
            return Ok(());
        }
        let held_to = self.free_balance(to);
        if held_to > Balance::MAX - amount {
            return Err(TransferError::Overflow);
        }
        self.set_balance(from, held_from - amount);
        self.set_balance(to, held_to + amount);
        Ok(())
    }
}

} // verus!
