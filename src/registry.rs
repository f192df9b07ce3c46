use vstd::prelude::*;

use crate::table::Table;
use crate::types::AccountId;

verus! {

/// The store of registrations: a total map from names to their owners.
///
/// It checks nothing on writes; the reservation policy decides what may be
/// written.
pub struct Registry {
    table: Table<Vec<u8>, AccountId>,
}

impl View for Registry {
    type V = Map<Seq<u8>, AccountId>;

    closed spec fn view(&self) -> Map<Seq<u8>, AccountId> {
        self.table@
    }
}

impl Registry {
    /// The underlying table is consistent.
    pub closed spec fn wf(&self) -> bool {
        self.table.wf()
    }

    /// A consistent store holds finitely many registrations.
    pub proof fn lemma_finite(&self)
        requires
            self.wf(),
        ensures
            self@.dom().finite(),
    {
        self.table.lemma_finite();
    }

    /// A store with no registrations.
    pub fn new() -> (r: Self)
        ensures
            r.wf(),
            r@ == Map::<Seq<u8>, AccountId>::empty(),
    {
        Registry { table: Table::new() }
    }

    /// True iff `name` has a registration.
    pub fn contains(&self, name: &[u8]) -> (r: bool)
        requires
            self.wf(),
        ensures
            r == self@.contains_key(name@),
    {
        self.get_owner(name).is_some()
    }

    /// The owner of `name`, or `None` where the name is free.
    pub fn get_owner(&self, name: &[u8]) -> (r: Option<AccountId>)
        requires
            self.wf(),
        ensures
            r == (if self@.contains_key(name@) {
                Some(self@[name@])
            } else {
                None::<AccountId>
            }),
    {
        self.table.get(name)
    }

    /// Registers `name` to `owner`, replacing any earlier owner.
    pub fn put(&mut self, name: Vec<u8>, owner: AccountId)
        requires
            old(self).wf(),
        ensures
            final(self).wf(),
            final(self)@ == old(self)@.insert(name@, owner),
    {
        self.table.insert(name, owner);
    }
}

} // verus!
