//! The set of registered holders.

use crate::account::AccountId;
use crate::table::Table;
use vstd::prelude::*;

verus! {

/// The accounts registered as holders. Its view is the set of their names.
#[derive(Debug)]
pub struct HolderSet {
    members: Table<()>,
}

impl View for HolderSet {
    type V = Set<Seq<char>>;

    closed spec fn view(&self) -> Set<Seq<char>> {
        self.members@.dom()
    }
}

impl HolderSet {
    pub closed spec fn wf(&self) -> bool {
        self.members.wf()
    }

    /// The holders in the order in which a walk over the set meets them.
    pub closed spec fn order(&self) -> Seq<Seq<char>> {
        self.members.order()
    }

    /// A walk over the set meets every holder, and none twice.
    pub proof fn lemma_order(&self)
        requires
            self.wf(),
        ensures
            self.order().no_duplicates(),
            self.order().to_set() == self@,
            self@.finite(),
            self@.len() == self.order().len(),
    {
        self.members.lemma_order();
    }

    pub fn new() -> (holders: Self)
        ensures
            holders.wf(),
            holders@ == Set::<Seq<char>>::empty(),
    {
        let holders = HolderSet { members: Table::new() };
        holders
    }

    pub fn len(&self) -> (n: usize)
        requires
            self.wf(),
        ensures
            self@.finite(),
            n == self@.len(),
            n == self.order().len(),
    {
        proof {
            self.members.lemma_order();
        }
        self.members.len()
    }

    pub fn contains(&self, account: &AccountId) -> (found: bool)
        requires
            self.wf(),
        ensures
            found == self@.contains(account@),
    {
        self.members.contains(account.name())
    }

    /// Adds `account`; a holder already present stays as it is.
    pub fn insert(&mut self, account: &AccountId)
        requires
            old(self).wf(),
        ensures
            final(self).wf(),
            final(self)@ == old(self)@.insert(account@),
    {
        self.members.insert(account.name().clone(), ());
    }

    /// Takes `account` out, if it is there.
    pub fn remove(&mut self, account: &AccountId)
        requires
            old(self).wf(),
        ensures
            final(self).wf(),
            final(self)@ == old(self)@.remove(account@),
    {
        let _ = self.members.remove(account.name());
    }

    /// The name of the holder at place `i` of the walk.
    pub fn name_at(&self, i: usize) -> (name: &String)
        requires
            self.wf(),
            i < self.order().len(),
        ensures
            name@ == self.order()[i as int],
            self@.contains(name@),
    {
        proof {
            self.members.lemma_order();
        }
        self.members.key_at(i)
    }
}

} // verus!
