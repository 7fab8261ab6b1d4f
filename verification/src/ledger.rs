//! Amounts kept per account.

use crate::account::AccountId;
use crate::table::Table;
use vstd::prelude::*;

verus! {

/// What `entries` records for `account`: an account without an entry has
/// nothing.
pub open spec fn balance_in(entries: Map<Seq<char>, u128>, account: Seq<char>) -> u128 {
    if entries.contains_key(account) {
        entries[account]
    } else {
        0
    }
}

/// Amounts kept per account. Its view is the map from account names to
/// amounts.
#[derive(Debug)]
pub struct Ledger {
    entries: Table<u128>,
}

impl View for Ledger {
    type V = Map<Seq<char>, u128>;

    closed spec fn view(&self) -> Map<Seq<char>, u128> {
        self.entries@
    }
}

impl Ledger {
    pub closed spec fn wf(&self) -> bool {
        self.entries.wf()
    }

    pub fn new() -> (ledger: Self)
        ensures
            ledger.wf(),
            ledger@ == Map::<Seq<char>, u128>::empty(),
    {
        Ledger { entries: Table::new() }
    }

    /// The accounts with an entry, in the order in which a walk meets
    /// them.
    pub closed spec fn order(&self) -> Seq<Seq<char>> {
        self.entries.order()
    }

    /// A walk over the ledger meets every account with an entry, and none
    /// twice.
    pub proof fn lemma_order(&self)
        requires
            self.wf(),
        ensures
            self.order().no_duplicates(),
            self.order().to_set() == self@.dom(),
            self@.dom().finite(),
            self@.dom().len() == self.order().len(),
    {
        self.entries.lemma_order();
    }

    /// How many accounts have an entry.
    pub fn len(&self) -> (n: usize)
        requires
            self.wf(),
        ensures
            n == self@.dom().len(),
            n == self.order().len(),
    {
        self.entries.len()
    }

    /// The name of the account at place `i` of the walk.
    pub fn name_at(&self, i: usize) -> (name: &String)
        requires
            self.wf(),
            i < self.order().len(),
        ensures
            name@ == self.order()[i as int],
            self@.contains_key(name@),
    {
        proof {
            self.entries.lemma_order();
        }
        self.entries.key_at(i)
    }

    /// The amount of the account at place `i` of the walk.
    pub fn amount_at(&self, i: usize) -> (amount: u128)
        requires
            self.wf(),
            i < self.order().len(),
        ensures
            self@.contains_key(self.order()[i as int]),
            amount == self@[self.order()[i as int]],
    {
        *self.entries.value_at(i)
    }

    /// The amount recorded under `name`, zero where there is no entry.
    pub fn balance_of_name(&self, name: &String) -> (amount: u128)
        requires
            self.wf(),
        ensures
            amount == balance_in(self@, name@),
    {
        match self.entries.get(name) {
            Some(amount) => *amount,
            None => 0,
        }
    }

    /// The amount recorded for `account`, zero where there is no entry.
    pub fn balance_of(&self, account: &AccountId) -> (amount: u128)
        requires
            self.wf(),
        ensures
            amount == balance_in(self@, account@),
    {
        self.balance_of_name(account.name())
    }

    /// Records `amount` under `name`, in place of what was there.
    pub fn set_name(&mut self, name: &String, amount: u128)
        requires
            old(self).wf(),
        ensures
            final(self).wf(),
            final(self)@ == old(self)@.insert(name@, amount),
    {
        self.entries.insert(name.clone(), amount);
    }

    /// Records `amount` for `account`, in place of what was there.
    pub fn set(&mut self, account: &AccountId, amount: u128)
        requires
            old(self).wf(),
        ensures
            final(self).wf(),
            final(self)@ == old(self)@.insert(account@, amount),
    {
        self.set_name(account.name(), amount);
    }
}

} // verus!
