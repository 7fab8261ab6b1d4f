//! Who owns which token, and how many tokens an account owns.

use crate::account::AccountId;
use crate::table::Table;
use vstd::prelude::*;

verus! {

/// The tokens that `owners` gives to `account`.
pub open spec fn tokens_owned(owners: Map<Seq<char>, Seq<char>>, account: Seq<char>) -> Set<
    Seq<char>,
> {
    Set::new(|token: Seq<char>| owners.contains_key(token) && owners[token] == account)
}

/// How many tokens `owners` gives to `account`.
pub open spec fn owned_count(owners: Map<Seq<char>, Seq<char>>, account: Seq<char>) -> nat {
    tokens_owned(owners, account).len()
}

/// The tokens of one account are finitely many.
pub proof fn lemma_owned_finite(owners: Map<Seq<char>, Seq<char>>, account: Seq<char>)
    requires
        owners.dom().finite(),
    ensures
        tokens_owned(owners, account).finite(),
        owned_count(owners, account) <= owners.dom().len(),
{
    vstd::set_lib::lemma_len_subset(tokens_owned(owners, account), owners.dom());
}

/// An account owns a token exactly when its count is above zero.
pub proof fn lemma_owned_positive(owners: Map<Seq<char>, Seq<char>>, account: Seq<char>)
    requires
        owners.dom().finite(),
    ensures
        owned_count(owners, account) > 0 <==> exists|token: Seq<char>|
            owners.contains_key(token) && #[trigger] owners[token] == account,
{
    lemma_owned_finite(owners, account);
    let owned = tokens_owned(owners, account);
    if owned.len() > 0 {
        let token = owned.choose();
        assert(owned.contains(token));
    }
    if exists|token: Seq<char>| owners.contains_key(token) && #[trigger] owners[token] == account {
        let token = choose|token: Seq<char>|
            owners.contains_key(token) && #[trigger] owners[token] == account;
        assert(owned.contains(token));
    }
}

/// A token that is new to the registry adds one to its owner's count and
/// leaves every other count as it was.
pub proof fn lemma_count_after_insert(
    owners: Map<Seq<char>, Seq<char>>,
    token: Seq<char>,
    owner: Seq<char>,
    account: Seq<char>,
)
    requires
        owners.dom().finite(),
        !owners.contains_key(token),
    ensures
        owned_count(owners.insert(token, owner), account) == owned_count(owners, account) + (if account
            == owner {
            1nat
        } else {
            0nat
        }),
{
    lemma_owned_finite(owners, account);
    let before = tokens_owned(owners, account);
    let after = tokens_owned(owners.insert(token, owner), account);
    if account == owner {
        assert(after =~= before.insert(token));
    } else {
        assert(after =~= before);
    }
}

/// A token that leaves the registry takes one from its owner's count and
/// leaves every other count as it was.
pub proof fn lemma_count_after_remove(
    owners: Map<Seq<char>, Seq<char>>,
    token: Seq<char>,
    account: Seq<char>,
)
    requires
        owners.dom().finite(),
        owners.contains_key(token),
    ensures
        owned_count(owners.remove(token), account) + (if account == owners[token] {
            1nat
        } else {
            0nat
        }) == owned_count(owners, account),
{
    lemma_owned_finite(owners, account);
    let before = tokens_owned(owners, account);
    let after = tokens_owned(owners.remove(token), account);
    if account == owners[token] {
        assert(after =~= before.remove(token));
    } else {
        assert(after =~= before);
    }
}

/// A token that passes from its owner to `receiver` takes one from the
/// owner's count, adds one to the receiver's, and leaves the others.
pub proof fn lemma_count_after_transfer(
    owners: Map<Seq<char>, Seq<char>>,
    token: Seq<char>,
    receiver: Seq<char>,
    account: Seq<char>,
)
    requires
        owners.dom().finite(),
        owners.contains_key(token),
        owners[token] != receiver,
    ensures
        owned_count(owners.insert(token, receiver), account) == owned_count(owners, account) + (if account
            == receiver {
            1int
        } else {
            0int
        }) - (if account == owners[token] {
            1int
        } else {
            0int
        }),
{
    lemma_count_after_remove(owners, token, account);
    lemma_count_after_insert(owners.remove(token), token, receiver, account);
    assert(owners.remove(token).insert(token, receiver) =~= owners.insert(token, receiver));
}

/// Who owns which token. Its view is the map from token identifiers to the
/// names of their owners.
#[derive(Debug)]
pub struct TokenRegistry {
    owners: Table<AccountId>,
}

impl View for TokenRegistry {
    type V = Map<Seq<char>, Seq<char>>;

    closed spec fn view(&self) -> Map<Seq<char>, Seq<char>> {
        self.owners@.map_values(|owner: AccountId| owner@)
    }
}

impl TokenRegistry {
    pub closed spec fn wf(&self) -> bool {
        self.owners.wf()
    }

    /// The registry holds finitely many tokens.
    pub proof fn lemma_finite(&self)
        requires
            self.wf(),
        ensures
            self@.dom().finite(),
    {
        self.owners.lemma_order();
        assert(self@.dom() =~= self.owners@.dom());
    }

    pub fn new() -> (registry: Self)
        ensures
            registry.wf(),
            registry@ == Map::<Seq<char>, Seq<char>>::empty(),
    {
        let registry = TokenRegistry { owners: Table::new() };
        registry
    }

    /// How many tokens there are.
    pub fn len(&self) -> (n: usize)
        requires
            self.wf(),
        ensures
            n == self@.dom().len(),
            n == self.order().len(),
    {
        assert(self@.dom() =~= self.owners@.dom());
        self.owners.len()
    }

    /// The tokens in the order in which a walk over the registry meets
    /// them.
    pub closed spec fn order(&self) -> Seq<Seq<char>> {
        self.owners.order()
    }

    /// A walk over the registry meets every token, and none twice.
    pub proof fn lemma_order(&self)
        requires
            self.wf(),
        ensures
            self.order().no_duplicates(),
            self.order().to_set() == self@.dom(),
            self@.dom().len() == self.order().len(),
    {
        self.owners.lemma_order();
        assert(self@.dom() =~= self.owners@.dom());
    }

    /// The identifier of the token at place `i` of the walk.
    pub fn token_at(&self, i: usize) -> (token_id: &String)
        requires
            self.wf(),
            i < self.order().len(),
        ensures
            token_id@ == self.order()[i as int],
            self@.contains_key(token_id@),
    {
        proof {
            self.owners.lemma_order();
        }
        self.owners.key_at(i)
    }

    /// The owner of the token at place `i` of the walk.
    pub fn owner_at(&self, i: usize) -> (owner: &AccountId)
        requires
            self.wf(),
            i < self.order().len(),
        ensures
            self@.contains_key(self.order()[i as int]),
            owner@ == self@[self.order()[i as int]],
    {
        self.owners.value_at(i)
    }

    /// The owner of `token_id`, if the token exists.
    pub fn owner_of(&self, token_id: &String) -> (owner: Option<&AccountId>)
        requires
            self.wf(),
        ensures
            owner.is_some() == self@.contains_key(token_id@),
            owner matches Some(a) ==> a@ == self@[token_id@],
    {
        self.owners.get(token_id)
    }

    /// How many tokens `account` owns.
    pub fn count_for(&self, account: &AccountId) -> (n: usize)
        requires
            self.wf(),
        ensures
            n == owned_count(self@, account@),
    {
        let total = self.owners.len();
        let ghost order = self.owners.order();
        let ghost mut seen: Set<Seq<char>> = Set::empty();
        let mut n: usize = 0;
        let mut i: usize = 0;
        proof {
            self.owners.lemma_order();
        }
        while i < total
            invariant
                self.wf(),
                order == self.owners.order(),
                total == order.len(),
                order.no_duplicates(),
                i <= total,
                n <= i,
                seen.finite(),
                n == seen.len(),
                forall|t: Seq<char>|
                    seen.contains(t) <==> (exists|j: int|
                        0 <= j < i && #[trigger] order[j] == t && self@[t] == account@),
            decreases total - i,
        {
            let owner = self.owners.value_at(i);
            let ghost token = order[i as int];
            if owner.same(account) {
                proof {
                    let grown = seen.insert(token);
                    seen = grown;
                }
                n += 1;
            }
            i += 1;
        }
        proof {
            assert(seen =~= tokens_owned(self@, account@));
        }
        n
    }

    /// Gives `token_id` to `owner`, whether or not the token existed.
    pub fn assign(&mut self, token_id: String, owner: AccountId)
        requires
            old(self).wf(),
        ensures
            final(self).wf(),
            final(self)@ == old(self)@.insert(token_id@, owner@),
    {
        self.owners.insert(token_id, owner);
    }

    /// Takes `token_id` out of the registry, if it is there.
    pub fn remove(&mut self, token_id: &String)
        requires
            old(self).wf(),
        ensures
            final(self).wf(),
            final(self)@ == old(self)@.remove(token_id@),
    {
        let _ = self.owners.remove(token_id);
    }
}

} // verus!
