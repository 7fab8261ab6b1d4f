//! A finite map with string keys.

use vstd::prelude::*;

verus! {

/// A finite map from strings to values, kept as two parallel vectors.
///
/// Its view is the mathematical map. `order()` is the sequence in which the
/// keys are stored, for callers that walk the table entry by entry.
#[derive(Debug)]
pub struct Table<V> {
    keys: Vec<String>,
    values: Vec<V>,
}

impl<V> View for Table<V> {
    type V = Map<Seq<char>, V>;

    closed spec fn view(&self) -> Map<Seq<char>, V> {
        Map::new(
            |k: Seq<char>| self.order().contains(k),
            |k: Seq<char>| self.values@[self.order().index_of(k)],
        )
    }
}

impl<V> Table<V> {
    /// The keys in the order in which they are stored.
    pub closed spec fn order(&self) -> Seq<Seq<char>> {
        Seq::new(self.keys@.len(), |i: int| self.keys@[i]@)
    }

    /// Every key has one value and no key is stored twice.
    pub closed spec fn wf(&self) -> bool {
        &&& self.keys@.len() == self.values@.len()
        &&& self.order().no_duplicates()
    }

    /// How `order()` relates to the view.
    pub proof fn lemma_order(&self)
        requires
            self.wf(),
        ensures
            self.order().no_duplicates(),
            self@.dom() == self.order().to_set(),
            self@.dom().finite(),
            self@.dom().len() == self.order().len(),
            forall|i: int|
                0 <= i < self.order().len() ==> self@.contains_key(#[trigger] self.order()[i]),
    {
        vstd::seq_lib::seq_to_set_is_finite(self.order());
        self.order().unique_seq_to_set();
    }

    proof fn lemma_slot(&self, i: int)
        requires
            self.wf(),
            0 <= i < self.order().len(),
        ensures
            self@.contains_key(self.order()[i]),
            self@[self.order()[i]] == self.values@[i],
    {
    }

    pub fn new() -> (table: Self)
        ensures
            table.wf(),
            table@ == Map::<Seq<char>, V>::empty(),
            table.order() == Seq::<Seq<char>>::empty(),
    {
        Table { keys: Vec::new(), values: Vec::new() }
    }

    pub fn len(&self) -> (n: usize)
        requires
            self.wf(),
        ensures
            n == self@.dom().len(),
            n == self.order().len(),
    {
        proof {
            self.lemma_order();
        }
        self.keys.len()
    }

    fn position(&self, key: &String) -> (at: Option<usize>)
        requires
            self.wf(),
        ensures
            match at {
                Some(i) => i < self.order().len() && self.order()[i as int] == key@,
                None => !self.order().contains(key@),
            },
    {
        let mut i: usize = 0;
        while i < self.keys.len()
            invariant
                i <= self.keys@.len(),
                self.order().len() == self.keys@.len(),
                forall|j: int| 0 <= j < i ==> self.order()[j] != key@,
            decreases self.keys@.len() - i,
        {
            if self.keys[i] == *key {
                return Some(i);
            }
            i += 1;
        }
        None
    }

    pub fn contains(&self, key: &String) -> (found: bool)
        requires
            self.wf(),
        ensures
            found == self@.contains_key(key@),
    {
        self.position(key).is_some()
    }

    pub fn get(&self, key: &String) -> (value: Option<&V>)
        requires
            self.wf(),
        ensures
            match value {
                Some(v) => self@.contains_key(key@) && self@[key@] == *v,
                None => !self@.contains_key(key@),
            },
    {
        match self.position(key) {
            Some(i) => {
                proof {
                    self.lemma_slot(i as int);
                }
                Some(&self.values[i])
            },
            None => None,
        }
    }

    /// The key stored at place `i`.
    pub fn key_at(&self, i: usize) -> (key: &String)
        requires
            self.wf(),
            i < self.order().len(),
        ensures
            key@ == self.order()[i as int],
    {
        &self.keys[i]
    }

    /// The value stored at place `i`.
    pub fn value_at(&self, i: usize) -> (value: &V)
        requires
            self.wf(),
            i < self.order().len(),
        ensures
            self@.contains_key(self.order()[i as int]),
            *value == self@[self.order()[i as int]],
    {
        proof {
            self.lemma_slot(i as int);
        }
        &self.values[i]
    }

    /// Binds `key` to `value`, replacing an earlier binding.
    pub fn insert(&mut self, key: String, value: V)
        requires
            old(self).wf(),
        ensures
            final(self).wf(),
            final(self)@ == old(self)@.insert(key@, value),
    {
        let ghost before = *self;
        match self.position(&key) {
            Some(i) => {
                self.values[i] = value;
            },
            None => {
                self.keys.push(key);
                self.values.push(value);
                proof {
                    let n = before.order().len() as int;
                    assert(self.order() =~= before.order().push(key@));
                    assert forall|k: Seq<char>|
                        self@.contains_key(k) <==> #[trigger] before@.insert(
                            key@,
                            value,
                        ).contains_key(k) by {
                        if before.order().contains(k) {
                            let j = before.order().index_of(k);
                            assert(self.order()[j] == k);
                        }
                        if k == key@ {
                            assert(self.order()[n] == k);
                        }
                    }
                }
            },
        }
    }

    /// Drops the binding of `key`, if there is one, and hands its value back.
    pub fn remove(&mut self, key: &String) -> (removed: Option<V>)
        requires
            old(self).wf(),
        ensures
            final(self).wf(),
            final(self)@ == old(self)@.remove(key@),
            match removed {
                Some(v) => old(self)@.contains_key(key@) && old(self)@[key@] == v,
                None => !old(self)@.contains_key(key@),
            },
    {
        let ghost before = *self;
        match self.position(key) {
            Some(i) => {
                proof {
                    before.lemma_slot(i as int);
                }
                self.keys.remove(i);
                let value = self.values.remove(i);
                proof {
                    assert(self.order() =~= before.order().remove(i as int));
                    assert forall|k: Seq<char>|
                        self@.contains_key(k) <==> #[trigger] before@.remove(key@).contains_key(
                            k,
                        ) by {
                        if before.order().contains(k) && k != key@ {
                            let j0 = before.order().index_of(k);
                            let j = if j0 < i { j0 } else { j0 - 1 };
                            assert(self.order()[j] == before.order()[j0]);
                        }
                    }
                }
                Some(value)
            },
            None => None,
        }
    }
}

} // verus!
