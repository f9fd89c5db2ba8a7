//! A small association table: keys that occur at most once, each with a value.

use crate::id::Key;
use vstd::prelude::*;

verus! {

/// The map that a sequence of keys and a sequence of values of the same
/// length stand for: each key goes to the value at the key's position.
spec fn as_map<K, V>(keys: Seq<K>, vals: Seq<V>) -> Map<K, V> {
    Map::new(|k: K| keys.contains(k), |k: K| vals[keys.index_of(k)])
}

proof fn lemma_position<K, V>(keys: Seq<K>, vals: Seq<V>, i: int)
    requires
        keys.no_duplicates(),
        0 <= i < keys.len(),
    ensures
        keys.index_of(keys[i]) == i,
        as_map(keys, vals).contains_key(keys[i]),
        as_map(keys, vals)[keys[i]] == vals[i],
{
}

proof fn lemma_push<K, V>(keys: Seq<K>, vals: Seq<V>, key: K, value: V)
    requires
        keys.no_duplicates(),
        keys.len() == vals.len(),
        !keys.contains(key),
    ensures
        keys.push(key).no_duplicates(),
        as_map(keys.push(key), vals.push(value)) == as_map(keys, vals).insert(key, value),
{
    let longer = keys.push(key);
    let values = vals.push(value);
    assert forall|k: K| keys.contains(k) implies longer.contains(k) && values[longer.index_of(k)]
        == vals[keys.index_of(k)] by {
        let i: int = keys.index_of(k);
        lemma_position(longer, values, i);
    }
    lemma_position(longer, values, keys.len() as int);
}

proof fn lemma_update<K, V>(keys: Seq<K>, vals: Seq<V>, i: int, value: V)
    requires
        keys.no_duplicates(),
        keys.len() == vals.len(),
        0 <= i < keys.len(),
    ensures
        as_map(keys, vals.update(i, value)) == as_map(keys, vals).insert(keys[i], value),
{
    lemma_position(keys, vals, i);
}

proof fn lemma_domain<K, V>(keys: Seq<K>, vals: Seq<V>)
    requires
        keys.no_duplicates(),
    ensures
        as_map(keys, vals).dom().finite(),
        as_map(keys, vals).dom().len() == keys.len(),
{
    keys.unique_seq_to_set();
}

/// A table from keys to values in which no key occurs twice.
///
/// Its view is the map from each key it holds to that key's value.
pub struct Table<K, V> {
    keys: Vec<K>,
    vals: Vec<V>,
}

impl<K, V> Table<K, V> {
    #[verifier::type_invariant]
    spec fn inv(&self) -> bool {
        self.keys@.len() == self.vals@.len() && self.keys@.no_duplicates()
    }

    /// The map from each key of the table to its value.
    pub closed spec fn view(&self) -> Map<K, V> {
        as_map(self.keys@, self.vals@)
    }
}

impl<K: Key, V> Table<K, V> {
    /// An empty table.
    pub fn new() -> (table: Self)
        ensures
            table@ == Map::<K, V>::empty(),
    {
        Table { keys: Vec::new(), vals: Vec::new() }
    }

    /// The number of keys in the table.
    pub fn len(&self) -> (n: usize)
        ensures
            self@.dom().finite(),
            n == self@.dom().len(),
    {
        proof {
            use_type_invariant(self);
            lemma_domain(self.keys@, self.vals@);
        }
        self.keys.len()
    }

    fn position(&self, key: &K) -> (at: Option<usize>)
        ensures
            match at {
                Some(i) => i < self.keys@.len() && self.keys@[i as int] == *key,
                None => !self.keys@.contains(*key),
            },
    {
        let mut i: usize = 0;
        while i < self.keys.len()
            invariant
                i <= self.keys@.len(),
                forall|j: int| 0 <= j < i ==> self.keys@[j] != *key,
            decreases self.keys@.len() - i,
        {
            if self.keys[i].same(key) {
                return Some(i);
            }
            i = i + 1;
        }
        None
    }

    /// Whether the table holds `key`.
    pub fn contains_key(&self, key: &K) -> (held: bool)
        ensures
            held == self@.contains_key(*key),
    {
        proof {
            use_type_invariant(self);
        }
        match self.position(key) {
            Some(i) => {
                proof {
                    lemma_position(self.keys@, self.vals@, i as int);
                }
                true
            },
            None => false,
        }
    }

    /// The value of `key`, if the table holds it.
    pub fn get(&self, key: &K) -> (value: Option<&V>)
        ensures
            match value {
                Some(v) => self@.contains_key(*key) && *v == self@[*key],
                None => !self@.contains_key(*key),
            },
    {
        proof {
            use_type_invariant(self);
        }
        match self.position(key) {
            Some(i) => {
                proof {
                    lemma_position(self.keys@, self.vals@, i as int);
                }
                Some(&self.vals[i])
            },
            None => None,
        }
    }

    /// A mutable reference to the value of `key`, if the table holds it.
    /// Whatever is written through it becomes the value of `key`; nothing
    /// else changes.
    pub fn get_mut(&mut self, key: &K) -> (value: Option<&mut V>)
        ensures
            match value {
                Some(v) => old(self)@.contains_key(*key) && *v == old(self)@[*key] && final(self)@
                    == old(self)@.insert(*key, *final(v)),
                None => !old(self)@.contains_key(*key) && final(self)@ == old(self)@,
            },
    {
        proof {
            use_type_invariant(&*self);
        }
        match self.position(key) {
            Some(i) => {
                proof {
                    let keys = self.keys@;
                    let vals = self.vals@;
                    lemma_position(keys, vals, i as int);
                    assert forall|v: V| #[trigger] as_map(keys, vals.update(i as int, v))
                        == as_map(keys, vals).insert(*key, v) by {
                        lemma_update(keys, vals, i as int, v);
                    }
                }
                Some(&mut self.vals[i])
            },
            None => None,
        }
    }

    /// Gives `key` the value `value`, and returns the value that `key` had
    /// before, if it had one.
    pub fn insert(&mut self, key: K, value: V) -> (before: Option<V>)
        ensures
            final(self)@ == old(self)@.insert(key, value),
            before == if old(self)@.contains_key(key) {
                Some(old(self)@[key])
            } else {
                None::<V>
            },
    {
        proof {
            use_type_invariant(&*self);
        }
        match self.position(&key) {
            Some(i) => {
                proof {
                    lemma_position(self.keys@, self.vals@, i as int);
                    lemma_update(self.keys@, self.vals@, i as int, value);
                }
                let mut held = value;
                core::mem::swap(&mut self.vals[i], &mut held);
                Some(held)
            },
            None => {
                // Keys and values grow together: the table is taken apart
                // and put together again, so that no table ever holds one
                // key more than values.
                let mut taken = Table::new();
                core::mem::swap(self, &mut taken);
                proof {
                    use_type_invariant(&taken);
                    lemma_push(taken.keys@, taken.vals@, key, value);
                }
                let Table { mut keys, mut vals } = taken;
                keys.push(key);
                vals.push(value);
                *self = Table { keys, vals };
                None
            },
        }
    }
}

} // verus!
