//! A map from text keys to values that can be walked by position.
//!
//! Keys are kept in the order in which they were first inserted, and no key
//! occurs twice.
use vstd::prelude::*;

use crate::text::same_text;

verus! {

/// Values filed under text keys.
pub struct Keyed<V> {
    keys: Vec<String>,
    values: Vec<V>,
}

spec fn key_texts(keys: Seq<String>) -> Seq<Seq<char>> {
    keys.map_values(|k: String| k@)
}

spec fn lookup<V>(keys: Seq<Seq<char>>, values: Seq<V>) -> Map<Seq<char>, V> {
    Map::new(|k: Seq<char>| keys.contains(k), |k: Seq<char>| values[keys.index_of(k)])
}

/// An order without one of its keys.
pub open spec fn order_without(order: Seq<Seq<char>>, key: Seq<char>) -> Seq<Seq<char>> {
    if order.contains(key) {
        order.remove(order.index_of(key))
    } else {
        order
    }
}

proof fn lemma_index_of(keys: Seq<Seq<char>>, i: int)
    requires
        keys.no_duplicates(),
        0 <= i < keys.len(),
    ensures
        keys.index_of(keys[i]) == i,
{
    assert(keys.contains(keys[i]));
}

proof fn lemma_lookup_len<V>(keys: Seq<Seq<char>>, values: Seq<V>)
    requires
        keys.no_duplicates(),
    ensures
        lookup(keys, values).dom().finite(),
        lookup(keys, values).dom().len() == keys.len(),
{
    keys.unique_seq_to_set();
    assert(lookup(keys, values).dom() =~= keys.to_set());
}

impl<V> Keyed<V> {
    #[verifier::type_invariant]
    spec fn wf(self) -> bool {
        &&& self.keys@.len() == self.values@.len()
        &&& key_texts(self.keys@).no_duplicates()
    }

    /// The keys, in the order in which they were first inserted.
    pub closed spec fn order(self) -> Seq<Seq<char>> {
        key_texts(self.keys@)
    }

    /// An empty map.
    pub fn new() -> (res: Self)
        ensures
            res@ == Map::<Seq<char>, V>::empty(),
            res.order() == Seq::<Seq<char>>::empty(),
    {
        let res = Keyed { keys: Vec::new(), values: Vec::new() };
        assert(res@ =~= Map::<Seq<char>, V>::empty());
        assert(res.order() =~= Seq::<Seq<char>>::empty());
        res
    }

    /// How many keys there are. The order lists each key once.
    pub fn len(&self) -> (n: usize)
        ensures
            n == self@.len(),
            n == self.order().len(),
            self@.dom().finite(),
            self.order().no_duplicates(),
            forall|k: Seq<char>| self.order().contains(k) <==> #[trigger] self@.contains_key(k),
    {
        proof {
            use_type_invariant(self);
            lemma_lookup_len(key_texts(self.keys@), self.values@);
        }
        self.keys.len()
    }

    /// Where `key` stands in the order.
    fn find(&self, key: &str) -> (res: Option<usize>)
        ensures
            match res {
                Some(i) => i < self.keys@.len() && self.keys@[i as int]@ == key@,
                None => !self@.contains_key(key@),
            },
    {
        let mut i: usize = 0;
        while i < self.keys.len()
            invariant
                i <= self.keys@.len(),
                forall|j: int| 0 <= j < i ==> self.keys@[j]@ != key@,
            decreases self.keys@.len() - i,
        {
            if same_text(self.keys[i].as_str(), key) {
                return Some(i);
            }
            i = i + 1;
        }
        None
    }

    /// The key at position `i` of the order.
    pub fn key_at(&self, i: usize) -> (key: &String)
        requires
            i < self.order().len(),
        ensures
            key@ == self.order()[i as int],
    {
        &self.keys[i]
    }

    /// The value of the key at position `i` of the order.
    pub fn value_at(&self, i: usize) -> (value: &V)
        requires
            i < self.order().len(),
        ensures
            self@.contains_key(self.order()[i as int]),
            *value == self@[self.order()[i as int]],
    {
        proof {
            use_type_invariant(self);
            lemma_index_of(key_texts(self.keys@), i as int);
        }
        &self.values[i]
    }

    /// Whether there is a value for `key`.
    pub fn contains_key(&self, key: &str) -> (res: bool)
        ensures
            res == self@.contains_key(key@),
    {
        match self.find(key) {
            Some(i) => {
                assert(key_texts(self.keys@)[i as int] == key@);
                true
            },
            None => false,
        }
    }

    /// The value for `key`.
    pub fn get(&self, key: &str) -> (res: Option<&V>)
        ensures
            match res {
                Some(v) => self@.contains_key(key@) && *v == self@[key@],
                None => !self@.contains_key(key@),
            },
    {
        match self.find(key) {
            Some(i) => {
                proof {
                    use_type_invariant(self);
                    assert(key_texts(self.keys@)[i as int] == key@);
                    lemma_index_of(key_texts(self.keys@), i as int);
                }
                Some(&self.values[i])
            },
            None => None,
        }
    }

    /// Replaces the value of the key at position `i` of the order.
    pub fn set_at(&mut self, i: usize, value: V)
        requires
            i < old(self).order().len(),
        ensures
            final(self)@ == old(self)@.insert(old(self).order()[i as int], value),
            final(self).order() == old(self).order(),
    {
        proof {
            use_type_invariant(&*self);
        }
        let mut taken: Keyed<V> = Keyed { keys: Vec::new(), values: Vec::new() };
        std::mem::swap(&mut taken, self);
        let Keyed { keys, mut values } = taken;
        values.set(i, value);
        *self = Keyed { keys, values };
        proof {
            let ks = key_texts(self.keys@);
            assert forall|k: Seq<char>| ks.contains(k) && k != ks[i as int] implies ks.index_of(k)
                != i by {}
            lemma_index_of(ks, i as int);
            assert(self@ =~= old(self)@.insert(old(self).order()[i as int], value));
        }
    }

    /// Files `value` under `key`, in place of what was there.
    pub fn insert(&mut self, key: String, value: V)
        ensures
            final(self)@ == old(self)@.insert(key@, value),
            final(self).order() == if old(self)@.contains_key(key@) {
                old(self).order()
            } else {
                old(self).order().push(key@)
            },
    {
        proof {
            use_type_invariant(&*self);
        }
        match self.find(key.as_str()) {
            Some(i) => {
                assert(key_texts(self.keys@)[i as int] == key@);
                self.set_at(i, value);
            },
            None => {
                let mut taken: Keyed<V> = Keyed { keys: Vec::new(), values: Vec::new() };
                std::mem::swap(&mut taken, self);
                let Keyed { mut keys, mut values } = taken;
                let ghost before = key_texts(keys@);
                let ghost old_values = values@;
                let ghost k0 = key@;
                keys.push(key);
                values.push(value);
                assert(key_texts(keys@) =~= before.push(k0));
                *self = Keyed { keys, values };
                proof {
                    let ks = key_texts(self.keys@);
                    lemma_index_of(ks, before.len() as int);
                    assert forall|k: Seq<char>| #[trigger] before.contains(k) implies {
                        &&& ks.contains(k)
                        &&& self.values@[ks.index_of(k)] == old_values[before.index_of(k)]
                    } by {
                        let j = before.index_of(k);
                        assert(ks[j] == k);
                        lemma_index_of(ks, j);
                    }
                    assert(ks[before.len() as int] == k0);
                    assert forall|k: Seq<char>| #[trigger] ks.contains(k) implies before.contains(k)
                        || k == k0 by {
                        let j = ks.index_of(k);
                        if j < before.len() {
                            assert(before[j] == k);
                        }
                    }
                    assert(self@ =~= old(self)@.insert(k0, value));
                }
            },
        }
    }

    /// Drops `key`; the others keep their order.
    pub fn remove(&mut self, key: &str)
        ensures
            final(self)@ == old(self)@.remove(key@),
            final(self).order() == order_without(old(self).order(), key@),
    {
        proof {
            use_type_invariant(&*self);
        }
        match self.find(key) {
            Some(i) => {
                let mut taken: Keyed<V> = Keyed { keys: Vec::new(), values: Vec::new() };
                std::mem::swap(&mut taken, self);
                let Keyed { mut keys, mut values } = taken;
                let ghost before = key_texts(keys@);
                let ghost old_values = values@;
                keys.remove(i);
                values.remove(i);
                assert(key_texts(keys@) =~= before.remove(i as int));
                proof {
                    assert forall|a: int, b: int|
                        0 <= a < before.len() - 1 && 0 <= b < before.len() - 1 && a
                            != b implies before.remove(i as int)[a] != before.remove(
                        i as int,
                    )[b] by {}
                }
                *self = Keyed { keys, values };
                proof {
                    let ks = key_texts(self.keys@);
                    assert(before[i as int] == key@);
                    lemma_index_of(before, i as int);
                    assert forall|k: Seq<char>| k != key@ && #[trigger] before.contains(k) implies {
                        &&& ks.contains(k)
                        &&& self.values@[ks.index_of(k)] == old_values[before.index_of(k)]
                    } by {
                        let j = before.index_of(k);
                        let j2 = if j < i {
                            j
                        } else {
                            j - 1
                        };
                        assert(ks[j2] == k);
                        lemma_index_of(ks, j2);
                    }
                    assert forall|k: Seq<char>| #[trigger] ks.contains(k) implies before.contains(k)
                        && k != key@ by {
                        let j = ks.index_of(k);
                        let j2 = if j < i {
                            j
                        } else {
                            j + 1
                        };
                        assert(before[j2] == k);
                    }
                    assert(self@ =~= old(self)@.remove(key@));
                }
            },
            None => {
                assert(self@ =~= old(self)@.remove(key@));
            },
        }
    }
}

impl<V> View for Keyed<V> {
    type V = Map<Seq<char>, V>;

    closed spec fn view(&self) -> Map<Seq<char>, V> {
        lookup(key_texts(self.keys@), self.values@)
    }
}

/// Dropping a key from an order leaves out that key alone: every other stays, in
/// the order that it had.
pub proof fn law_order_keeps_the_others(order: Seq<Seq<char>>, key: Seq<char>, i: int, j: int)
    requires
        order.no_duplicates(),
        0 <= i < j < order.len(),
        order[i] != key,
        order[j] != key,
    ensures
        !order_without(order, key).contains(key),
        order_without(order, key).len() + if order.contains(key) {
            1int
        } else {
            0int
        } == order.len(),
        order_without(order, key).index_of(order[i]) < order_without(order, key).index_of(order[j]),
        order_without(order, key).contains(order[i]),
        order_without(order, key).contains(order[j]),
{
    let rest = order_without(order, key);
    let at = order.index_of(key);
    let place = |k: int|
        if order.contains(key) && k > at {
            k - 1
        } else {
            k
        };
    if order.contains(key) {
        assert(order[at] == key);
        assert forall|a: int| 0 <= a < rest.len() implies #[trigger] rest[a] == order[if a < at {
            a
        } else {
            a + 1
        }] by {}
    }
    assert(rest.no_duplicates());
    assert(rest[place(i)] == order[i]);
    assert(rest[place(j)] == order[j]);
    lemma_index_of(rest, place(i));
    lemma_index_of(rest, place(j));
    if rest.contains(key) {
        let k = rest.index_of(key);
        assert(rest[k] == key);
    }
}

} // verus!
