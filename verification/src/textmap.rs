//! A small map with text keys, kept in insertion order.

use vstd::prelude::*;

verus! {

/// A map from text to `T`. Its view is the mapping from the keys' characters
/// to the values.
pub struct TextMap<T> {
    keys: Vec<String>,
    values: Vec<T>,
}

impl<T> View for TextMap<T> {
    type V = Map<Seq<char>, T>;

    closed spec fn view(&self) -> Map<Seq<char>, T> {
        Map::new(
            |k: Seq<char>| crate::text::texts(self.keys@).contains(k),
            |k: Seq<char>| self.values@[crate::text::texts(self.keys@).index_of(k)],
        )
    }
}

impl<T> TextMap<T> {
    #[verifier::type_invariant]
    spec fn inv(self) -> bool {
        &&& self.keys.len() == self.values.len()
        &&& crate::text::texts(self.keys@).no_duplicates()
    }

    /// The keys, in the order of their first insertion.
    pub closed spec fn keys(&self) -> Seq<Seq<char>> {
        crate::text::texts(self.keys@)
    }

    /// What holds of every value: no key stands twice in `keys`, and `keys`
    /// holds exactly the keys of the mapping.
    pub open spec fn consistent(&self) -> bool {
        &&& self.keys().no_duplicates()
        &&& forall|k: Seq<char>| self@.contains_key(k) <==> self.keys().contains(k)
    }

    /// The empty map.
    pub fn new() -> (map: TextMap<T>)
        ensures
            map@ == Map::<Seq<char>, T>::empty(),
            map.keys() == Seq::<Seq<char>>::empty(),
    {
        let map = TextMap { keys: Vec::new(), values: Vec::new() };
        assert(map@ =~= Map::<Seq<char>, T>::empty());
        assert(map.keys() =~= Seq::<Seq<char>>::empty());
        map
    }

    fn position(&self, key: &str) -> (at: Option<usize>)
        ensures
            at matches Some(i) ==> i < self.keys@.len() && self.keys@[i as int]@ == key@,
            at is None ==> !crate::text::texts(self.keys@).contains(key@),
    {
        let mut i: usize = 0;
        while i < self.keys.len()
            invariant
                i <= self.keys.len(),
                forall|j: int| 0 <= j < i ==> self.keys@[j]@ != key@,
            decreases self.keys.len() - i,
        {
            if self.keys[i].as_str().eq(key) {
                return Some(i);
            }
            i += 1;
        }
        None
    }

    /// The number of entries.
    pub fn len(&self) -> (n: usize)
        ensures
            n == self.keys().len(),
            self.consistent(),
    {
        proof {
            use_type_invariant(self);
        }
        self.keys.len()
    }

    /// The key of the `i`-th entry.
    pub fn key_at(&self, i: usize) -> (key: &String)
        requires
            i < self.keys().len(),
        ensures
            key@ == self.keys()[i as int],
    {
        &self.keys[i]
    }

    /// The value of the `i`-th entry.
    pub fn value_at(&self, i: usize) -> (value: &T)
        requires
            i < self.keys().len(),
        ensures
            self@.contains_key(self.keys()[i as int]),
            *value == self@[self.keys()[i as int]],
    {
        proof {
            use_type_invariant(self);
            let keys = crate::text::texts(self.keys@);
            assert(keys[i as int] == self.keys@[i as int]@);
            assert(keys.contains(keys[i as int]));
            assert(keys.index_of(keys[i as int]) == i);
        }
        &self.values[i]
    }

    /// The value under `key`, if there is one.
    pub fn get(&self, key: &str) -> (value: Option<&T>)
        ensures
            match value {
                Some(v) => self@.contains_key(key@) && self@[key@] == *v,
                None => !self@.contains_key(key@),
            },
    {
        proof {
            use_type_invariant(self);
        }
        match self.position(key) {
            Some(i) => {
                proof {
                    let keys = crate::text::texts(self.keys@);
                    assert(keys[i as int] == key@);
                    assert(keys.contains(key@));
                    assert(keys.index_of(key@) == i);
                }
                Some(&self.values[i])
            },
            None => None,
        }
    }

    /// Puts `value` under `key`. A new key goes to the end of `keys`; a known
    /// one keeps its place.
    pub fn insert(&mut self, key: String, value: T)
        ensures
            final(self)@ == old(self)@.insert(key@, value),
            final(self).keys() == if old(self).keys().contains(key@) {
                old(self).keys()
            } else {
                old(self).keys().push(key@)
            },
    {
        proof {
            use_type_invariant(&*self);
        }
        let ghost before = *self;
        let ghost old_keys = crate::text::texts(self.keys@);
        let found = self.position(key.as_str());
        let mut taken = TextMap { keys: Vec::new(), values: Vec::new() };
        std::mem::swap(self, &mut taken);
        let TextMap { keys: mut keys, values: mut values } = taken;
        match found {
            Some(i) => {
                values.set(i, value);
                *self = TextMap { keys, values };
                proof {
                    let keys = crate::text::texts(self.keys@);
                    assert(keys =~= old_keys);
                    assert(keys[i as int] == key@);
                    assert(keys.contains(key@));
                    assert forall|k: Seq<char>| keys.contains(k) implies #[trigger] self@[k]
                        == before@.insert(key@, value)[k] by {
                        let at = keys.index_of(k);
                        if k == key@ {
                            assert(at == i);
                        } else {
                            assert(at != i);
                        }
                    }
                    assert(self@ =~= before@.insert(key@, value));
                }
            },
            None => {
                proof {
                    let grown = old_keys.push(key@);
                    assert forall|a: int, b: int|
                        0 <= a < grown.len() && 0 <= b < grown.len() && a != b implies grown[a]
                        != grown[b] by {
                        if a < old_keys.len() {
                            assert(old_keys.contains(grown[a]));
                        }
                        if b < old_keys.len() {
                            assert(old_keys.contains(grown[b]));
                        }
                    }
                }
                keys.push(key);
                values.push(value);
                assert(crate::text::texts(keys@) =~= old_keys.push(key@));
                *self = TextMap { keys, values };
                proof {
                    let keys = crate::text::texts(self.keys@);
                    assert(keys[old_keys.len() as int] == key@);
                    assert forall|k: Seq<char>| keys.contains(k) <==> (old_keys.contains(k) || k
                        == key@) by {
                        if old_keys.contains(k) {
                            let j = old_keys.index_of(k);
                            assert(keys[j] == k);
                        }
                    }
                    assert forall|k: Seq<char>| keys.contains(k) implies #[trigger] self@[k]
                        == before@.insert(key@, value)[k] by {
                        let at = keys.index_of(k);
                        if k == key@ {
                            assert(at == old_keys.len());
                        } else {
                            assert(old_keys.contains(k));
                            let j = old_keys.index_of(k);
                            assert(keys[j] == k);
                            assert(at == j);
                        }
                    }
                    assert(self@ =~= before@.insert(key@, value));
                }
            },
        }
    }
}

} // verus!
