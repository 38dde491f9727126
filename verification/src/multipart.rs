//! Multipart templates: a mapping from part name (`subject`, `body`, ...) to
//! text, which also remembers the order in which its parts were added.

use vstd::prelude::*;
use crate::textmap::TextMap;

verus! {

/// A mapping from part name to text. Its view is the mapping; `names` gives
/// the parts in the order in which they were first inserted.
pub struct Multipart {
    parts: TextMap<String>,
}

impl View for Multipart {
    type V = Map<Seq<char>, Seq<char>>;

    closed spec fn view(&self) -> Map<Seq<char>, Seq<char>> {
        self.parts@.map_values(|body: String| body@)
    }
}

impl Multipart {
    /// The names of the parts, in the order of their first insertion.
    pub closed spec fn names(&self) -> Seq<Seq<char>> {
        self.parts.keys()
    }

    /// What holds of every value: no name stands twice in `names`, and
    /// `names` holds exactly the keys of the mapping.
    pub open spec fn consistent(&self) -> bool {
        &&& self.names().no_duplicates()
        &&& forall|k: Seq<char>| self@.contains_key(k) <==> self.names().contains(k)
    }

    /// A template without parts.
    pub fn new() -> (made: Multipart)
        ensures
            made@ == Map::<Seq<char>, Seq<char>>::empty(),
            made.names() == Seq::<Seq<char>>::empty(),
    {
        let made = Multipart { parts: TextMap::new() };
        assert(made@ =~= Map::<Seq<char>, Seq<char>>::empty());
        made
    }

    /// The number of parts.
    pub fn len(&self) -> (n: usize)
        ensures
            n == self.names().len(),
            self.consistent(),
    {
        self.parts.len()
    }

    /// The name of the `i`-th part.
    pub fn name_at(&self, i: usize) -> (name: &String)
        requires
            i < self.names().len(),
        ensures
            name@ == self.names()[i as int],
    {
        self.parts.key_at(i)
    }

    /// The text of the `i`-th part.
    pub fn body_at(&self, i: usize) -> (body: &String)
        requires
            i < self.names().len(),
        ensures
            self@.contains_key(self.names()[i as int]),
            body@ == self@[self.names()[i as int]],
    {
        self.parts.value_at(i)
    }

    /// The text of the part called `name`, if there is one.
    pub fn get(&self, name: &str) -> (body: Option<&String>)
        ensures
            match body {
                Some(b) => self@.contains_key(name@) && self@[name@] == b@,
                None => !self@.contains_key(name@),
            },
    {
        self.parts.get(name)
    }

    /// Sets the part called `name` to `body`. A new name goes to the end of
    /// `names`; a known one keeps its place.
    pub fn insert(&mut self, name: String, body: String)
        ensures
            final(self)@ == old(self)@.insert(name@, body@),
            final(self).names() == if old(self).names().contains(name@) {
                old(self).names()
            } else {
                old(self).names().push(name@)
            },
    {
        self.parts.insert(name, body);
        assert(self@ =~= old(self)@.insert(name@, body@));
    }
}

impl Clone for Multipart {
    fn clone(&self) -> (copy: Multipart)
        ensures
            copy@ == self@,
            copy.names() == self.names(),
    {
        let mut copy = Multipart::new();
        let n = self.len();
        let mut i: usize = 0;
        while i < n
            invariant
                i <= n,
                n == self.names().len(),
                self.consistent(),
                copy.names() == self.names().take(i as int),
                forall|k: Seq<char>| copy@.contains_key(k) <==> self.names().take(i as int).contains(k),
                forall|k: Seq<char>| copy@.contains_key(k) ==> copy@[k] == self@[k],
            decreases n - i,
        {
            let ghost before = copy.names();
            let ghost name = self.names()[i as int];
            proof {
                if before.contains(name) {
                    let j = before.index_of(name);
                    assert(self.names()[j] == name);
                }
                assert(self.names().take(i + 1) =~= before.push(name));
            }
            copy.insert(self.name_at(i).clone(), self.body_at(i).clone());
            proof {
                assert forall|k: Seq<char>| copy@.contains_key(k) <==> self.names().take(
                    i + 1,
                ).contains(k) by {
                    if before.contains(k) {
                        let j = before.index_of(k);
                        assert(before.push(name)[j] == k);
                    }
                    if before.push(name).contains(k) && k != name {
                        let j = before.push(name).index_of(k);
                        assert(before[j] == k);
                    }
                    assert(before.push(name)[i as int] == name);
                }
            }
            i += 1;
        }
        proof {
            assert(self.names().take(n as int) =~= self.names());
            assert(copy@ =~= self@);
        }
        copy
    }
}

} // verus!
