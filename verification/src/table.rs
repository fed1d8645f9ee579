use vstd::prelude::*;

verus! {

/// A small table from names to values, kept in insertion order; each name occurs once,
/// and inserting under a name that is there replaces its value.
pub struct NamedTable<T> {
    names: Vec<String>,
    values: Vec<T>,
}

/// Whether no name occurs twice in `names`.
pub open spec fn names_unique(names: Seq<Seq<char>>) -> bool {
    forall|i: int, j: int| 0 <= i < names.len() && 0 <= j < names.len() && i != j ==> names[i] != names[j]
}

impl<T> NamedTable<T> {
    /// The names, in the order in which they were first inserted.
    pub closed spec fn names(self) -> Seq<Seq<char>> {
        self.names@.map_values(|s: String| s@)
    }

    /// The values, at the positions of their names.
    pub closed spec fn values(self) -> Seq<T> {
        self.values@
    }

    pub closed spec fn wf(self) -> bool {
        &&& self.names@.len() == self.values@.len()
        &&& names_unique(self.names())
    }

    /// The table as a map from names to values.
    pub open spec fn map(self) -> Map<Seq<char>, T> {
        Map::new(
            |k: Seq<char>| self.names().contains(k),
            |k: Seq<char>| self.values()[self.names().index_of(k)],
        )
    }

    pub proof fn lemma_lengths(self)
        requires
            self.wf(),
        ensures
            self.names().len() == self.values().len(),
            names_unique(self.names()),
    {
    }

    /// The map gives at each name the value at that name's position.
    pub proof fn lemma_map_at(self, i: int)
        requires
            self.wf(),
            0 <= i < self.names().len(),
        ensures
            self.map().contains_key(self.names()[i]),
            self.map()[self.names()[i]] == self.values()[i],
            self.names().index_of(self.names()[i]) == i,
    {
        let k = self.names()[i];
        assert(self.names().contains(k));
        let j = self.names().index_of(k);
        assert(self.names()[j] == k);
    }

    pub fn new() -> (r: Self)
        ensures
            r.wf(),
            r.map() == Map::<Seq<char>, T>::empty(),
            r.names() == Seq::<Seq<char>>::empty(),
    {
        let r = NamedTable { names: Vec::new(), values: Vec::new() };
        assert(r.map() =~= Map::<Seq<char>, T>::empty());
        r
    }

    pub fn len(&self) -> (r: usize)
        requires
            self.wf(),
        ensures
            r == self.names().len(),
    {
        self.names.len()
    }

    /// The position of `name`, if it is in the table.
    pub fn index_of(&self, name: &str) -> (r: Option<usize>)
        requires
            self.wf(),
        ensures
            r is None <==> !self.map().contains_key(name@),
            r matches Some(i) ==> i < self.names().len() && self.names()[i as int] == name@,
    {
        let key = name.to_owned();
        let n = self.names.len();
        let mut i: usize = 0;
        while i < n
            invariant
                n == self.names@.len(),
                self.wf(),
                key@ == name@,
                i <= n,
                forall|j: int| 0 <= j < i ==> self.names()[j] != name@,
            decreases n - i,
        {
            if self.names[i] == key {
                assert(self.names()[i as int] == name@);
                assert(self.map().contains_key(name@));
                return Some(i);
            }
            i = i + 1;
        }
        proof {
            if self.names().contains(name@) {
                let j = self.names().index_of(name@);
                assert(self.names()[j] == name@);
            }
        }
        None
    }

    /// The value stored under `name`, if any.
    pub fn get(&self, name: &str) -> (r: Option<&T>)
        requires
            self.wf(),
        ensures
            r is None <==> !self.map().contains_key(name@),
            r matches Some(v) ==> *v == self.map()[name@],
    {
        match self.index_of(name) {
            None => None,
            Some(i) => {
                proof {
                    self.lemma_map_at(i as int);
                }
                Some(&self.values[i])
            },
        }
    }

    /// The name at position `i`.
    pub fn name_at(&self, i: usize) -> (r: &String)
        requires
            self.wf(),
            i < self.names().len(),
        ensures
            r@ == self.names()[i as int],
    {
        &self.names[i]
    }

    /// The value at position `i`.
    pub fn value_at(&self, i: usize) -> (r: &T)
        requires
            self.wf(),
            i < self.names().len(),
        ensures
            *r == self.values()[i as int],
    {
        &self.values[i]
    }

    /// Replaces the value at position `i`.
    pub fn set_at(&mut self, i: usize, value: T)
        requires
            old(self).wf(),
            i < old(self).names().len(),
        ensures
            final(self).wf(),
            final(self).names() == old(self).names(),
            final(self).values() == old(self).values().update(i as int, value),
            final(self).map() == old(self).map().insert(old(self).names()[i as int], value),
    {
        proof {
            old(self).lemma_map_at(i as int);
        }
        self.values.set(i, value);
        proof {
            let k = self.names()[i as int];
            assert forall|n: Seq<char>| #[trigger]
                self.map().contains_key(n) implies self.map()[n] == old(self).map().insert(
                k,
                value,
            )[n] by {
                let j = self.names().index_of(n);
                assert(self.names()[j] == n);
                self.lemma_map_at(j);
                old(self).lemma_map_at(j);
            }
            assert(self.map() =~= old(self).map().insert(k, value));
        }
    }

    /// Stores `value` under `name`, replacing what was stored there.
    pub fn insert(&mut self, name: &str, value: T)
        requires
            old(self).wf(),
        ensures
            final(self).wf(),
            final(self).map() == old(self).map().insert(name@, value),
            old(self).map().contains_key(name@) ==> final(self).names() == old(self).names(),
            !old(self).map().contains_key(name@) ==> final(self).names() == old(self).names().push(
                name@,
            ),
    {
        match self.index_of(name) {
            Some(i) => {
                self.set_at(i, value);
            },
            None => {
                let ghost old_self = *self;
                self.names.push(name.to_owned());
                self.values.push(value);
                proof {
                    assert(self.names() =~= old_self.names().push(name@));
                    let k = name@;
                    assert forall|n: Seq<char>| #[trigger]
                        self.map().contains_key(n) implies self.map()[n] == old_self.map().insert(
                        k,
                        value,
                    )[n] by {
                        let j = self.names().index_of(n);
                        assert(self.names()[j] == n);
                        self.lemma_map_at(j);
                        if j < old_self.names().len() {
                            old_self.lemma_map_at(j);
                        }
                    }
                    assert forall|n: Seq<char>|
                        #[trigger] old_self.map().insert(k, value).contains_key(n)
                            implies self.map().contains_key(n) by {
                        if n != k {
                            let j = old_self.names().index_of(n);
                            assert(old_self.names()[j] == n);
                            assert(self.names()[j] == n);
                        } else {
                            assert(self.names()[self.names().len() - 1] == n);
                        }
                    }
                    assert(self.map() =~= old_self.map().insert(k, value));
                }
            },
        }
    }
}

} // verus!
