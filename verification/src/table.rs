//! A table from identifiers to values in which no identifier occurs twice.

use vstd::prelude::*;
use crate::ident::Ident;

verus! {

/// A finite mapping from identifiers to values of type `T`. The value of the
/// identifier at a position of `idents` stands at the same position of
/// `values`.
#[derive(Debug)]
pub struct Table<T> {
    idents: Vec<Ident>,
    values: Vec<T>,
}

/// No identifier occurs at two positions.
spec fn distinct(idents: Seq<Ident>) -> bool {
    forall|i: int, j: int|
        0 <= i < idents.len() && 0 <= j < idents.len() && i != j ==> idents[i]@ != idents[j]@
}

/// `key` occurs at position `i`.
spec fn at(idents: Seq<Ident>, key: Seq<char>, i: int) -> bool {
    0 <= i < idents.len() && idents[i]@ == key
}

spec fn map_of<T>(idents: Seq<Ident>, values: Seq<T>) -> Map<Seq<char>, T> {
    Map::new(
        |key: Seq<char>| exists|i: int| at(idents, key, i),
        |key: Seq<char>| values[choose|i: int| at(idents, key, i)],
    )
}

/// Where no identifier occurs twice, the value at a position is what the map
/// gives for the identifier at that position.
proof fn lemma_entry<T>(idents: Seq<Ident>, values: Seq<T>, i: int)
    requires
        distinct(idents),
        0 <= i < idents.len(),
    ensures
        map_of(idents, values).contains_key(idents[i]@),
        map_of(idents, values)[idents[i]@] == values[i],
{
    let key = idents[i]@;
    assert(at(idents, key, i));
    let chosen = choose|j: int| at(idents, key, j);
    assert(at(idents, key, chosen));
    assert(chosen == i);
}

/// A key that occurs nowhere is not in the map.
proof fn lemma_absent<T>(idents: Seq<Ident>, values: Seq<T>, key: Seq<char>)
    requires
        forall|i: int| 0 <= i < idents.len() ==> idents[i]@ != key,
    ensures
        !map_of(idents, values).contains_key(key),
{
    assert forall|i: int| !at(idents, key, i) by {}
}

/// A table without entries holds the empty map.
proof fn lemma_absent_everywhere<T>(idents: Seq<Ident>, values: Seq<T>)
    requires
        idents.len() == 0,
    ensures
        map_of(idents, values) == Map::<Seq<char>, T>::empty(),
{
    assert forall|key: Seq<char>| !map_of(idents, values).contains_key(key) by {
        lemma_absent(idents, values, key);
    }
    assert(map_of(idents, values) =~= Map::<Seq<char>, T>::empty());
}

/// Appending a value under a fresh identifier inserts it into the map.
proof fn lemma_push<T>(idents: Seq<Ident>, values: Seq<T>, ident: Ident, value: T)
    requires
        distinct(idents),
        idents.len() == values.len(),
        !map_of(idents, values).contains_key(ident@),
    ensures
        distinct(idents.push(ident)),
        map_of(idents.push(ident), values.push(value)) == map_of(idents, values).insert(
            ident@,
            value,
        ),
{
    let idents_after = idents.push(ident);
    let values_after = values.push(value);
    assert forall|i: int| 0 <= i < idents.len() implies idents[i]@ != ident@ by {
        assert(at(idents, idents[i]@, i));
    }
    assert(distinct(idents_after));
    assert forall|key: Seq<char>|
        map_of(idents_after, values_after).contains_key(key) == map_of(idents, values).insert(
            ident@,
            value,
        ).contains_key(key) by {
        if map_of(idents_after, values_after).contains_key(key) {
            let i = choose|i: int| at(idents_after, key, i);
            if i < idents.len() {
                assert(at(idents, key, i));
            }
        }
        if map_of(idents, values).contains_key(key) {
            let i = choose|i: int| at(idents, key, i);
            assert(at(idents_after, key, i));
        }
        if key == ident@ {
            assert(at(idents_after, key, idents.len() as int));
        }
    }
    assert forall|key: Seq<char>|
        map_of(idents_after, values_after).contains_key(key) implies map_of(
        idents_after,
        values_after,
    )[key] == map_of(idents, values).insert(ident@, value)[key] by {
        let i = choose|i: int| at(idents_after, key, i);
        lemma_entry(idents_after, values_after, i);
        if i < idents.len() {
            lemma_entry(idents, values, i);
        }
    }
    assert(map_of(idents_after, values_after) =~= map_of(idents, values).insert(ident@, value));
}

/// Taking out the entry at a position, with the last entry moved into the
/// gap, removes its identifier from the map.
proof fn lemma_swap_remove<T>(idents: Seq<Ident>, values: Seq<T>, i: int)
    requires
        distinct(idents),
        idents.len() == values.len(),
        0 <= i < idents.len(),
    ensures
        distinct(idents.update(i, idents.last()).drop_last()),
        map_of(
            idents.update(i, idents.last()).drop_last(),
            values.update(i, values.last()).drop_last(),
        ) == map_of(idents, values).remove(idents[i]@),
{
    let idents_after = idents.update(i, idents.last()).drop_last();
    let values_after = values.update(i, values.last()).drop_last();
    let last = idents.len() - 1;
    let gone = idents[i]@;
    // Each position afterwards holds what one position held before.
    assert forall|j: int| 0 <= j < idents_after.len() implies idents_after[j] == idents[if j
        == i {
        last
    } else {
        j
    }] && values_after[j] == values[if j == i {
        last
    } else {
        j
    }] by {}
    assert(distinct(idents_after));
    assert forall|key: Seq<char>|
        map_of(idents_after, values_after).contains_key(key) == map_of(idents, values).remove(
            gone,
        ).contains_key(key) by {
        if map_of(idents_after, values_after).contains_key(key) {
            let j = choose|j: int| at(idents_after, key, j);
            let source = if j == i {
                last
            } else {
                j
            };
            assert(at(idents, key, source));
            assert(source != i);
        }
        if map_of(idents, values).contains_key(key) && key != gone {
            let j = choose|j: int| at(idents, key, j);
            assert(j != i);
            if j == last {
                assert(at(idents_after, key, i));
            } else {
                assert(at(idents_after, key, j));
            }
        }
    }
    assert forall|key: Seq<char>|
        map_of(idents_after, values_after).contains_key(key) implies map_of(
        idents_after,
        values_after,
    )[key] == map_of(idents, values).remove(gone)[key] by {
        let j = choose|j: int| at(idents_after, key, j);
        lemma_entry(idents_after, values_after, j);
        let source = if j == i {
            last
        } else {
            j
        };
        lemma_entry(idents, values, source);
    }
    assert(map_of(idents_after, values_after) =~= map_of(idents, values).remove(gone));
}

/// Replacing the value at a position rebinds the identifier at that position.
proof fn lemma_update<T>(idents: Seq<Ident>, values: Seq<T>, i: int, value: T)
    requires
        distinct(idents),
        idents.len() == values.len(),
        0 <= i < idents.len(),
    ensures
        map_of(idents, values.update(i, value)) == map_of(idents, values).insert(
            idents[i]@,
            value,
        ),
{
    let after = values.update(i, value);
    assert forall|key: Seq<char>| map_of(idents, after).contains_key(key) implies map_of(
        idents,
        after,
    )[key] == map_of(idents, values).insert(idents[i]@, value)[key] by {
        let j = choose|j: int| at(idents, key, j);
        lemma_entry(idents, after, j);
        lemma_entry(idents, values, j);
    }
    assert(at(idents, idents[i]@, i));
    assert(map_of(idents, after) =~= map_of(idents, values).insert(idents[i]@, value));
}

impl<T> Table<T> {
    #[verifier::type_invariant]
    spec fn well_formed(&self) -> bool {
        &&& distinct(self.idents@)
        &&& self.idents@.len() == self.values@.len()
    }

    /// The mapping that the table holds.
    pub closed spec fn map(&self) -> Map<Seq<char>, T> {
        map_of(self.idents@, self.values@)
    }

    /// The number of identifiers that the table binds.
    pub closed spec fn size(&self) -> nat {
        self.idents@.len()
    }

    /// The table that binds nothing.
    pub fn new() -> (table: Table<T>)
        ensures
            table.map() == Map::<Seq<char>, T>::empty(),
            table.size() == 0,
    {
        let table = Table { idents: Vec::new(), values: Vec::new() };
        proof {
            lemma_absent_everywhere(table.idents@, table.values@);
        }
        table
    }

    /// Moves the table out and leaves an empty one.
    fn take(&mut self) -> (taken: Table<T>)
        ensures
            taken.idents@ == old(self).idents@,
            taken.values@ == old(self).values@,
            final(self).idents@.len() == 0,
            final(self).values@.len() == 0,
    {
        let mut taken = Table { idents: Vec::new(), values: Vec::new() };
        core::mem::swap(self, &mut taken);
        taken
    }

    /// The position at which `ident` occurs.
    fn find(&self, ident: &Ident) -> (found: Option<usize>)
        ensures
            match found {
                Some(i) => at(self.idents@, ident@, i as int),
                None => forall|i: int| 0 <= i < self.idents@.len() ==> self.idents@[i]@ != ident@,
            },
    {
        let mut i: usize = 0;
        while i < self.idents.len()
            invariant
                i <= self.idents@.len(),
                forall|j: int| 0 <= j < i ==> self.idents@[j]@ != ident@,
            decreases self.idents@.len() - i,
        {
            if self.idents[i].equals(ident) {
                return Some(i);
            }
            i += 1;
        }
        None
    }

    /// Whether the table binds `ident`.
    pub fn contains(&self, ident: &Ident) -> (bound: bool)
        ensures
            bound == self.map().contains_key(ident@),
    {
        proof {
            use_type_invariant(self);
        }
        match self.find(ident) {
            Some(i) => {
                proof {
                    lemma_entry(self.idents@, self.values@, i as int);
                }
                true
            },
            None => {
                proof {
                    lemma_absent(self.idents@, self.values@, ident@);
                }
                false
            },
        }
    }

    /// The value bound to `ident`, if any.
    pub fn get(&self, ident: &Ident) -> (found: Option<&T>)
        ensures
            match found {
                Some(value) => self.map().contains_key(ident@) && self.map()[ident@] == *value,
                None => !self.map().contains_key(ident@),
            },
    {
        proof {
            use_type_invariant(self);
        }
        match self.find(ident) {
            Some(i) => {
                proof {
                    lemma_entry(self.idents@, self.values@, i as int);
                }
                Some(&self.values[i])
            },
            None => {
                proof {
                    lemma_absent(self.idents@, self.values@, ident@);
                }
                None
            },
        }
    }

    /// The value bound to `ident`, if any, to be changed in place.
    pub fn get_mut(&mut self, ident: &Ident) -> (found: Option<&mut T>)
        ensures
            match found {
                Some(value) => {
                    &&& old(self).map().contains_key(ident@)
                    &&& old(self).map()[ident@] == *value
                    &&& final(self).map() == old(self).map().insert(ident@, *final(value))
                },
                None => {
                    &&& !old(self).map().contains_key(ident@)
                    &&& final(self).map() == old(self).map()
                },
            },
    {
        proof {
            use_type_invariant(&*self);
        }
        match self.find(ident) {
            Some(i) => {
                proof {
                    lemma_entry(self.idents@, self.values@, i as int);
                    assert forall|value: T|
                        map_of(self.idents@, self.values@.update(i as int, value)) == map_of(
                            self.idents@,
                            self.values@,
                        ).insert(ident@, value) by {
                        lemma_update(self.idents@, self.values@, i as int, value);
                    }
                }
                Some(&mut self.values[i])
            },
            None => {
                proof {
                    lemma_absent(self.idents@, self.values@, ident@);
                }
                None
            },
        }
    }

    /// Binds `ident` to `value` and returns what it was bound to before.
    pub fn insert(&mut self, ident: Ident, value: T) -> (previous: Option<T>)
        ensures
            final(self).map() == old(self).map().insert(ident@, value),
            previous == if old(self).map().contains_key(ident@) {
                Some(old(self).map()[ident@])
            } else {
                None
            },
    {
        let previous = self.remove(&ident);
        proof {
            use_type_invariant(&*self);
            lemma_push(self.idents@, self.values@, ident, value);
        }
        let Table { mut idents, mut values } = self.take();
        idents.push(ident);
        values.push(value);
        *self = Table { idents, values };
        assert(self.map() =~= old(self).map().insert(ident@, value));
        previous
    }

    /// Unbinds `ident` and returns what it was bound to.
    pub fn remove(&mut self, ident: &Ident) -> (previous: Option<T>)
        ensures
            final(self).map() == old(self).map().remove(ident@),
            previous == if old(self).map().contains_key(ident@) {
                Some(old(self).map()[ident@])
            } else {
                None
            },
            final(self).size() <= old(self).size(),
    {
        proof {
            use_type_invariant(&*self);
        }
        match self.find(ident) {
            Some(i) => {
                proof {
                    lemma_entry(self.idents@, self.values@, i as int);
                    lemma_swap_remove(self.idents@, self.values@, i as int);
                }
                let Table { mut idents, mut values } = self.take();
                let _ = idents.swap_remove(i);
                let value = values.swap_remove(i);
                *self = Table { idents, values };
                Some(value)
            },
            None => {
                proof {
                    lemma_absent(self.idents@, self.values@, ident@);
                }
                assert(self.map() =~= old(self).map().remove(ident@));
                None
            },
        }
    }

    /// Takes one binding out of the table, or returns `None` where the table
    /// binds nothing. Which binding leaves is not specified.
    pub fn take_any(&mut self) -> (taken: Option<(Ident, T)>)
        ensures
            match taken {
                Some((ident, value)) => {
                    &&& old(self).map().contains_key(ident@)
                    &&& old(self).map()[ident@] == value
                    &&& final(self).map() == old(self).map().remove(ident@)
                    &&& final(self).size() + 1 == old(self).size()
                },
                None => {
                    &&& old(self).map() == Map::<Seq<char>, T>::empty()
                    &&& final(self).map() == old(self).map()
                    &&& old(self).size() == 0
                },
            },
    {
        proof {
            use_type_invariant(&*self);
        }
        let n = self.idents.len();
        if n == 0 {
            proof {
                lemma_absent_everywhere(self.idents@, self.values@);
            }
            return None;
        }
        proof {
            lemma_entry(self.idents@, self.values@, n - 1);
            lemma_swap_remove(self.idents@, self.values@, n - 1);
        }
        let Table { mut idents, mut values } = self.take();
        let ident = idents.swap_remove(n - 1);
        let value = values.swap_remove(n - 1);
        *self = Table { idents, values };
        Some((ident, value))
    }

    /// Whether the table binds nothing.
    pub fn is_empty(&self) -> (empty: bool)
        ensures
            empty == (self.map() == Map::<Seq<char>, T>::empty()),
            empty == (self.size() == 0),
    {
        proof {
            use_type_invariant(self);
            if self.idents@.len() == 0 {
                lemma_absent_everywhere(self.idents@, self.values@);
            } else {
                lemma_entry(self.idents@, self.values@, 0);
            }
        }
        self.idents.len() == 0
    }

    /// Unbinds every identifier.
    pub fn clear(&mut self)
        ensures
            final(self).map() == Map::<Seq<char>, T>::empty(),
            final(self).size() == 0,
    {
        let Table { mut idents, mut values } = self.take();
        idents.clear();
        values.clear();
        *self = Table { idents, values };
        proof {
            lemma_absent_everywhere(self.idents@, self.values@);
        }
    }

    /// The identifiers that the table binds, each once, in no particular
    /// order.
    pub fn idents(&self) -> (idents: Vec<Ident>)
        ensures
            idents@.len() == self.size(),
            forall|i: int| 0 <= i < idents@.len() ==> self.map().contains_key(#[trigger] idents@[i]@),
            forall|key: Seq<char>|
                self.map().contains_key(key) ==> exists|i: int|
                    0 <= i < idents@.len() && #[trigger] idents@[i]@ == key,
            forall|i: int, j: int|
                0 <= i < idents@.len() && 0 <= j < idents@.len() && i != j ==> idents@[i]@
                    != idents@[j]@,
    {
        proof {
            use_type_invariant(self);
        }
        let mut idents: Vec<Ident> = Vec::new();
        let mut i: usize = 0;
        while i < self.idents.len()
            invariant
                i <= self.idents@.len(),
                idents@.len() == i,
                forall|j: int| 0 <= j < i ==> idents@[j]@ == self.idents@[j]@,
            decreases self.idents@.len() - i,
        {
            idents.push(self.idents[i].clone());
            i += 1;
        }
        proof {
            assert forall|j: int| 0 <= j < idents@.len() implies self.map().contains_key(
                #[trigger] idents@[j]@,
            ) by {
                lemma_entry(self.idents@, self.values@, j);
            }
            assert forall|key: Seq<char>| self.map().contains_key(key) implies exists|j: int|
                0 <= j < idents@.len() && #[trigger] idents@[j]@ == key by {
                let j = choose|j: int| at(self.idents@, key, j);
                assert(idents@[j]@ == key);
            }
        }
        idents
    }
}

impl<T: Clone> Clone for Table<T> {
    /// A table that binds the same identifiers, each to a clone of its value.
    fn clone(&self) -> (copy: Table<T>)
        ensures
            copy.map().dom() == self.map().dom(),
            forall|key: Seq<char>| #[trigger]
                self.map().contains_key(key) ==> cloned(self.map()[key], copy.map()[key]),
            copy.size() == self.size(),
    {
        proof {
            use_type_invariant(self);
        }
        let idents = self.idents.clone();
        let values = self.values.clone();
        proof {
            assert forall|i: int| 0 <= i < idents@.len() implies idents@[i]@
                == self.idents@[i]@ by {
                assert(cloned(self.idents@[i], idents@[i]));
            }
            assert(distinct(idents@));
        }
        let copy = Table { idents, values };
        proof {
            assert forall|key: Seq<char>|
                copy.map().contains_key(key) == self.map().contains_key(key) by {
                if copy.map().contains_key(key) {
                    let i = choose|i: int| at(copy.idents@, key, i);
                    assert(at(self.idents@, key, i));
                }
                if self.map().contains_key(key) {
                    let i = choose|i: int| at(self.idents@, key, i);
                    assert(at(copy.idents@, key, i));
                }
            }
            assert(copy.map().dom() =~= self.map().dom());
            assert forall|key: Seq<char>| #[trigger] self.map().contains_key(key) implies cloned(
                self.map()[key],
                copy.map()[key],
            ) by {
                let i = choose|i: int| at(self.idents@, key, i);
                assert(at(copy.idents@, key, i));
                lemma_entry(self.idents@, self.values@, i);
                lemma_entry(copy.idents@, copy.values@, i);
            }
        }
        copy
    }
}

} // verus!
