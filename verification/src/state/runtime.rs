//! The variables of one run of a program.

use vstd::prelude::*;
use crate::ident::Ident;
use crate::table::Table;
use crate::value::Value;

verus! {

/// The variables of a run: each bound identifier with its value.
pub type Variables = Map<Seq<char>, Value>;

/// The value that `ident` had before an assignment that yields it.
pub open spec fn previous_value(variables: Variables, ident: Seq<char>) -> Option<Value> {
    if variables.contains_key(ident) {
        Some(variables[ident])
    } else {
        None
    }
}

/// The state used at runtime to track changes as they happen.
#[derive(Debug)]
pub struct Runtime {
    /// The value stored in each variable.
    variables: Table<Value>,
}

impl View for Runtime {
    type V = Variables;

    closed spec fn view(&self) -> Variables {
        self.variables.map()
    }
}

impl Default for Runtime {
    fn default() -> (runtime: Runtime)
        ensures
            runtime@ == Map::<Seq<char>, Value>::empty(),
    {
        Runtime { variables: Table::new() }
    }
}

impl Runtime {
    /// Whether no variable is bound.
    #[must_use]
    pub fn is_empty(&self) -> (empty: bool)
        ensures
            empty == (self@ == Map::<Seq<char>, Value>::empty()),
    {
        self.variables.is_empty()
    }

    /// Unbinds every variable: the store is then as a new one.
    pub fn clear(&mut self)
        ensures
            final(self)@ == Map::<Seq<char>, Value>::empty(),
    {
        self.variables.clear();
    }

    /// The value of `ident`, where it is bound.
    #[must_use]
    pub fn variable(&self, ident: &Ident) -> (found: Option<&Value>)
        ensures
            match found {
                Some(value) => self@.contains_key(ident@) && self@[ident@] == *value,
                None => !self@.contains_key(ident@),
            },
    {
        self.variables.get(ident)
    }

    /// The value of `ident`, where it is bound, to be changed in place: the
    /// store then binds `ident` to what the caller leaves there.
    pub fn variable_mut(&mut self, ident: &Ident) -> (found: Option<&mut Value>)
        ensures
            match found {
                Some(value) => {
                    &&& old(self)@.contains_key(ident@)
                    &&& old(self)@[ident@] == *value
                    &&& final(self)@ == old(self)@.insert(ident@, *final(value))
                },
                None => !old(self)@.contains_key(ident@) && final(self)@ == old(self)@,
            },
    {
        self.variables.get_mut(ident)
    }

    /// Binds `ident` to `value`, in place of what it was bound to.
    pub fn insert_variable(&mut self, ident: Ident, value: Value)
        ensures
            final(self)@ == old(self)@.insert(ident@, value),
    {
        let _ = self.variables.insert(ident, value);
    }

    /// Unbinds `ident`.
    pub fn remove_variable(&mut self, ident: &Ident)
        ensures
            final(self)@ == old(self)@.remove(ident@),
    {
        let _ = self.variables.remove(ident);
    }

    /// Binds `ident` to `value` and returns the value that it had, or `None`
    /// where it was not bound.
    pub fn swap_variable(&mut self, ident: Ident, value: Value) -> (previous: Option<Value>)
        ensures
            final(self)@ == old(self)@.insert(ident@, value),
            previous == previous_value(old(self)@, ident@),
    {
        self.variables.insert(ident, value)
    }
}

/// An assignment to an unbound variable yields nothing and binds it; a second
/// assignment yields the value of the first and binds the second.
pub proof fn lemma_swap_yields_previous(
    variables: Variables,
    ident: Seq<char>,
    first: Value,
    second: Value,
)
    requires
        !variables.contains_key(ident),
    ensures
        previous_value(variables, ident) == None::<Value>,
        variables.insert(ident, first).contains_key(ident),
        variables.insert(ident, first)[ident] == first,
        previous_value(variables.insert(ident, first), ident) == Some(first),
        variables.insert(ident, first).insert(ident, second)[ident] == second,
{
}

} // verus!
