//! Identifiers: the names of variables.

use vstd::prelude::*;

verus! {

/// The name of a variable. Two identifiers are the same when their names are.
#[derive(Debug, PartialEq, Eq, Hash)]
pub struct Ident {
    name: String,
}

impl View for Ident {
    type V = Seq<char>;

    closed spec fn view(&self) -> Seq<char> {
        self.name@
    }
}

impl Clone for Ident {
    fn clone(&self) -> (copy: Ident)
        ensures
            copy@ == self@,
    {
        Ident { name: self.name.clone() }
    }
}

impl Ident {
    /// The identifier with the given name.
    pub fn new(name: &str) -> (ident: Ident)
        ensures
            ident@ == name@,
    {
        Ident { name: name.to_owned() }
    }

    /// The identifier's name.
    pub fn as_str(&self) -> (name: &str)
        ensures
            name@ == self@,
    {
        self.name.as_str()
    }

    /// Whether two identifiers carry the same name.
    pub fn equals(&self, other: &Ident) -> (same: bool)
        ensures
            same == (self@ == other@),
    {
        self.name == other.name
    }
}

} // verus!
