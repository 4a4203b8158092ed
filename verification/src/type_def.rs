//! What the compiler knows of an expression's result: its kind, whether
//! evaluating it can fail, and its value where that is a constant.

use vstd::prelude::*;
use crate::kind::Kind;
use crate::value::{Value, ValueView};

verus! {

/// The kind of an expression's result, and whether evaluating it can fail.
#[derive(Clone, Copy, Debug, PartialEq, Eq, Structural)]
pub struct TypeDef {
    pub fallible: bool,
    pub kind: Kind,
}

impl TypeDef {
    /// The join of two type definitions: fallible if either is, of the join of
    /// the two kinds.
    pub open spec fn join(self, other: TypeDef) -> TypeDef {
        TypeDef { fallible: self.fallible || other.fallible, kind: self.kind.join(other.kind) }
    }

    /// An infallible result of the given kind.
    pub fn from_kind(kind: Kind) -> (type_def: TypeDef)
        ensures
            type_def == (TypeDef { fallible: false, kind }),
    {
        TypeDef { fallible: false, kind }
    }

    /// The kind of the result.
    pub fn kind(&self) -> (kind: &Kind)
        ensures
            *kind == self.kind,
    {
        &self.kind
    }

    /// Whether evaluating the expression can fail.
    pub fn is_fallible(&self) -> (fallible: bool)
        ensures
            fallible == self.fallible,
    {
        self.fallible
    }

    /// Joins two type definitions.
    pub fn merge(self, other: TypeDef) -> (joined: TypeDef)
        ensures
            joined == self.join(other),
    {
        TypeDef { fallible: self.fallible || other.fallible, kind: self.kind.merge(other.kind) }
    }
}

/// A type definition together with the value, where the compiler has shown
/// the result to be a constant.
#[derive(Debug, PartialEq, Eq)]
pub struct Details {
    pub type_def: TypeDef,
    pub value: Option<Value>,
}

/// What details stand for in contracts.
pub struct DetailsView {
    pub type_def: TypeDef,
    pub value: Option<ValueView>,
}

impl View for Details {
    type V = DetailsView;

    open spec fn view(&self) -> DetailsView {
        DetailsView {
            type_def: self.type_def,
            value: match self.value {
                Some(value) => Some(value@),
                None => None,
            },
        }
    }
}

impl Clone for Details {
    fn clone(&self) -> (copy: Details)
        ensures
            copy@ == self@,
    {
        let value = match &self.value {
            Some(value) => Some(value.clone()),
            None => None,
        };
        Details { type_def: self.type_def, value }
    }
}

/// What is known of a result that comes from one of two branches: the join of
/// the two type definitions, and the constant only where both branches give
/// the same one.
pub open spec fn join_details(a: DetailsView, b: DetailsView) -> DetailsView {
    DetailsView {
        type_def: a.type_def.join(b.type_def),
        value: if a.value == b.value {
            a.value
        } else {
            None
        },
    }
}

impl Details {
    /// Details of a result of the given kind with no known constant.
    pub fn from_kind(kind: Kind) -> (details: Details)
        ensures
            details@ == (DetailsView { type_def: TypeDef { fallible: false, kind }, value: None }),
    {
        Details { type_def: TypeDef::from_kind(kind), value: None }
    }

    /// Joins the details of two branches.
    pub fn merge(self, other: Details) -> (joined: Details)
        ensures
            joined@ == join_details(self@, other@),
    {
        let type_def = self.type_def.merge(other.type_def);
        let keep = match &self.value {
            Some(a) => match &other.value {
                Some(b) => a.equals(b),
                None => false,
            },
            None => other.value.is_none(),
        };
        if keep {
            Details { type_def, value: self.value }
        } else {
            Details { type_def, value: None }
        }
    }
}

} // verus!
