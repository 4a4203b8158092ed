//! The shapes that a value may take, as far as the environment tracks them.

use vstd::prelude::*;

verus! {

/// A shape that a single value can have.
#[derive(Clone, Copy, Debug, PartialEq, Eq, Structural)]
pub enum Primitive {
    Bytes,
    Integer,
    Float,
    Boolean,
    Timestamp,
    Regex,
    Null,
    Array,
    Object,
}

/// The set of shapes that a value may take when the program runs. One flag per
/// shape; a value with no flag set cannot exist.
#[derive(Clone, Copy, Debug, PartialEq, Eq, Structural)]
pub struct Kind {
    pub bytes: bool,
    pub integer: bool,
    pub float: bool,
    pub boolean: bool,
    pub timestamp: bool,
    pub regex: bool,
    pub null: bool,
    pub array: bool,
    pub object: bool,
}

impl Kind {
    /// Whether a value of this kind may have the shape `shape`.
    pub open spec fn admits(self, shape: Primitive) -> bool {
        match shape {
            Primitive::Bytes => self.bytes,
            Primitive::Integer => self.integer,
            Primitive::Float => self.float,
            Primitive::Boolean => self.boolean,
            Primitive::Timestamp => self.timestamp,
            Primitive::Regex => self.regex,
            Primitive::Null => self.null,
            Primitive::Array => self.array,
            Primitive::Object => self.object,
        }
    }

    /// The kind that admits what either of two kinds admits.
    pub open spec fn join(self, other: Kind) -> Kind {
        Kind {
            bytes: self.bytes || other.bytes,
            integer: self.integer || other.integer,
            float: self.float || other.float,
            boolean: self.boolean || other.boolean,
            timestamp: self.timestamp || other.timestamp,
            regex: self.regex || other.regex,
            null: self.null || other.null,
            array: self.array || other.array,
            object: self.object || other.object,
        }
    }

    /// Every shape that `other` admits, this kind admits too.
    pub open spec fn includes(self, other: Kind) -> bool {
        forall|shape: Primitive| other.admits(shape) ==> self.admits(shape)
    }

    /// The kind that admits no shape.
    pub open spec fn nothing() -> Kind {
        Kind {
            bytes: false,
            integer: false,
            float: false,
            boolean: false,
            timestamp: false,
            regex: false,
            null: false,
            array: false,
            object: false,
        }
    }

    /// The kind that admits `shape` and nothing else.
    pub open spec fn only(shape: Primitive) -> Kind {
        match shape {
            Primitive::Bytes => Kind { bytes: true, ..Kind::nothing() },
            Primitive::Integer => Kind { integer: true, ..Kind::nothing() },
            Primitive::Float => Kind { float: true, ..Kind::nothing() },
            Primitive::Boolean => Kind { boolean: true, ..Kind::nothing() },
            Primitive::Timestamp => Kind { timestamp: true, ..Kind::nothing() },
            Primitive::Regex => Kind { regex: true, ..Kind::nothing() },
            Primitive::Null => Kind { null: true, ..Kind::nothing() },
            Primitive::Array => Kind { array: true, ..Kind::nothing() },
            Primitive::Object => Kind { object: true, ..Kind::nothing() },
        }
    }

    /// The kind of a value that cannot exist.
    pub fn never() -> (kind: Kind)
        ensures
            kind == Kind::nothing(),
            forall|shape: Primitive| !kind.admits(shape),
    {
        Kind {
            bytes: false,
            integer: false,
            float: false,
            boolean: false,
            timestamp: false,
            regex: false,
            null: false,
            array: false,
            object: false,
        }
    }

    /// The kind of a value of which nothing is known.
    pub fn any() -> (kind: Kind)
        ensures
            forall|shape: Primitive| kind.admits(shape),
    {
        Kind {
            bytes: true,
            integer: true,
            float: true,
            boolean: true,
            timestamp: true,
            regex: true,
            null: true,
            array: true,
            object: true,
        }
    }

    /// The kind that admits exactly one shape.
    pub fn exact(shape: Primitive) -> (kind: Kind)
        ensures
            kind == Kind::only(shape),
            forall|other: Primitive| kind.admits(other) == (other == shape),
    {
        let none = Kind::never();
        match shape {
            Primitive::Bytes => Kind { bytes: true, ..none },
            Primitive::Integer => Kind { integer: true, ..none },
            Primitive::Float => Kind { float: true, ..none },
            Primitive::Boolean => Kind { boolean: true, ..none },
            Primitive::Timestamp => Kind { timestamp: true, ..none },
            Primitive::Regex => Kind { regex: true, ..none },
            Primitive::Null => Kind { null: true, ..none },
            Primitive::Array => Kind { array: true, ..none },
            Primitive::Object => Kind { object: true, ..none },
        }
    }

    /// A byte string.
    pub fn bytes() -> (kind: Kind)
        ensures
            kind == Kind::only(Primitive::Bytes),
            forall|other: Primitive| kind.admits(other) == (other == Primitive::Bytes),
    {
        Kind::exact(Primitive::Bytes)
    }

    /// An integer.
    pub fn integer() -> (kind: Kind)
        ensures
            kind == Kind::only(Primitive::Integer),
            forall|other: Primitive| kind.admits(other) == (other == Primitive::Integer),
    {
        Kind::exact(Primitive::Integer)
    }

    /// An object, whatever its fields.
    pub fn object() -> (kind: Kind)
        ensures
            kind == Kind::only(Primitive::Object),
            forall|other: Primitive| kind.admits(other) == (other == Primitive::Object),
    {
        Kind::exact(Primitive::Object)
    }

    /// Whether a value of this kind may have the shape `shape`.
    pub fn contains(&self, shape: Primitive) -> (admitted: bool)
        ensures
            admitted == self.admits(shape),
    {
        match shape {
            Primitive::Bytes => self.bytes,
            Primitive::Integer => self.integer,
            Primitive::Float => self.float,
            Primitive::Boolean => self.boolean,
            Primitive::Timestamp => self.timestamp,
            Primitive::Regex => self.regex,
            Primitive::Null => self.null,
            Primitive::Array => self.array,
            Primitive::Object => self.object,
        }
    }

    /// Joins two kinds: the result admits a shape exactly when one of the two
    /// does.
    pub fn merge(self, other: Kind) -> (joined: Kind)
        ensures
            joined == self.join(other),
            forall|shape: Primitive|
                joined.admits(shape) == (self.admits(shape) || other.admits(shape)),
    {
        Kind {
            bytes: self.bytes || other.bytes,
            integer: self.integer || other.integer,
            float: self.float || other.float,
            boolean: self.boolean || other.boolean,
            timestamp: self.timestamp || other.timestamp,
            regex: self.regex || other.regex,
            null: self.null || other.null,
            array: self.array || other.array,
            object: self.object || other.object,
        }
    }
}

/// A join admits a shape exactly when one of its sides does.
pub proof fn lemma_join_admits(a: Kind, b: Kind, shape: Primitive)
    ensures
        a.join(b).admits(shape) == (a.admits(shape) || b.admits(shape)),
{
}

/// A join includes both of its sides, and is the least kind that does.
pub proof fn lemma_join_is_least_upper_bound(a: Kind, b: Kind, upper: Kind)
    ensures
        a.join(b).includes(a),
        a.join(b).includes(b),
        upper.includes(a) && upper.includes(b) ==> upper.includes(a.join(b)),
{
    if upper.includes(a) && upper.includes(b) {
        assert forall|shape: Primitive| a.join(b).admits(shape) implies upper.admits(shape) by {
            if a.admits(shape) {
                assert(upper.admits(shape));
            } else {
                assert(b.admits(shape));
                assert(upper.admits(shape));
            }
        }
    }
}

/// Joining is commutative, associative and idempotent.
pub proof fn lemma_join_laws(a: Kind, b: Kind, c: Kind)
    ensures
        a.join(b) == b.join(a),
        a.join(b).join(c) == a.join(b.join(c)),
        a.join(a) == a,
{
}

} // verus!
