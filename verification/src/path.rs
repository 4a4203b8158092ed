//! Paths into a structured value, and the prefix relation between them.

use vstd::prelude::*;

verus! {

/// One step of a path: a named field of an object or a position in an array.
#[derive(Clone, Debug, PartialEq, Eq)]
pub enum Segment {
    Field(String),
    Index(i64),
}

/// What a segment stands for in contracts.
pub enum SegmentView {
    Field(Seq<char>),
    Index(int),
}

impl View for Segment {
    type V = SegmentView;

    open spec fn view(&self) -> SegmentView {
        match self {
            Segment::Field(name) => SegmentView::Field(name@),
            Segment::Index(position) => SegmentView::Index(*position as int),
        }
    }
}

impl Segment {
    /// Whether two segments name the same step.
    pub fn equals(&self, other: &Segment) -> (same: bool)
        ensures
            same == (self@ == other@),
    {
        match self {
            Segment::Field(a) => match other {
                Segment::Field(b) => *a == *b,
                Segment::Index(_) => false,
            },
            Segment::Index(a) => match other {
                Segment::Field(_) => false,
                Segment::Index(b) => *a == *b,
            },
        }
    }
}

/// `prefix` is an initial part of `path`: `path` lies at or below `prefix`.
pub open spec fn starts_with(path: Seq<SegmentView>, prefix: Seq<SegmentView>) -> bool {
    &&& prefix.len() <= path.len()
    &&& forall|i: int| 0 <= i < prefix.len() ==> path[i] == prefix[i]
}

/// A path from the root of a value down to one of its parts. The empty path
/// is the root itself.
#[derive(Clone, Debug, PartialEq, Eq)]
pub struct ValuePath {
    pub segments: Vec<Segment>,
}

impl View for ValuePath {
    type V = Seq<SegmentView>;

    open spec fn view(&self) -> Seq<SegmentView> {
        self.segments@.map_values(|s: Segment| s@)
    }
}

impl ValuePath {
    /// The path of the whole value.
    pub fn root() -> (path: ValuePath)
        ensures
            path@ == Seq::<SegmentView>::empty(),
    {
        let path = ValuePath { segments: Vec::new() };
        assert(path@ =~= Seq::<SegmentView>::empty());
        path
    }

    /// The path made of the given segments, outermost first.
    pub fn new(segments: Vec<Segment>) -> (path: ValuePath)
        ensures
            path.segments == segments,
    {
        ValuePath { segments }
    }

    /// This path, one named field further down.
    pub fn field(self, name: String) -> (path: ValuePath)
        ensures
            path@ == self@.push(SegmentView::Field(name@)),
    {
        let mut segments = self.segments;
        segments.push(Segment::Field(name));
        let path = ValuePath { segments };
        assert(path@ =~= self@.push(SegmentView::Field(name@)));
        path
    }

    /// This path, one array position further down.
    pub fn index(self, position: i64) -> (path: ValuePath)
        ensures
            path@ == self@.push(SegmentView::Index(position as int)),
    {
        let mut segments = self.segments;
        segments.push(Segment::Index(position));
        let path = ValuePath { segments };
        assert(path@ =~= self@.push(SegmentView::Index(position as int)));
        path
    }

    /// How many segments the path has.
    pub fn len(&self) -> (n: usize)
        ensures
            n == self@.len(),
    {
        self.segments.len()
    }

    /// Whether this is the path of the whole value.
    pub fn is_root(&self) -> (root: bool)
        ensures
            root == (self@.len() == 0),
    {
        self.segments.len() == 0
    }

    /// Whether `prefix` is an initial part of this path, so that this path
    /// lies at or below `prefix`.
    pub fn can_start_with(&self, prefix: &ValuePath) -> (reached: bool)
        ensures
            reached == starts_with(self@, prefix@),
    {
        if prefix.segments.len() > self.segments.len() {
            return false;
        }
        let mut i: usize = 0;
        while i < prefix.segments.len()
            invariant
                i <= prefix.segments.len() <= self.segments.len(),
                forall|j: int| 0 <= j < i ==> self@[j] == prefix@[j],
            decreases prefix.segments.len() - i,
        {
            if !self.segments[i].equals(&prefix.segments[i]) {
                assert(self@[i as int] != prefix@[i as int]);
                return false;
            }
            i += 1;
        }
        true
    }

    /// Whether two paths have the same segments.
    pub fn equals(&self, other: &ValuePath) -> (same: bool)
        ensures
            same == (self@ == other@),
    {
        if self.segments.len() != other.segments.len() {
            return false;
        }
        let reached = self.can_start_with(other);
        proof {
            if reached {
                assert(self@ =~= other@);
            }
        }
        reached
    }
}

/// Being a prefix is a partial order on paths with the root as its least
/// element: every path starts with the root and with itself, two paths that
/// start with each other are the same, and a prefix of a prefix is a prefix.
pub proof fn lemma_starts_with_is_a_partial_order(
    a: Seq<SegmentView>,
    b: Seq<SegmentView>,
    c: Seq<SegmentView>,
)
    ensures
        starts_with(a, Seq::<SegmentView>::empty()),
        starts_with(a, a),
        starts_with(a, b) && starts_with(b, a) ==> a == b,
        starts_with(a, b) && starts_with(b, c) ==> starts_with(a, c),
{
    if starts_with(a, b) && starts_with(b, a) {
        assert(a =~= b);
    }
}

} // verus!
