//! The variables of one lexical scope, and how scopes are combined.

use vstd::prelude::*;
use crate::ident::Ident;
use crate::table::Table;
use crate::kind::{lemma_join_is_least_upper_bound, lemma_join_laws, Kind};
use crate::type_def::{join_details, Details, DetailsView};

verus! {

/// The bindings of a scope: each identifier with what is known of it.
pub type Bindings = Map<Seq<char>, DetailsView>;

/// The parent's bindings after a child scope has closed: the parent keeps its
/// identifiers, each with the child's details where the child binds it too.
/// What only the child binds does not reach the parent.
pub open spec fn apply_scope(parent: Bindings, child: Bindings) -> Bindings {
    Map::new(
        |key: Seq<char>| parent.contains_key(key),
        |key: Seq<char>|
            if child.contains_key(key) {
                child[key]
            } else {
                parent[key]
            },
    )
}

/// The bindings after one of two branches has run: the identifiers that both
/// branches bind, each with the join of the two details.
pub open spec fn merge_scopes(a: Bindings, b: Bindings) -> Bindings {
    Map::new(
        |key: Seq<char>| a.contains_key(key) && b.contains_key(key),
        |key: Seq<char>| join_details(a[key], b[key]),
    )
}

/// Local environment, limited to a given scope.
#[derive(Debug)]
pub struct LocalEnv {
    bindings: Table<Details>,
}

impl View for LocalEnv {
    type V = Bindings;

    closed spec fn view(&self) -> Bindings {
        self.bindings.map().map_values(|details: Details| details@)
    }
}

impl Clone for LocalEnv {
    fn clone(&self) -> (copy: LocalEnv)
        ensures
            copy@ == self@,
    {
        let copy = LocalEnv { bindings: self.bindings.clone() };
        proof {
            assert forall|key: Seq<char>| #[trigger] self@.contains_key(key) implies copy@[key]
                == self@[key] by {
                assert(self.bindings.map().contains_key(key));
                assert(cloned(self.bindings.map()[key], copy.bindings.map()[key]));
            }
            assert(copy@ =~= self@);
        }
        copy
    }
}

impl Default for LocalEnv {
    fn default() -> (env: LocalEnv)
        ensures
            env@ == Map::<Seq<char>, DetailsView>::empty(),
    {
        LocalEnv::new()
    }
}

impl LocalEnv {
    /// The scope that binds nothing.
    pub fn new() -> (env: LocalEnv)
        ensures
            env@ == Map::<Seq<char>, DetailsView>::empty(),
    {
        let env = LocalEnv { bindings: Table::new() };
        assert(env@ =~= Map::<Seq<char>, DetailsView>::empty());
        env
    }

    /// The identifiers that the scope binds, each once, in no particular
    /// order.
    pub fn variable_idents(&self) -> (idents: Vec<Ident>)
        ensures
            forall|i: int| 0 <= i < idents@.len() ==> self@.contains_key(#[trigger] idents@[i]@),
            forall|key: Seq<char>|
                self@.contains_key(key) ==> exists|i: int|
                    0 <= i < idents@.len() && #[trigger] idents@[i]@ == key,
            forall|i: int, j: int|
                0 <= i < idents@.len() && 0 <= j < idents@.len() && i != j ==> idents@[i]@
                    != idents@[j]@,
    {
        self.bindings.idents()
    }

    /// What is known of `ident`, where the scope binds it.
    pub fn variable(&self, ident: &Ident) -> (found: Option<&Details>)
        ensures
            match found {
                Some(details) => self@.contains_key(ident@) && self@[ident@] == details@,
                None => !self@.contains_key(ident@),
            },
    {
        self.bindings.get(ident)
    }

    /// Binds `ident` to `details`, in place of what it was bound to.
    pub fn insert_variable(&mut self, ident: Ident, details: Details)
        ensures
            final(self)@ == old(self)@.insert(ident@, details@),
    {
        let _ = self.bindings.insert(ident, details);
        assert(self@ =~= old(self)@.insert(ident@, details@));
    }

    /// Unbinds `ident` and returns what it was bound to.
    pub fn remove_variable(&mut self, ident: &Ident) -> (previous: Option<Details>)
        ensures
            final(self)@ == old(self)@.remove(ident@),
            match previous {
                Some(details) => old(self)@.contains_key(ident@) && old(self)@[ident@]
                    == details@,
                None => !old(self)@.contains_key(ident@),
            },
    {
        let previous = self.bindings.remove(ident);
        assert(self@ =~= old(self)@.remove(ident@));
        previous
    }

    /// Closes a child scope: what the child changed of the parent's variables
    /// reaches the parent, what the child declared itself does not.
    pub fn apply_child_scope(self, child: LocalEnv) -> (applied: LocalEnv)
        ensures
            applied@ == apply_scope(self@, child@),
    {
        let ghost parent_map = self.bindings.map();
        let ghost child_map = child.bindings.map();
        let mut parent = self;
        let mut rest = child;
        while !rest.bindings.is_empty()
            invariant
                forall|key: Seq<char>| #[trigger]
                    rest.bindings.map().contains_key(key) ==> child_map.contains_key(key)
                        && rest.bindings.map()[key] == child_map[key],
                forall|key: Seq<char>|
                    parent.bindings.map().contains_key(key) == parent_map.contains_key(key),
                forall|key: Seq<char>| #[trigger]
                    parent_map.contains_key(key) ==> parent.bindings.map()[key] == if child_map.contains_key(
                        key,
                    ) && !rest.bindings.map().contains_key(key) {
                        child_map[key]
                    } else {
                        parent_map[key]
                    },
            decreases rest.bindings.size(),
        {
            match rest.bindings.take_any() {
                Some((ident, details)) => {
                    if parent.bindings.contains(&ident) {
                        let _ = parent.bindings.insert(ident, details);
                    }
                },
                None => {},
            }
        }
        assert(parent@ =~= apply_scope(self@, child@));
        parent
    }

    /// Merges the scopes of two branches of which one will have run. Only the
    /// identifiers that both bind remain, each with the join of its two
    /// details.
    pub fn merge(self, other: LocalEnv) -> (merged: LocalEnv)
        ensures
            merged@ == merge_scopes(self@, other@),
    {
        let ghost mine_map = self.bindings.map();
        let ghost other_map = other.bindings.map();
        let mut mine = self;
        let mut rest = other;
        let mut merged = LocalEnv { bindings: Table::new() };
        while !rest.bindings.is_empty()
            invariant
                forall|key: Seq<char>| #[trigger]
                    rest.bindings.map().contains_key(key) ==> other_map.contains_key(key)
                        && rest.bindings.map()[key] == other_map[key],
                forall|key: Seq<char>| #[trigger]
                    mine.bindings.map().contains_key(key) == (mine_map.contains_key(key) && !(
                    other_map.contains_key(key) && !rest.bindings.map().contains_key(key))),
                forall|key: Seq<char>| #[trigger]
                    mine.bindings.map().contains_key(key) ==> mine.bindings.map()[key]
                        == mine_map[key],
                forall|key: Seq<char>| #[trigger]
                    merged.bindings.map().contains_key(key) == (mine_map.contains_key(key)
                        && other_map.contains_key(key) && !rest.bindings.map().contains_key(key)),
                forall|key: Seq<char>| #[trigger]
                    merged.bindings.map().contains_key(key) ==> merged.bindings.map()[key]@
                        == join_details(mine_map[key]@, other_map[key]@),
            decreases rest.bindings.size(),
        {
            match rest.bindings.take_any() {
                Some((ident, theirs)) => {
                    match mine.bindings.remove(&ident) {
                        Some(ours) => {
                            let _ = merged.bindings.insert(ident, ours.merge(theirs));
                        },
                        None => {},
                    }
                },
                None => {},
            }
        }
        assert(merged@ =~= merge_scopes(self@, other@));
        merged
    }
}

/// After two branches, an identifier that both bind is bound to the join of
/// its two details: its kind includes the kind that either branch gave it,
/// and it can fail if it can in either branch. An identifier that only one of
/// the two binds is not bound.
pub proof fn lemma_merge_joins_shared_and_drops_rest(a: Bindings, b: Bindings, ident: Seq<char>)
    ensures
        merge_scopes(a, b).contains_key(ident) == (a.contains_key(ident) && b.contains_key(ident)),
        a.contains_key(ident) && b.contains_key(ident) ==> {
            let joined = merge_scopes(a, b)[ident];
            &&& joined == join_details(a[ident], b[ident])
            &&& joined.type_def.kind == a[ident].type_def.kind.join(b[ident].type_def.kind)
            &&& joined.type_def.kind.includes(a[ident].type_def.kind)
            &&& joined.type_def.kind.includes(b[ident].type_def.kind)
            &&& joined.type_def.fallible == (a[ident].type_def.fallible
                || b[ident].type_def.fallible)
        },
{
    if a.contains_key(ident) && b.contains_key(ident) {
        lemma_join_is_least_upper_bound(
            a[ident].type_def.kind,
            b[ident].type_def.kind,
            Kind::nothing(),
        );
    }
}

/// Merging does not depend on the order of the two branches.
pub proof fn lemma_merge_is_symmetric(a: Bindings, b: Bindings)
    ensures
        merge_scopes(a, b) == merge_scopes(b, a),
{
    assert forall|key: Seq<char>| a.contains_key(key) && b.contains_key(key) implies join_details(
        a[key],
        b[key],
    ) == join_details(b[key], a[key]) by {
        lemma_join_laws(a[key].type_def.kind, b[key].type_def.kind, Kind::nothing());
    }
    assert(merge_scopes(a, b) =~= merge_scopes(b, a));
}

/// When a child scope closes, a variable of the parent that the child has
/// overwritten carries the child's details, a variable that the child has
/// not touched keeps its own, and what the child declared itself is not
/// bound in the parent.
pub proof fn lemma_child_scope_overwrites_without_leaking(
    parent: Bindings,
    child: Bindings,
    ident: Seq<char>,
)
    ensures
        apply_scope(parent, child).contains_key(ident) == parent.contains_key(ident),
        parent.contains_key(ident) && child.contains_key(ident) ==> apply_scope(
            parent,
            child,
        )[ident] == child[ident],
        parent.contains_key(ident) && !child.contains_key(ident) ==> apply_scope(
            parent,
            child,
        )[ident] == parent[ident],
        apply_scope(parent, child).dom() == parent.dom(),
{
    assert(apply_scope(parent, child).dom() =~= parent.dom());
}

} // verus!
