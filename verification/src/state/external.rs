//! The program-wide environment: what is known of the target and of its
//! metadata, which paths a program may not assign to, and the side context
//! that the host supplies.

use vstd::prelude::*;
use crate::context::{count_after_insert, stored_types, ContextStore};
use crate::kind::{Kind, Primitive};
use crate::path::{starts_with, SegmentView, ValuePath};
use crate::type_def::{Details, DetailsView, TypeDef};

verus! {

/// Which of the two records a path leads into.
#[derive(Clone, Copy, Debug, PartialEq, Eq, PartialOrd, Ord, Structural)]
pub enum PathRoot {
    Event,
    Metadata,
}

/// A rule that forbids assignments: to `path` itself and to what lies above
/// it, and, where the rule is recursive, to everything below it too.
#[derive(Debug)]
pub struct ReadOnlyPath {
    path: ValuePath,
    recursive: bool,
    root: PathRoot,
}

/// What a rule stands for in contracts.
pub struct ReadOnlyPathView {
    pub path: Seq<SegmentView>,
    pub recursive: bool,
    pub root: PathRoot,
}

impl View for ReadOnlyPath {
    type V = ReadOnlyPathView;

    closed spec fn view(&self) -> ReadOnlyPathView {
        ReadOnlyPathView { path: self.path@, recursive: self.recursive, root: self.root }
    }
}

/// Whether `rule` forbids an assignment to `path` under `root`. An assignment
/// to an ancestor of the rule's path would replace what the rule protects, so
/// the rule covers its path and every prefix of it. A recursive rule covers
/// what lies below its path as well.
pub open spec fn rule_protects(
    rule: ReadOnlyPathView,
    path: Seq<SegmentView>,
    root: PathRoot,
) -> bool {
    &&& rule.root == root
    &&& {
        ||| starts_with(rule.path, path)
        ||| rule.recursive && starts_with(path, rule.path)
        ||| !rule.recursive && path == rule.path
    }
}

/// Whether some rule of `rules` forbids an assignment to `path` under `root`.
pub open spec fn read_only(
    rules: Set<ReadOnlyPathView>,
    path: Seq<SegmentView>,
    root: PathRoot,
) -> bool {
    exists|rule: ReadOnlyPathView| rules.contains(rule) && rule_protects(rule, path, root)
}

impl ReadOnlyPath {
    /// The rule on `path` under `root`.
    pub fn new(path: ValuePath, recursive: bool, root: PathRoot) -> (rule: ReadOnlyPath)
        ensures
            rule@ == (ReadOnlyPathView { path: path@, recursive, root }),
    {
        ReadOnlyPath { path, recursive, root }
    }

    /// Whether this rule forbids an assignment to `path` under `root`.
    pub fn protects(&self, path: &ValuePath, root: PathRoot) -> (protected: bool)
        ensures
            protected == rule_protects(self@, path@, root),
    {
        if self.root != root {
            return false;
        }
        if self.path.can_start_with(path) {
            return true;
        }
        if self.recursive {
            path.can_start_with(&self.path)
        } else {
            path.equals(&self.path)
        }
    }

    /// Whether two rules agree in path, recursion and root.
    pub fn equals(&self, other: &ReadOnlyPath) -> (same: bool)
        ensures
            same == (self@ == other@),
    {
        self.root == other.root && self.recursive == other.recursive && self.path.equals(
            &other.path,
        )
    }
}

/// A set of rules. No rule is held twice.
#[derive(Debug)]
pub struct RuleSet {
    rules: Vec<ReadOnlyPath>,
}

/// The rules at the positions of `rules`, as a set.
spec fn set_of(rules: Seq<ReadOnlyPath>) -> Set<ReadOnlyPathView> {
    Set::new(|rule: ReadOnlyPathView| exists|i: int| 0 <= i < rules.len() && rules[i]@ == rule)
}

impl View for RuleSet {
    type V = Set<ReadOnlyPathView>;

    closed spec fn view(&self) -> Set<ReadOnlyPathView> {
        set_of(self.rules@)
    }
}

impl RuleSet {
    #[verifier::type_invariant]
    spec fn well_formed(&self) -> bool {
        &&& forall|i: int, j: int|
            0 <= i < self.rules@.len() && 0 <= j < self.rules@.len() && i != j
                ==> self.rules@[i]@ != self.rules@[j]@
        &&& set_of(self.rules@).finite()
        &&& set_of(self.rules@).len() == self.rules@.len()
    }

    /// The set without rules.
    pub fn new() -> (set: RuleSet)
        ensures
            set@ == Set::<ReadOnlyPathView>::empty(),
    {
        let rules: Vec<ReadOnlyPath> = Vec::new();
        assert(set_of(rules@) =~= Set::<ReadOnlyPathView>::empty());
        RuleSet { rules }
    }

    /// How many rules the set holds.
    pub fn len(&self) -> (n: usize)
        ensures
            self@.finite(),
            n == self@.len(),
    {
        proof {
            use_type_invariant(self);
        }
        self.rules.len()
    }

    /// Whether the set holds `rule`.
    pub fn contains(&self, rule: &ReadOnlyPath) -> (held: bool)
        ensures
            held == self@.contains(rule@),
    {
        let mut i: usize = 0;
        while i < self.rules.len()
            invariant
                i <= self.rules@.len(),
                forall|j: int| 0 <= j < i ==> self.rules@[j]@ != rule@,
            decreases self.rules@.len() - i,
        {
            if self.rules[i].equals(rule) {
                return true;
            }
            i += 1;
        }
        false
    }

    /// Adds `rule` to the set. Adding a rule that the set holds changes
    /// nothing.
    pub fn insert(&mut self, rule: ReadOnlyPath)
        ensures
            final(self)@ == old(self)@.insert(rule@),
    {
        proof {
            use_type_invariant(&*self);
        }
        if self.contains(&rule) {
            assert(self@ =~= old(self)@.insert(rule@));
            return ;
        }
        let ghost before = self.rules@;
        let empty: Vec<ReadOnlyPath> = Vec::new();
        assert(set_of(empty@) =~= Set::<ReadOnlyPathView>::empty());
        let mut held = RuleSet { rules: empty };
        core::mem::swap(self, &mut held);
        let mut rules = held.rules;
        rules.push(rule);
        proof {
            let after = rules@;
            assert forall|r: ReadOnlyPathView| set_of(after).contains(r) == set_of(before).insert(
                rule@,
            ).contains(r) by {
                if set_of(after).contains(r) {
                    let i = choose|i: int| 0 <= i < after.len() && after[i]@ == r;
                    if i < before.len() {
                        assert(before[i]@ == r);
                    }
                }
                if set_of(before).contains(r) {
                    let i = choose|i: int| 0 <= i < before.len() && before[i]@ == r;
                    assert(after[i]@ == r);
                }
                if r == rule@ {
                    assert(after[before.len() as int]@ == r);
                }
            }
            assert(set_of(after) =~= set_of(before).insert(rule@));
        }
        *self = RuleSet { rules };
    }

    /// Whether some rule of the set forbids an assignment to `path` under
    /// `root`.
    pub fn protects(&self, path: &ValuePath, root: PathRoot) -> (protected: bool)
        ensures
            protected == read_only(self@, path@, root),
    {
        let mut i: usize = 0;
        while i < self.rules.len()
            invariant
                i <= self.rules@.len(),
                forall|j: int| 0 <= j < i ==> !rule_protects(self.rules@[j]@, path@, root),
            decreases self.rules@.len() - i,
        {
            if self.rules[i].protects(path, root) {
                assert(self@.contains(self.rules@[i as int]@));
                return true;
            }
            i += 1;
        }
        false
    }
}

/// The state of one compilation that outlives every scope.
#[derive(Debug)]
pub struct ExternalEnv {
    /// The external target of the program.
    target: Details,
    /// The kind of the target's metadata.
    metadata: Kind,
    read_only_paths: RuleSet,
    /// Context that the host hands to the functions of the program.
    custom: ContextStore,
}

impl Default for ExternalEnv {
    fn default() -> (env: ExternalEnv)
        ensures
            env.is_initial(),
    {
        ExternalEnv::new_with_kind(Kind::object(), Kind::object())
    }
}

impl ExternalEnv {
    /// What is known of the target.
    pub closed spec fn target_details(&self) -> DetailsView {
        self.target@
    }

    /// The kind of the target's metadata.
    pub closed spec fn metadata(&self) -> Kind {
        self.metadata
    }

    /// The rules that forbid assignments.
    pub closed spec fn rules(&self) -> Set<ReadOnlyPathView> {
        self.read_only_paths@
    }

    /// The side context.
    pub closed spec fn context(&self) -> ContextStore {
        self.custom
    }

    /// The environment that a compilation starts from where the host supplies
    /// none: target and metadata are objects of which no more is known, no
    /// path is read-only and there is no context.
    pub open spec fn is_initial(&self) -> bool {
        &&& self.target_details() == (DetailsView {
            type_def: TypeDef { fallible: false, kind: Kind::only(Primitive::Object) },
            value: None,
        })
        &&& self.metadata() == Kind::only(Primitive::Object)
        &&& self.rules() == Set::<ReadOnlyPathView>::empty()
        &&& stored_types(self.context()) == 0
    }

    /// An environment whose target and metadata have the given kinds, with no
    /// rule and no context.
    #[must_use]
    pub fn new_with_kind(target: Kind, metadata: Kind) -> (env: ExternalEnv)
        ensures
            env.target_details() == (DetailsView {
                type_def: TypeDef { fallible: false, kind: target },
                value: None,
            }),
            env.metadata() == metadata,
            env.rules() == Set::<ReadOnlyPathView>::empty(),
            stored_types(env.context()) == 0,
    {
        ExternalEnv {
            target: Details::from_kind(target),
            metadata,
            read_only_paths: RuleSet::new(),
            custom: ContextStore::new(),
        }
    }

    /// Whether a program may not assign to `path` of the event.
    pub fn is_read_only_event_path(&self, path: &ValuePath) -> (protected: bool)
        ensures
            protected == read_only(self.rules(), path@, PathRoot::Event),
    {
        self.is_read_only_path(path, PathRoot::Event)
    }

    /// Whether a program may not assign to `path` of the metadata.
    pub fn is_read_only_metadata_path(&self, path: &ValuePath) -> (protected: bool)
        ensures
            protected == read_only(self.rules(), path@, PathRoot::Metadata),
    {
        self.is_read_only_path(path, PathRoot::Metadata)
    }

    /// Whether a program may not assign to `path` under `root`: whether some
    /// rule covers it.
    pub fn is_read_only_path(&self, path: &ValuePath, root: PathRoot) -> (protected: bool)
        ensures
            protected == read_only(self.rules(), path@, root),
    {
        self.read_only_paths.protects(path, root)
    }

    /// Adds a rule: assignments to what it covers fail at compile time.
    pub fn set_read_only_path(&mut self, path: ValuePath, recursive: bool, root: PathRoot)
        ensures
            final(self).rules() == old(self).rules().insert(
                ReadOnlyPathView { path: path@, recursive, root },
            ),
            final(self).target_details() == old(self).target_details(),
            final(self).metadata() == old(self).metadata(),
            final(self).context() == old(self).context(),
    {
        self.read_only_paths.insert(ReadOnlyPath::new(path, recursive, root));
    }

    /// Adds a rule on a path of the event.
    pub fn set_read_only_event_path(&mut self, path: ValuePath, recursive: bool)
        ensures
            final(self).rules() == old(self).rules().insert(
                ReadOnlyPathView { path: path@, recursive, root: PathRoot::Event },
            ),
            final(self).target_details() == old(self).target_details(),
            final(self).metadata() == old(self).metadata(),
            final(self).context() == old(self).context(),
    {
        self.set_read_only_path(path, recursive, PathRoot::Event);
    }

    /// Adds a rule on a path of the metadata.
    pub fn set_read_only_metadata_path(&mut self, path: ValuePath, recursive: bool)
        ensures
            final(self).rules() == old(self).rules().insert(
                ReadOnlyPathView { path: path@, recursive, root: PathRoot::Metadata },
            ),
            final(self).target_details() == old(self).target_details(),
            final(self).metadata() == old(self).metadata(),
            final(self).context() == old(self).context(),
    {
        self.set_read_only_path(path, recursive, PathRoot::Metadata);
    }

    /// What is known of the target.
    pub fn target(&self) -> (details: &Details)
        ensures
            details@ == self.target_details(),
    {
        &self.target
    }

    /// What is known of the target, to be changed in place.
    pub fn target_mut(&mut self) -> (details: &mut Details)
        ensures
            details@ == old(self).target_details(),
            final(self).target_details() == (*final(details))@,
            final(self).metadata() == old(self).metadata(),
            final(self).rules() == old(self).rules(),
            final(self).context() == old(self).context(),
    {
        &mut self.target
    }

    /// The kind of the target.
    pub fn target_kind(&self) -> (kind: &Kind)
        ensures
            *kind == self.target_details().type_def.kind,
    {
        self.target.type_def.kind()
    }

    /// The kind of the metadata.
    pub fn metadata_kind(&self) -> (kind: &Kind)
        ensures
            *kind == self.metadata(),
    {
        &self.metadata
    }

    /// Replaces what is known of the target.
    pub fn update_target(&mut self, details: Details)
        ensures
            final(self).target_details() == details@,
            final(self).metadata() == old(self).metadata(),
            final(self).rules() == old(self).rules(),
            final(self).context() == old(self).context(),
    {
        self.target = details;
    }

    /// Replaces the kind of the metadata.
    pub fn update_metadata(&mut self, kind: Kind)
        ensures
            final(self).metadata() == kind,
            final(self).target_details() == old(self).target_details(),
            final(self).rules() == old(self).rules(),
            final(self).context() == old(self).context(),
    {
        self.metadata = kind;
    }

    /// Stores `data` as the context of type `T`, in place of an earlier value
    /// of that type. Nothing else of the environment changes; the number of
    /// stored types changes as `count_after_insert` says, replaced or not.
    pub fn set_external_context<T: 'static>(&mut self, data: T)
        ensures
            count_after_insert(stored_types(old(self).context()), stored_types(final(self).context()), true)
                || count_after_insert(stored_types(old(self).context()), stored_types(final(self).context()), false),
            final(self).target_details() == old(self).target_details(),
            final(self).metadata() == old(self).metadata(),
            final(self).rules() == old(self).rules(),
    {
        let _ = self.custom.insert::<T>(data);
    }

    /// Marks the whole event and the whole metadata as read-only: whatever
    /// the path, an assignment to it fails at compile time.
    pub fn read_only(self) -> (env: ExternalEnv)
        ensures
            env.rules() == self.rules().insert(
                ReadOnlyPathView {
                    path: Seq::<SegmentView>::empty(),
                    recursive: true,
                    root: PathRoot::Event,
                },
            ).insert(
                ReadOnlyPathView {
                    path: Seq::<SegmentView>::empty(),
                    recursive: true,
                    root: PathRoot::Metadata,
                },
            ),
            forall|path: Seq<SegmentView>, root: PathRoot| read_only(env.rules(), path, root),
            env.target_details() == self.target_details(),
            env.metadata() == self.metadata(),
            env.context() == self.context(),
    {
        let mut env = self;
        env.set_read_only_event_path(ValuePath::root(), true);
        env.set_read_only_metadata_path(ValuePath::root(), true);
        proof {
            assert forall|path: Seq<SegmentView>, root: PathRoot|
                read_only(env.rules(), path, root) by {
                lemma_root_rule_covers_all(env.rules(), path, root);
            }
        }
        env
    }

    /// The context of type `T`, where the host has stored one.
    pub fn get_external_context<T: 'static>(&self) -> (found: Option<&T>)
        ensures
            found.is_some() ==> stored_types(self.context()) > 0,
    {
        self.custom.get::<T>()
    }

    /// Puts `ctx` in the place of the whole side context and returns the
    /// context that was there.
    #[must_use]
    pub fn swap_external_context(&mut self, ctx: ContextStore) -> (previous: ContextStore)
        ensures
            previous == old(self).context(),
            final(self).context() == ctx,
            final(self).target_details() == old(self).target_details(),
            final(self).metadata() == old(self).metadata(),
            final(self).rules() == old(self).rules(),
    {
        let mut held = ctx;
        core::mem::swap(&mut self.custom, &mut held);
        held
    }
}

/// Rules never lift a protection: what a set of rules covers, every larger
/// set covers too.
pub proof fn lemma_more_rules_protect_more(
    rules: Set<ReadOnlyPathView>,
    more: Set<ReadOnlyPathView>,
    path: Seq<SegmentView>,
    root: PathRoot,
)
    requires
        rules.subset_of(more),
        read_only(rules, path, root),
    ensures
        read_only(more, path, root),
{
    let rule = choose|rule: ReadOnlyPathView| rules.contains(rule) && rule_protects(rule, path, root);
    assert(more.contains(rule));
}

/// Adding a rule a second time changes nothing.
pub proof fn lemma_adding_a_rule_is_idempotent(
    rules: Set<ReadOnlyPathView>,
    rule: ReadOnlyPathView,
)
    ensures
        rules.insert(rule).insert(rule) == rules.insert(rule),
{
    assert(rules.insert(rule).insert(rule) =~= rules.insert(rule));
}

/// With no rule, every path may be assigned to.
pub proof fn lemma_no_rule_protects_nothing(path: Seq<SegmentView>, root: PathRoot)
    ensures
        !read_only(Set::<ReadOnlyPathView>::empty(), path, root),
{
}

/// A rule covers its own path and every path above it, whatever other rules
/// there are.
pub proof fn lemma_rule_covers_path_and_ancestors(
    rules: Set<ReadOnlyPathView>,
    rule: ReadOnlyPathView,
    ancestor: Seq<SegmentView>,
)
    requires
        rules.contains(rule),
        starts_with(rule.path, ancestor),
    ensures
        read_only(rules, rule.path, rule.root),
        read_only(rules, ancestor, rule.root),
{
    assert(starts_with(rule.path, rule.path));
    assert(rule_protects(rule, rule.path, rule.root));
    assert(rule_protects(rule, ancestor, rule.root));
}

/// A recursive rule covers every path below its own, whatever other rules
/// there are.
pub proof fn lemma_recursive_rule_covers_descendants(
    rules: Set<ReadOnlyPathView>,
    rule: ReadOnlyPathView,
    descendant: Seq<SegmentView>,
)
    requires
        rules.contains(rule),
        rule.recursive,
        starts_with(descendant, rule.path),
    ensures
        read_only(rules, descendant, rule.root),
{
    assert(rule_protects(rule, descendant, rule.root));
}

/// A rule that is not recursive covers nothing below its path: with that
/// rule alone, a path that starts with the rule's path and is longer may be
/// assigned to.
pub proof fn lemma_plain_rule_leaves_descendants(
    rule_path: Seq<SegmentView>,
    root: PathRoot,
    descendant: Seq<SegmentView>,
)
    requires
        starts_with(descendant, rule_path),
        descendant.len() > rule_path.len(),
    ensures
        !read_only(
            set![ReadOnlyPathView { path: rule_path, recursive: false, root }],
            descendant,
            root,
        ),
{
    let plain = ReadOnlyPathView { path: rule_path, recursive: false, root };
    assert(!rule_protects(plain, descendant, root));
    assert forall|rule: ReadOnlyPathView| set![plain].contains(rule) implies !rule_protects(
        rule,
        descendant,
        root,
    ) by {
        assert(rule == plain);
    }
}

/// A path that no rule reaches may be assigned to: a rule on another branch
/// of the record covers neither that path nor its descendants.
pub proof fn lemma_unrelated_rule_protects_nothing(
    rule: ReadOnlyPathView,
    path: Seq<SegmentView>,
    root: PathRoot,
)
    requires
        !starts_with(rule.path, path),
        !starts_with(path, rule.path),
    ensures
        !read_only(set![rule], path, root),
{
    assert(!rule_protects(rule, path, root)) by {
        if path == rule.path {
            assert(starts_with(path, rule.path));
        }
    }
    assert forall|held: ReadOnlyPathView| set![rule].contains(held) implies !rule_protects(
        held,
        path,
        root,
    ) by {
        assert(held == rule);
    }
}

/// A rule counts only under its own root.
pub proof fn lemma_rule_is_bound_to_its_root(
    rule: ReadOnlyPathView,
    path: Seq<SegmentView>,
    root: PathRoot,
)
    requires
        rule.root != root,
    ensures
        !read_only(set![rule], path, root),
{
    assert forall|held: ReadOnlyPathView| set![rule].contains(held) implies !rule_protects(
        held,
        path,
        root,
    ) by {
        assert(held == rule);
    }
}

/// A recursive rule on the root covers every path under that root, the root
/// itself included.
pub proof fn lemma_root_rule_covers_all(
    rules: Set<ReadOnlyPathView>,
    path: Seq<SegmentView>,
    root: PathRoot,
)
    requires
        rules.contains(
            ReadOnlyPathView { path: Seq::<SegmentView>::empty(), recursive: true, root },
        ),
    ensures
        read_only(rules, path, root),
{
    let rule = ReadOnlyPathView { path: Seq::<SegmentView>::empty(), recursive: true, root };
    assert(starts_with(path, rule.path));
    assert(rule_protects(rule, path, root));
}

} // verus!
