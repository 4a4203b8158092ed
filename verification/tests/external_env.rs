use vrl_state::context::ContextStore;
use vrl_state::kind::{Kind, Primitive};
use vrl_state::path::{Segment, ValuePath};
use vrl_state::state::{ExternalEnv, PathRoot, ReadOnlyPath, RuleSet};
use vrl_state::type_def::{Details, TypeDef};
use vrl_state::value::Value;

fn path(fields: &[&str]) -> ValuePath {
    let mut path = ValuePath::root();
    for field in fields {
        path = path.field(field.to_string());
    }
    path
}

#[derive(Debug, PartialEq)]
struct Region(String);

#[derive(Debug, PartialEq)]
struct Limit(u32);

#[test]
fn default_env_is_an_open_object() {
    let env = ExternalEnv::default();
    assert_eq!(*env.target_kind(), Kind::object());
    assert_eq!(*env.metadata_kind(), Kind::object());
    assert_eq!(env.target(), &Details::from_kind(Kind::object()));
    assert!(!env.is_read_only_event_path(&ValuePath::root()));
    assert!(!env.is_read_only_metadata_path(&ValuePath::root()));
    assert!(!env.is_read_only_event_path(&path(&["a"])));
    assert!(env.get_external_context::<Region>().is_none());
}

#[test]
fn new_with_kind_sets_both_kinds() {
    let env = ExternalEnv::new_with_kind(Kind::bytes(), Kind::integer());
    assert_eq!(*env.target_kind(), Kind::bytes());
    assert_eq!(*env.metadata_kind(), Kind::integer());
    assert_eq!(env.target().value, None);
    assert!(!env.target().type_def.is_fallible());
}

#[test]
fn plain_rule_covers_path_and_ancestors_only() {
    let mut env = ExternalEnv::default();
    env.set_read_only_event_path(path(&["a", "b"]), false);
    assert!(env.is_read_only_event_path(&path(&["a", "b"])));
    assert!(env.is_read_only_event_path(&path(&["a"])));
    assert!(env.is_read_only_event_path(&ValuePath::root()));
    assert!(!env.is_read_only_event_path(&path(&["a", "b", "c"])));
    assert!(!env.is_read_only_event_path(&path(&["a", "c"])));
    assert!(!env.is_read_only_event_path(&path(&["b"])));
}

#[test]
fn recursive_rule_covers_descendants_too() {
    let mut env = ExternalEnv::default();
    env.set_read_only_event_path(path(&["a", "b"]), true);
    assert!(env.is_read_only_event_path(&path(&["a", "b"])));
    assert!(env.is_read_only_event_path(&path(&["a"])));
    assert!(env.is_read_only_event_path(&path(&["a", "b", "c"])));
    assert!(env.is_read_only_event_path(&path(&["a", "b", "c", "d"])));
    assert!(!env.is_read_only_event_path(&path(&["a", "c"])));
}

#[test]
fn rules_are_bound_to_their_root() {
    let mut env = ExternalEnv::default();
    env.set_read_only_event_path(path(&["a"]), true);
    assert!(env.is_read_only_event_path(&path(&["a"])));
    assert!(!env.is_read_only_metadata_path(&path(&["a"])));

    let mut env = ExternalEnv::default();
    env.set_read_only_metadata_path(path(&["m"]), false);
    assert!(env.is_read_only_metadata_path(&path(&["m"])));
    assert!(!env.is_read_only_event_path(&path(&["m"])));
    assert!(env.is_read_only_path(&path(&["m"]), PathRoot::Metadata));
    assert!(!env.is_read_only_path(&path(&["m"]), PathRoot::Event));
}

#[test]
fn set_read_only_path_takes_the_root_as_argument() {
    let mut env = ExternalEnv::default();
    env.set_read_only_path(path(&["a"]), false, PathRoot::Metadata);
    assert!(env.is_read_only_metadata_path(&path(&["a"])));
    assert!(!env.is_read_only_event_path(&path(&["a"])));
}

#[test]
fn index_segments_are_told_from_fields() {
    let mut env = ExternalEnv::default();
    env.set_read_only_event_path(ValuePath::root().field("a".to_string()).index(0), true);
    assert!(env.is_read_only_event_path(&ValuePath::root().field("a".to_string()).index(0)));
    assert!(!env.is_read_only_event_path(&ValuePath::root().field("a".to_string()).index(1)));
    assert!(!env
        .is_read_only_event_path(&ValuePath::root().field("a".to_string()).field("0".to_string())));
    assert!(env.is_read_only_event_path(
        &ValuePath::root().field("a".to_string()).index(0).field("x".to_string())
    ));
}

#[test]
fn read_only_covers_every_path() {
    let env = ExternalEnv::default().read_only();
    assert!(env.is_read_only_event_path(&ValuePath::root()));
    assert!(env.is_read_only_metadata_path(&ValuePath::root()));
    assert!(env.is_read_only_event_path(&path(&["a"])));
    assert!(env.is_read_only_event_path(&path(&["a", "b", "c"])));
    assert!(env.is_read_only_metadata_path(&path(&["x", "y"])));
    assert!(env.is_read_only_event_path(&ValuePath::new(vec![Segment::Index(3)])));
}

#[test]
fn assignment_to_a_frozen_target_is_a_violation() {
    // A compiler asks before it accepts `.message = "x"`.
    let env = ExternalEnv::default().read_only();
    let target = path(&["message"]);
    let accepted = !env.is_read_only_event_path(&target);
    assert!(!accepted);
}

#[test]
fn duplicate_rules_collapse() {
    let mut rules = RuleSet::new();
    let rule = || ReadOnlyPath::new(path(&["a"]), false, PathRoot::Event);
    assert!(!rules.contains(&rule()));
    assert_eq!(rules.len(), 0);
    rules.insert(rule());
    assert_eq!(rules.len(), 1);
    rules.insert(rule());
    assert_eq!(rules.len(), 1);
    rules.insert(ReadOnlyPath::new(path(&["a"]), false, PathRoot::Metadata));
    rules.insert(ReadOnlyPath::new(path(&["a", "b"]), false, PathRoot::Event));
    rules.insert(ReadOnlyPath::new(path(&["a", "b"]), true, PathRoot::Event));
    assert_eq!(rules.len(), 4);
    let mut rules = RuleSet::new();
    rules.insert(rule());
    rules.insert(rule());
    assert!(rules.contains(&rule()));
    assert!(!rules.contains(&ReadOnlyPath::new(path(&["a"]), true, PathRoot::Event)));
    assert!(!rules.contains(&ReadOnlyPath::new(path(&["a"]), false, PathRoot::Metadata)));
    assert_eq!(rules.len(), 1);
    assert!(rules.protects(&path(&["a"]), PathRoot::Event));
    assert!(!rules.protects(&path(&["a", "b"]), PathRoot::Event));
}

#[test]
fn single_rule_decides_by_root_and_direction() {
    let plain = ReadOnlyPath::new(path(&["a", "b"]), false, PathRoot::Event);
    assert!(plain.protects(&path(&["a", "b"]), PathRoot::Event));
    assert!(plain.protects(&path(&["a"]), PathRoot::Event));
    assert!(!plain.protects(&path(&["a", "b", "c"]), PathRoot::Event));
    assert!(!plain.protects(&path(&["a", "b"]), PathRoot::Metadata));
    let deep = ReadOnlyPath::new(path(&["a", "b"]), true, PathRoot::Event);
    assert!(deep.protects(&path(&["a", "b", "c"]), PathRoot::Event));
    assert!(deep.equals(&ReadOnlyPath::new(path(&["a", "b"]), true, PathRoot::Event)));
    assert!(!deep.equals(&plain));
}

#[test]
fn can_start_with_is_the_prefix_relation() {
    assert!(path(&["a", "b"]).can_start_with(&path(&["a"])));
    assert!(path(&["a", "b"]).can_start_with(&path(&["a", "b"])));
    assert!(path(&["a", "b"]).can_start_with(&ValuePath::root()));
    assert!(!path(&["a"]).can_start_with(&path(&["a", "b"])));
    assert!(!path(&["a", "b"]).can_start_with(&path(&["b"])));
    assert!(ValuePath::root().can_start_with(&ValuePath::root()));
    assert!(ValuePath::root().is_root());
    assert_eq!(path(&["a", "b"]).len(), 2);
    assert!(path(&["a", "b"]).equals(&path(&["a", "b"])));
    assert!(!path(&["a", "b"]).equals(&path(&["a"])));
    assert!(!path(&["a", "b"]).equals(&path(&["a", "c"])));
}

#[test]
fn update_target_and_metadata_replace_wholesale() {
    let mut env = ExternalEnv::default();
    let details = Details {
        type_def: TypeDef { fallible: true, kind: Kind::bytes() },
        value: Some(Value::Integer(1)),
    };
    env.update_target(details.clone());
    assert_eq!(env.target(), &details);
    assert_eq!(*env.target_kind(), Kind::bytes());
    env.update_metadata(Kind::exact(Primitive::Array));
    assert_eq!(*env.metadata_kind(), Kind::exact(Primitive::Array));
    assert_eq!(env.target(), &details);
}

#[test]
fn target_mut_changes_the_target_in_place() {
    let mut env = ExternalEnv::default();
    env.target_mut().type_def.kind = Kind::integer();
    assert_eq!(*env.target_kind(), Kind::integer());
    *env.target_mut() = Details::from_kind(Kind::any());
    assert_eq!(*env.target_kind(), Kind::any());
}

#[test]
fn later_context_of_the_same_type_replaces_the_earlier() {
    let mut env = ExternalEnv::default();
    env.set_external_context(Region("north".to_string()));
    env.set_external_context(Region("south".to_string()));
    assert_eq!(env.get_external_context::<Region>(), Some(&Region("south".to_string())));
    assert_eq!(env.get_external_context::<Limit>(), None);
}

#[test]
fn contexts_of_different_types_live_side_by_side() {
    let mut env = ExternalEnv::default();
    env.set_external_context(Region("north".to_string()));
    env.set_external_context(Limit(5));
    assert_eq!(env.get_external_context::<Region>(), Some(&Region("north".to_string())));
    assert_eq!(env.get_external_context::<Limit>(), Some(&Limit(5)));
}

#[test]
fn context_does_not_touch_rules_or_kinds() {
    let mut env = ExternalEnv::new_with_kind(Kind::bytes(), Kind::integer());
    env.set_read_only_event_path(path(&["a"]), false);
    env.set_external_context(Limit(1));
    assert!(env.is_read_only_event_path(&path(&["a"])));
    assert_eq!(*env.target_kind(), Kind::bytes());
    assert_eq!(*env.metadata_kind(), Kind::integer());
}

#[test]
fn swap_context_installs_and_returns_whole_stores() {
    let mut env = ExternalEnv::default();
    env.set_external_context(Limit(1));

    let mut other = ContextStore::new();
    assert!(other.is_empty());
    assert_eq!(other.insert(Region("east".to_string())), None);
    assert_eq!(other.insert(Region("west".to_string())), Some(Region("east".to_string())));
    assert_eq!(other.len(), 1);

    let previous = env.swap_external_context(other);
    assert_eq!(previous.get::<Limit>(), Some(&Limit(1)));
    assert_eq!(previous.get::<Region>(), None);
    assert_eq!(env.get_external_context::<Region>(), Some(&Region("west".to_string())));
    assert_eq!(env.get_external_context::<Limit>(), None);

    let installed = env.swap_external_context(previous);
    assert_eq!(installed.get::<Region>(), Some(&Region("west".to_string())));
    assert_eq!(env.get_external_context::<Limit>(), Some(&Limit(1)));
}

#[test]
fn store_counts_types_not_values() {
    let mut store = ContextStore::new();
    assert_eq!(store.len(), 0);
    store.insert(Limit(1));
    store.insert(Limit(2));
    store.insert(Region("n".to_string()));
    assert_eq!(store.len(), 2);
    assert!(!store.is_empty());
    assert_eq!(store.get::<Limit>(), Some(&Limit(2)));
}

#[test]
fn setting_a_rule_twice_changes_nothing() {
    let mut once = ExternalEnv::default();
    once.set_read_only_event_path(path(&["a", "b"]), false);
    let mut twice = ExternalEnv::default();
    twice.set_read_only_event_path(path(&["a", "b"]), false);
    twice.set_read_only_event_path(path(&["a", "b"]), false);
    for query in [vec![], vec!["a"], vec!["a", "b"], vec!["a", "b", "c"], vec!["b"]] {
        assert_eq!(
            once.is_read_only_event_path(&path(&query)),
            twice.is_read_only_event_path(&path(&query))
        );
        assert_eq!(
            once.is_read_only_metadata_path(&path(&query)),
            twice.is_read_only_metadata_path(&path(&query))
        );
    }
}

#[test]
fn setting_context_leaves_the_store_inhabited() {
    let mut env = ExternalEnv::default();
    env.set_external_context(Limit(1));
    let held = env.swap_external_context(ContextStore::new());
    assert_eq!(held.len(), 1);
    assert!(!held.is_empty());
    let _ = env.swap_external_context(held);
    env.set_external_context(Limit(2));
    let held = env.swap_external_context(ContextStore::new());
    assert_eq!(held.len(), 1);
    assert_eq!(held.get::<Limit>(), Some(&Limit(2)));
    let _ = env.swap_external_context(held);
    env.set_external_context(Region("n".to_string()));
    let held = env.swap_external_context(ContextStore::new());
    assert_eq!(held.len(), 2);
}

#[test]
fn insert_returns_nothing_from_an_empty_store() {
    let mut store = ContextStore::new();
    assert_eq!(store.insert(Limit(1)), None);
    assert_eq!(store.len(), 1);
    assert_eq!(store.insert(Limit(2)), Some(Limit(1)));
    assert_eq!(store.len(), 1);
    assert_eq!(store.insert(Region("n".to_string())), None);
    assert_eq!(store.len(), 2);
}
