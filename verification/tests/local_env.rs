use vrl_state::ident::Ident;
use vrl_state::kind::{Kind, Primitive};
use vrl_state::state::LocalEnv;
use vrl_state::type_def::{Details, TypeDef};
use vrl_state::value::Value;

fn details(kind: Kind) -> Details {
    Details::from_kind(kind)
}

fn constant(kind: Kind, value: Value) -> Details {
    Details { type_def: TypeDef::from_kind(kind), value: Some(value) }
}

#[test]
fn new_scope_binds_nothing() {
    let env = LocalEnv::new();
    assert!(env.variable(&Ident::new("x")).is_none());
    assert!(env.variable_idents().is_empty());
    let env = LocalEnv::default();
    assert!(env.variable_idents().is_empty());
}

#[test]
fn insert_then_lookup() {
    let mut env = LocalEnv::new();
    env.insert_variable(Ident::new("x"), details(Kind::bytes()));
    assert_eq!(env.variable(&Ident::new("x")), Some(&details(Kind::bytes())));
    assert!(env.variable(&Ident::new("y")).is_none());
}

#[test]
fn later_insert_overwrites() {
    let mut env = LocalEnv::new();
    env.insert_variable(Ident::new("x"), details(Kind::bytes()));
    env.insert_variable(Ident::new("x"), details(Kind::integer()));
    assert_eq!(env.variable(&Ident::new("x")), Some(&details(Kind::integer())));
    assert_eq!(env.variable_idents().len(), 1);
}

#[test]
fn remove_returns_previous_binding() {
    let mut env = LocalEnv::new();
    env.insert_variable(Ident::new("x"), details(Kind::bytes()));
    env.insert_variable(Ident::new("y"), details(Kind::integer()));
    assert_eq!(env.remove_variable(&Ident::new("x")), Some(details(Kind::bytes())));
    assert_eq!(env.remove_variable(&Ident::new("x")), None);
    assert!(env.variable(&Ident::new("x")).is_none());
    assert_eq!(env.variable(&Ident::new("y")), Some(&details(Kind::integer())));
}

#[test]
fn variable_idents_lists_each_once() {
    let mut env = LocalEnv::new();
    env.insert_variable(Ident::new("a"), details(Kind::bytes()));
    env.insert_variable(Ident::new("b"), details(Kind::integer()));
    env.insert_variable(Ident::new("a"), details(Kind::any()));
    let mut names: Vec<String> =
        env.variable_idents().iter().map(|ident| ident.as_str().to_string()).collect();
    names.sort();
    assert_eq!(names, vec!["a".to_string(), "b".to_string()]);
}

#[test]
fn merge_joins_shared_and_drops_the_rest() {
    let mut a = LocalEnv::new();
    a.insert_variable(Ident::new("x"), details(Kind::bytes()));
    a.insert_variable(Ident::new("only_a"), details(Kind::bytes()));
    let mut b = LocalEnv::new();
    b.insert_variable(Ident::new("x"), details(Kind::integer()));
    b.insert_variable(Ident::new("only_b"), details(Kind::integer()));

    let merged = a.merge(b);
    let x = merged.variable(&Ident::new("x")).unwrap();
    assert!(x.type_def.kind.contains(Primitive::Bytes));
    assert!(x.type_def.kind.contains(Primitive::Integer));
    assert!(!x.type_def.kind.contains(Primitive::Boolean));
    assert_eq!(x.type_def.kind, Kind::bytes().merge(Kind::integer()));
    assert!(merged.variable(&Ident::new("only_a")).is_none());
    assert!(merged.variable(&Ident::new("only_b")).is_none());
    assert_eq!(merged.variable_idents().len(), 1);
}

#[test]
fn merge_of_conditional_branches_joins_string_and_integer() {
    // if true { x = "a" } else { x = 1 }, with x bound in both branches.
    let mut then_branch = LocalEnv::new();
    then_branch
        .insert_variable(Ident::new("x"), constant(Kind::bytes(), Value::Bytes(b"a".to_vec())));
    let mut else_branch = LocalEnv::new();
    else_branch.insert_variable(Ident::new("x"), constant(Kind::integer(), Value::Integer(1)));

    let merged = then_branch.merge(else_branch);
    let expected = Kind { bytes: true, integer: true, ..Kind::never() };
    let x = merged.variable(&Ident::new("x")).unwrap();
    assert_eq!(x.type_def, TypeDef { fallible: false, kind: expected });
    assert_eq!(x.value, None);
}

#[test]
fn merge_keeps_a_constant_that_both_branches_share() {
    let mut a = LocalEnv::new();
    a.insert_variable(Ident::new("x"), constant(Kind::integer(), Value::Integer(7)));
    let mut b = LocalEnv::new();
    b.insert_variable(Ident::new("x"), constant(Kind::integer(), Value::Integer(7)));
    let merged = a.merge(b);
    assert_eq!(
        merged.variable(&Ident::new("x")),
        Some(&constant(Kind::integer(), Value::Integer(7)))
    );
}

#[test]
fn merge_is_fallible_if_either_branch_is() {
    let mut a = LocalEnv::new();
    a.insert_variable(
        Ident::new("x"),
        Details { type_def: TypeDef { fallible: true, kind: Kind::bytes() }, value: None },
    );
    let mut b = LocalEnv::new();
    b.insert_variable(Ident::new("x"), details(Kind::bytes()));
    let merged = b.merge(a);
    assert!(merged.variable(&Ident::new("x")).unwrap().type_def.is_fallible());
}

#[test]
fn merge_with_empty_scope_is_empty() {
    let mut a = LocalEnv::new();
    a.insert_variable(Ident::new("x"), details(Kind::bytes()));
    let merged = a.merge(LocalEnv::new());
    assert!(merged.variable_idents().is_empty());
}

#[test]
fn child_scope_overwrites_but_does_not_leak() {
    let mut parent = LocalEnv::new();
    parent.insert_variable(Ident::new("x"), details(Kind::bytes()));
    parent.insert_variable(Ident::new("kept"), details(Kind::any()));
    let mut child = LocalEnv::new();
    child.insert_variable(Ident::new("x"), details(Kind::integer()));
    child.insert_variable(Ident::new("y"), details(Kind::integer()));

    let applied = parent.apply_child_scope(child);
    assert_eq!(applied.variable(&Ident::new("x")), Some(&details(Kind::integer())));
    assert_eq!(applied.variable(&Ident::new("kept")), Some(&details(Kind::any())));
    assert!(applied.variable(&Ident::new("y")).is_none());
    assert_eq!(applied.variable_idents().len(), 2);
}

#[test]
fn child_scope_carries_constants_over() {
    let mut parent = LocalEnv::new();
    parent.insert_variable(Ident::new("x"), details(Kind::bytes()));
    let mut child = LocalEnv::new();
    child.insert_variable(Ident::new("x"), constant(Kind::integer(), Value::Integer(3)));
    let applied = parent.apply_child_scope(child);
    assert_eq!(
        applied.variable(&Ident::new("x")),
        Some(&constant(Kind::integer(), Value::Integer(3)))
    );
}

#[test]
fn details_merge_drops_differing_constants() {
    let a = constant(Kind::bytes(), Value::Bytes(b"a".to_vec()));
    let b = constant(Kind::bytes(), Value::Bytes(b"b".to_vec()));
    assert_eq!(a.merge(b), details(Kind::bytes()));
    let a = constant(Kind::bytes(), Value::Bytes(b"same".to_vec()));
    let b = constant(Kind::bytes(), Value::Bytes(b"same".to_vec()));
    assert_eq!(a.clone().merge(b), a);
    let a = constant(Kind::bytes(), Value::Null);
    assert_eq!(a.merge(details(Kind::bytes())), details(Kind::bytes()));
}

#[test]
fn kind_join_is_union() {
    let joined = Kind::bytes().merge(Kind::object());
    for shape in [
        Primitive::Bytes,
        Primitive::Integer,
        Primitive::Float,
        Primitive::Boolean,
        Primitive::Timestamp,
        Primitive::Regex,
        Primitive::Null,
        Primitive::Array,
        Primitive::Object,
    ] {
        let expected = shape == Primitive::Bytes || shape == Primitive::Object;
        assert_eq!(joined.contains(shape), expected);
        assert!(Kind::any().contains(shape));
        assert!(!Kind::never().contains(shape));
        assert!(Kind::exact(shape).contains(shape));
    }
    assert_eq!(Kind::any().merge(Kind::never()), Kind::any());
    assert_eq!(Kind::integer().merge(Kind::integer()), Kind::integer());
}

#[test]
fn value_equality_goes_by_content() {
    assert!(Value::Bytes(vec![1, 2, 3]).equals(&Value::Bytes(vec![1, 2, 3])));
    assert!(!Value::Bytes(vec![1, 2, 3]).equals(&Value::Bytes(vec![1, 2, 4])));
    assert!(!Value::Bytes(vec![1, 2]).equals(&Value::Bytes(vec![1, 2, 3])));
    assert!(Value::Null.equals(&Value::Null));
    assert!(!Value::Null.equals(&Value::Boolean(false)));
    assert!(Value::Integer(-4).equals(&Value::Integer(-4)));
    assert!(!Value::Integer(-4).equals(&Value::Integer(4)));
    assert!(Value::Boolean(true).equals(&Value::Boolean(true)));
    assert!(!Value::Boolean(true).equals(&Value::Boolean(false)));
}

#[test]
fn branches_start_from_a_copy_of_the_scope() {
    let mut scope = LocalEnv::new();
    scope.insert_variable(Ident::new("x"), details(Kind::any()));
    let mut then_branch = scope.clone();
    then_branch.insert_variable(Ident::new("x"), details(Kind::bytes()));
    let mut else_branch = scope.clone();
    else_branch.insert_variable(Ident::new("x"), details(Kind::integer()));
    else_branch.insert_variable(Ident::new("tmp"), details(Kind::integer()));
    let after = scope.apply_child_scope(then_branch.merge(else_branch));
    assert_eq!(
        after.variable(&Ident::new("x")).unwrap().type_def.kind,
        Kind::bytes().merge(Kind::integer())
    );
    assert!(after.variable(&Ident::new("tmp")).is_none());
}
