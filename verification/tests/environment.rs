use sflyn::environment::{Environment, Store};
use sflyn::objects::{Number, Objects, StringO};
use sflyn::tokens::{Token, Types};
use sflyn::types::TTypes;

fn number(value: f64) -> Objects {
    Number::new(value.to_bits(), format!("{}", value))
}

fn name(text: &str) -> String {
    text.to_string()
}

fn bits(value: Option<Objects>) -> u64 {
    match value {
        Some(Objects::NUMBER(number)) => number.get_value(),
        other => panic!("not a number: {:?}", other),
    }
}

#[test]
fn a_name_resolves_to_what_it_was_bound_to() {
    let mut store = Store::new();
    assert!(store.get_object(&name("x")).is_none());
    store.set_object(name("x"), number(1.0));
    store.set_object(name("y"), number(2.0));
    assert_eq!(bits(store.get_object(&name("x"))), 1.0f64.to_bits());
    assert_eq!(bits(store.get_object(&name("y"))), 2.0f64.to_bits());
    assert!(store.get_object(&name("z")).is_none());
}

#[test]
fn binding_a_name_again_overwrites_it() {
    let mut store = Store::new();
    store.set_object(name("x"), number(1.0));
    store.set_object(name("y"), number(2.0));
    store.set_object(name("x"), number(3.0));
    assert_eq!(bits(store.get_object(&name("x"))), 3.0f64.to_bits());
    assert_eq!(bits(store.get_object(&name("y"))), 2.0f64.to_bits());
    let mut twin = Store::new();
    twin.set_object(name("x"), number(3.0));
    twin.set_object(name("y"), number(2.0));
    assert!(store.equals(&twin));
}

#[test]
fn a_nested_scope_resolves_outward() {
    let mut outer = Store::new();
    outer.set_object(name("x"), number(1.0));
    let mut inner = Store::from_store(outer);
    assert_eq!(bits(inner.get_object(&name("x"))), 1.0f64.to_bits());
    inner.set_object(name("x"), number(2.0));
    assert_eq!(bits(inner.get_object(&name("x"))), 2.0f64.to_bits());
    let innermost = Store::from_store(inner);
    assert_eq!(bits(innermost.get_object(&name("x"))), 2.0f64.to_bits());
    assert!(innermost.get_object(&name("y")).is_none());
}

#[test]
fn a_nested_scope_never_changes_the_scope_it_was_opened_in() {
    let mut outer = Store::new();
    outer.set_object(name("x"), number(1.0));
    let mut inner = Store::from_store(outer.clone());
    inner.set_object(name("x"), number(2.0));
    inner.set_object(name("y"), number(3.0));
    assert_eq!(bits(outer.get_object(&name("x"))), 1.0f64.to_bits());
    assert!(outer.get_object(&name("y")).is_none());
}

#[test]
fn a_copy_is_equal_and_independent() {
    let mut environment = Environment::new();
    environment.store.set_object(name("x"), number(1.0));
    let mut copy = environment.clone();
    assert!(copy.equals(&environment));
    copy.store.set_object(name("x"), StringO::new(name("changed")));
    assert!(!copy.equals(&environment));
    assert_eq!(bits(environment.store.get_object(&name("x"))), 1.0f64.to_bits());
}

#[test]
fn stores_differ_by_what_is_behind_them() {
    let mut outer = Store::new();
    outer.set_object(name("x"), number(1.0));
    let nested = Store::from_store(outer);
    let flat = Store::new();
    assert!(!nested.equals(&flat));
    assert!(!flat.equals(&nested));
    assert!(Store::from_store(Store::new()).equals(&Store::from_store(Store::new())));
}

#[test]
fn types_are_bound_like_values() {
    let mut outer = Store::new();
    assert!(outer.get_type(&name("x")).is_none());
    outer.set_type(name("x"), TTypes::of_tag(Types::NUMBER, Token::new_empty()));
    let mut inner = Store::from_store(outer.clone());
    assert_eq!(inner.get_type(&name("x")).unwrap().get_type(), Types::NUMBER);
    inner.set_type(name("x"), TTypes::of_tag(Types::STRING, Token::new_empty()));
    assert_eq!(inner.get_type(&name("x")).unwrap().get_type(), Types::STRING);
    assert_eq!(inner.get_type(&name("x")).unwrap().value, "string");
    assert_eq!(outer.get_type(&name("x")).unwrap().get_type(), Types::NUMBER);
    assert!(inner.get_object(&name("x")).is_none());
}
