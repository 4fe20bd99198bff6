use sflyn::environment::Environment;
use sflyn::expressions::Expressions;
use sflyn::objects::{
    AnonymousFunction, Array, Boolean, Break, BuiltIn, Continue, Error, ForIn, ForOf, HashItem,
    HashMap, Hashable, Null, Number, Object, Objects, ReturnO, StringO,
};
use sflyn::statements::{Block, Return, Statement, Statements};
use sflyn::tokens::{Keywords, Token, Tokens};

fn number(value: f64) -> Objects {
    Number::new(value.to_bits(), format!("{}", value))
}

fn text(value: &str) -> Objects {
    StringO::new(value.to_string())
}

fn body() -> Block {
    let token = Token::new(Tokens::KEYWORD(Keywords::RETURN), "return".to_string(), 2, 3);
    let value = Expressions::IDENTIFIER {
        token: Token::new(Tokens::IDENTIFIER, "a".to_string(), 2, 10),
    };
    Block::with_statements(
        Token::new(Tokens::IDENTIFIER, "{".to_string(), 1, 1),
        vec![Statements::RETURN(Return { token, value: Some(value) })],
    )
}

fn function() -> Objects {
    AnonymousFunction::new(vec!["a".to_string(), "b".to_string()], body(), Environment::new())
}

fn one_of_each() -> Vec<Objects> {
    vec![
        function(),
        Array::new(vec![number(1.0), text("two")]),
        Boolean::new(true),
        Break::new(),
        BuiltIn::new("toString".to_string()),
        Continue::new(),
        Error::new("broken".to_string(), Token::new_empty()),
        ForIn::new("key".to_string(), HashMap::new(vec![])),
        ForOf::new("item".to_string(), Array::new(vec![])),
        HashMap::new(vec![HashItem::new("a".to_string(), number(1.0))]),
        Null::new(),
        number(1.5),
        ReturnO::new(number(2.0)),
        text("text"),
    ]
}

#[test]
fn every_variant_has_its_text() {
    let expected = [
        "function (a, b) {\nreturn a;\n}",
        "[1, two]",
        "true",
        "break",
        "[builtin toString]",
        "continue",
        "Error: broken",
        "for (key in {  })",
        "for (item of [])",
        "{ a: 1 }",
        "null",
        "1.5",
        "return 2",
        "text",
    ];
    let values = one_of_each();
    assert_eq!(values.len(), expected.len());
    for (value, expected) in values.iter().zip(expected) {
        assert_eq!(value.string(), expected);
    }
}

#[test]
fn the_text_is_never_empty_and_does_not_change() {
    for value in one_of_each() {
        let first = value.string();
        let second = value.string();
        assert!(!first.is_empty());
        assert_eq!(first, second);
        assert_eq!(value.clone().string(), first);
    }
}

#[test]
fn only_the_empty_string_has_an_empty_text() {
    assert_eq!(text("").string(), "");
    assert_eq!(ReturnO::new(text("")).string(), "return ");
    assert_eq!(Array::new(vec![text("")]).string(), "[]");
    assert_eq!(ReturnO::new(ReturnO::new(number(1.0))).string(), "return return 1");
}

#[test]
fn a_number_is_never_without_a_text() {
    let made = Number::new(1.0f64.to_bits(), String::new());
    assert!(made.get_number().is_none());
    assert_eq!(made.get_error().unwrap().message, "Invalid number");
    assert_eq!(made.string(), "Error: Invalid number");
    let token = Token::new(Tokens::IDENTIFIER, "n".to_string(), 2, 5);
    let made = Number::from_literal(1.0f64.to_bits(), String::new(), token.clone());
    assert!(made.get_error().unwrap().token.equals(&token));
    let made = Number::from_literal(2.0f64.to_bits(), "2".to_string(), token);
    assert_eq!(made.get_number().unwrap().get_value(), 2.0f64.to_bits());
    assert_eq!(made.get_number().unwrap().get_text(), "2");
    assert_eq!(made.string(), "2");
}

#[test]
fn each_getter_finds_its_own_variant_only() {
    let values = one_of_each();
    for (index, value) in values.iter().enumerate() {
        let found = [
            value.get_anonymous_function().is_some(),
            value.get_array().is_some(),
            value.get_boolean().is_some(),
            value.get_break().is_some(),
            value.get_builtin().is_some(),
            value.get_continue().is_some(),
            value.get_error().is_some(),
            value.get_for_in().is_some(),
            value.get_for_of().is_some(),
            value.get_hashmap().is_some(),
            value.get_null().is_some(),
            value.get_number().is_some(),
            value.get_return().is_some(),
            value.get_string().is_some(),
        ];
        for (other, hit) in found.iter().enumerate() {
            assert_eq!(*hit, other == index, "variant {} getter {}", index, other);
        }
    }
}

#[test]
fn getters_hand_out_the_contents() {
    assert_eq!(number(1.5).get_number().unwrap().get_value(), 1.5f64.to_bits());
    assert_eq!(number(1.5).get_number().unwrap().get_text(), "1.5");
    assert!(Boolean::new(true).get_boolean().unwrap().get_value());
    assert_eq!(text("s").get_string().unwrap().get_value(), "s");
    assert_eq!(BuiltIn::new("len".to_string()).get_builtin().unwrap().name, "len");
    let error = Error::new("m".to_string(), Token::new(Tokens::EOF, "t".to_string(), 3, 4));
    let error = error.get_error().unwrap();
    assert_eq!(error.message, "m");
    assert_eq!(error.token.line, 3);
    assert_eq!(error.token.position, 4);
    let array = Array::new(vec![number(1.0), number(2.0)]).get_array().unwrap();
    assert_eq!(array.data.len(), 2);
    let map = HashMap::new(vec![HashItem::new("k".to_string(), text("v"))]).get_hashmap().unwrap();
    assert_eq!(map.get_data().len(), 1);
    assert_eq!(map.get_data()[0].key, "k");
    let carrier = ReturnO::new(text("carried"));
    assert_eq!(carrier.string(), "return carried");
    let inner = carrier.get_return().unwrap().get_value();
    assert_eq!(inner.string(), "carried");
    let function = function().get_anonymous_function().unwrap();
    assert_eq!(function.parameters, vec!["a".to_string(), "b".to_string()]);
    assert_eq!(function.body.get_token().value, "{");
    assert_eq!(ForIn::new("k".to_string(), Null::new()).get_for_in().unwrap().key, "k");
    assert_eq!(ForOf::new("n".to_string(), Null::new()).get_for_of().unwrap().name, "n");
}

#[test]
fn expect_boolean_compares_with_the_value() {
    assert!(Boolean::new(true).expect_boolean(true));
    assert!(!Boolean::new(true).expect_boolean(false));
    assert!(Boolean::new(false).expect_boolean(false));
    assert!(!number(1.0).expect_boolean(true));
    assert!(!Null::new().expect_boolean(false));
}

#[test]
fn values_of_different_variants_are_never_equal() {
    let values = one_of_each();
    for (i, left) in values.iter().enumerate() {
        for (j, right) in values.iter().enumerate() {
            assert_eq!(left.equals(right), i == j, "{} and {}", i, j);
        }
    }
}

#[test]
fn equality_looks_at_the_contents() {
    assert!(text("a").equals(&text("a")));
    assert!(!text("a").equals(&text("b")));
    assert!(!Boolean::new(true).equals(&Boolean::new(false)));
    assert!(Array::new(vec![number(1.0)]).equals(&Array::new(vec![number(1.0)])));
    assert!(!Array::new(vec![number(1.0)]).equals(&Array::new(vec![number(2.0)])));
    assert!(!Array::new(vec![number(1.0)]).equals(&Array::new(vec![])));
    let left = HashMap::new(vec![HashItem::new("a".to_string(), number(1.0))]);
    let same = HashMap::new(vec![HashItem::new("a".to_string(), number(1.0))]);
    let renamed = HashMap::new(vec![HashItem::new("b".to_string(), number(1.0))]);
    assert!(left.equals(&same));
    assert!(!left.equals(&renamed));
    assert!(ReturnO::new(text("a")).equals(&ReturnO::new(text("a"))));
    assert!(!ReturnO::new(text("a")).equals(&text("a")));
    assert!(function().equals(&function()));
    let other = AnonymousFunction::new(vec!["a".to_string()], body(), Environment::new());
    assert!(!function().equals(&other));
    let mut scope = Environment::new();
    scope.store.set_object("x".to_string(), number(1.0));
    let closed = AnonymousFunction::new(vec!["a".to_string(), "b".to_string()], body(), scope);
    assert!(!function().equals(&closed));
}

#[test]
fn numbers_are_equal_as_numbers() {
    assert!(number(0.0).equals(&number(-0.0)));
    assert!(!number(f64::NAN).equals(&number(f64::NAN)));
    assert!(number(1.0).equals(&number(1.0)));
    assert!(!number(1.0).equals(&number(2.0)));
    assert!(!Array::new(vec![number(f64::NAN)]).equals(&Array::new(vec![number(f64::NAN)])));
}

#[test]
fn only_booleans_numbers_and_strings_have_a_key() {
    for (index, value) in one_of_each().iter().enumerate() {
        let hashable = index == 2 || index == 11 || index == 13;
        assert_eq!(value.get_hashkey().is_some(), hashable, "variant {}", index);
    }
}

#[test]
fn keys_are_derived_from_the_value() {
    assert_eq!(Boolean::new(true).get_hashkey().unwrap().value, 1.0f64.to_bits());
    assert_eq!(Boolean::new(false).get_hashkey().unwrap().value, 0);
    assert_eq!(number(2.5).get_hashkey().unwrap().value, 2.5f64.to_bits());
    assert_eq!(number(-0.0).get_hashkey().unwrap(), number(0.0).get_hashkey().unwrap());
    assert_eq!(text("").get_hashkey().unwrap().value, 0);
    assert_eq!(text("a").get_hashkey().unwrap().value, 97);
    assert_eq!(text("ab").get_hashkey().unwrap().value, 97 * 31 + 98);
    assert_eq!(text("abc").get_hashkey().unwrap().value, (97 * 31 + 98) * 31 + 99);
    assert_eq!(text("ab").get_hashkey().unwrap(), text("ab").get_hashkey().unwrap());
    assert_ne!(text("ab").get_hashkey().unwrap(), text("ba").get_hashkey().unwrap());
    let long = "z".repeat(40);
    let mut expected: u64 = 0;
    for byte in long.bytes() {
        expected = expected.wrapping_mul(31).wrapping_add(byte as u64);
    }
    assert_eq!(text(&long).get_hashkey().unwrap().value, expected);
}

#[test]
fn the_traits_agree_with_the_union() {
    let boolean = Boolean::new(true).get_boolean().unwrap();
    assert_eq!(Object::string(&boolean), "true");
    assert_eq!(Hashable::get_hashkey(&boolean).value, 1.0f64.to_bits());
    let number = number(3.0).get_number().unwrap();
    assert_eq!(Object::string(&number), "3");
    assert_eq!(Hashable::get_hashkey(&number).value, 3.0f64.to_bits());
    let string = text("s").get_string().unwrap();
    assert_eq!(Object::string(&string), "s");
    assert_eq!(Hashable::get_hashkey(&string).value, 115);
}

#[test]
fn a_returned_value_is_unwrapped_once() {
    let twice = ReturnO::new(ReturnO::new(number(1.0)));
    let once = twice.unwrap_return();
    assert!(once.get_return().is_some());
    assert!(once.unwrap_return().get_number().is_some());
    assert!(number(1.0).unwrap_return().get_number().is_some());
    assert!(Error::new("e".to_string(), Token::new_empty()).is_error());
    assert!(!number(1.0).is_error());
}

#[test]
fn the_operators_compare_as_equals_does() {
    assert!(text("a") == text("a"));
    assert!(text("a") != text("b"));
    assert!(number(1.0) != text("1"));
    assert!(number(0.0) == number(-0.0));
    assert!(number(f64::NAN) != number(f64::NAN));
    assert!(Array::new(vec![number(1.0), text("x")]) == Array::new(vec![number(1.0), text("x")]));
}
