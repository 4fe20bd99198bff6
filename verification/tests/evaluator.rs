use sflyn::environment::Environment;
use sflyn::evaluator::{decide, evaluate, evaluate_expression, resume, Decision, Progress, Request};
use sflyn::expressions::{Expressions, Infix, InfixKind};
use sflyn::objects::{
    Array, Boolean, BuiltIn, Error, HashItem, HashMap, Null, Number, Objects, ReturnO, StringO,
};
use sflyn::tokens::{Signs, Token, Tokens};

fn native(sign: Signs, left: f64, right: f64) -> f64 {
    match sign {
        Signs::PLUS => left + right,
        Signs::MINUS => left - right,
        Signs::MULTIPLY => left * right,
        Signs::DIVIDE => left / right,
        Signs::EMPOWERMENT | Signs::CARER => left.powf(right),
        Signs::MODULE => left % right,
        _ => panic!("not an arithmetic operator"),
    }
}

fn number_object(value: f64) -> Objects {
    Number::new(value.to_bits(), format!("{}", value))
}

fn answer(request: Request) -> Objects {
    match request {
        Request::Arithmetic { sign, left, right } => {
            number_object(native(sign, f64::from_bits(left), f64::from_bits(right)))
        }
        Request::BuiltIn { name, token, arguments } => {
            if name == "toString" && arguments.len() == 1 {
                StringO::new(arguments[0].string())
            } else {
                Error::new(format!("unknown builtin: {}", name), token)
            }
        }
    }
}

fn drive(progress: Progress) -> (Objects, usize) {
    let mut progress = progress;
    let mut requests = 0;
    loop {
        match progress {
            Progress::Finished(value) => return (value, requests),
            Progress::Pending(request, suspended) => {
                requests += 1;
                progress = resume(suspended, answer(request));
            }
        }
    }
}

fn run(expression: &Expressions, environment: &mut Environment) -> Objects {
    drive(evaluate_expression(expression, environment)).0
}

fn sign_text(sign: Signs) -> &'static str {
    match sign {
        Signs::PLUS => "+",
        Signs::MINUS => "-",
        Signs::MULTIPLY => "*",
        Signs::DIVIDE => "/",
        Signs::EMPOWERMENT => "**",
        Signs::CARER => "^",
        Signs::MODULE => "%",
        Signs::LESSTHAN => "<",
        Signs::LESSOREQUALTHAN => "<=",
        Signs::GREATERTHAN => ">",
        Signs::GREATEROREQUALTHAN => ">=",
        Signs::EQUAL => "==",
        Signs::NOTEQUAL => "!=",
        Signs::OR => "||",
        Signs::AND => "&&",
        Signs::ASSIGN => "=",
        Signs::NOT => "!",
        Signs::ARROW => "->",
    }
}

fn number(value: f64) -> Expressions {
    Expressions::NUMBER {
        token: Token::new(Tokens::NUMBER, format!("{}", value), 1, 1),
        value: value.to_bits(),
        text: format!("{}", value),
    }
}

fn string(value: &str) -> Expressions {
    Expressions::STRING {
        token: Token::new(Tokens::STRING, value.to_string(), 1, 1),
        value: value.to_string(),
    }
}

fn boolean(value: bool) -> Expressions {
    Expressions::BOOLEAN {
        token: Token::new(Tokens::IDENTIFIER, format!("{}", value), 1, 1),
        value,
    }
}

fn null() -> Expressions {
    Expressions::NULL { token: Token::new(Tokens::IDENTIFIER, "null".to_string(), 1, 1) }
}

fn identifier(name: &str) -> Expressions {
    Expressions::IDENTIFIER { token: Token::new(Tokens::IDENTIFIER, name.to_string(), 1, 1) }
}

fn operator(sign: Signs, left: Expressions, right: Expressions) -> Infix {
    Infix::new(
        Token::new(Tokens::SIGN(sign), sign_text(sign).to_string(), 1, 3),
        InfixKind::INFIX,
        left,
        right,
    )
}

fn binary(sign: Signs, left: Expressions, right: Expressions) -> Expressions {
    Expressions::INFIX(operator(sign, left, right))
}

fn member(left: Expressions, right: Expressions) -> Expressions {
    Expressions::INFIX(Infix::new(
        Token::new(Tokens::SIGN(Signs::ARROW), ".".to_string(), 1, 2),
        InfixKind::METHOD,
        left,
        right,
    ))
}

fn bits_of(value: &Objects) -> u64 {
    match value {
        Objects::NUMBER(number) => number.get_value(),
        other => panic!("not a number: {:?}", other),
    }
}

fn text_of(value: &Objects) -> String {
    match value {
        Objects::STRING(string) => string.value.clone(),
        other => panic!("not a string: {:?}", other),
    }
}

fn truth_of(value: &Objects) -> bool {
    match value {
        Objects::BOOLEAN(boolean) => boolean.value,
        other => panic!("not a boolean: {:?}", other),
    }
}

fn message_of(value: &Objects) -> String {
    match value {
        Objects::ERROR(error) => error.message.clone(),
        other => panic!("not an error: {:?}", other),
    }
}

#[test]
fn arithmetic_matches_native_doubles() {
    let values = [0.0, -0.0, 1.0, -1.0, 2.5, 3.0, 7.0, -7.5, 1e308, 1e-308, f64::INFINITY];
    let signs = [
        Signs::PLUS,
        Signs::MINUS,
        Signs::MULTIPLY,
        Signs::DIVIDE,
        Signs::EMPOWERMENT,
        Signs::CARER,
        Signs::MODULE,
    ];
    for a in values {
        for b in values {
            for sign in signs {
                let mut environment = Environment::new();
                let result = run(&binary(sign, number(a), number(b)), &mut environment);
                assert_eq!(bits_of(&result), native(sign, a, b).to_bits(), "{} {:?} {}", a, sign, b);
            }
        }
    }
}

#[test]
fn division_by_zero_is_infinity_not_an_error() {
    let mut environment = Environment::new();
    let result = run(&binary(Signs::DIVIDE, number(3.0), number(0.0)), &mut environment);
    assert_eq!(bits_of(&result), f64::INFINITY.to_bits());
    assert_eq!(result.string(), "inf");
}

#[test]
fn modulo_by_zero_is_not_a_number() {
    let mut environment = Environment::new();
    let result = run(&binary(Signs::MODULE, number(3.0), number(0.0)), &mut environment);
    assert!(f64::from_bits(bits_of(&result)).is_nan());
}

#[test]
fn exponentiation_uses_real_exponents() {
    let mut environment = Environment::new();
    let result = run(&binary(Signs::CARER, number(2.0), number(0.5)), &mut environment);
    assert_eq!(bits_of(&result), 2.0f64.powf(0.5).to_bits());
    let result = run(&binary(Signs::EMPOWERMENT, number(2.0), number(10.0)), &mut environment);
    assert_eq!(bits_of(&result), 1024.0f64.to_bits());
}

#[test]
fn comparisons_of_numbers_are_booleans() {
    let mut environment = Environment::new();
    let cases = [
        (Signs::LESSTHAN, 1.0, 2.0, true),
        (Signs::LESSTHAN, 2.0, 2.0, false),
        (Signs::LESSOREQUALTHAN, 2.0, 2.0, true),
        (Signs::LESSOREQUALTHAN, 3.0, 2.0, false),
        (Signs::GREATERTHAN, 3.0, 2.0, true),
        (Signs::GREATERTHAN, -3.0, 2.0, false),
        (Signs::GREATEROREQUALTHAN, 2.0, 2.0, true),
        (Signs::GREATEROREQUALTHAN, 1.0, 2.0, false),
        (Signs::EQUAL, 0.0, -0.0, true),
        (Signs::EQUAL, 1.0, 2.0, false),
        (Signs::NOTEQUAL, 1.0, 2.0, true),
        (Signs::NOTEQUAL, 2.0, 2.0, false),
        (Signs::EQUAL, f64::NAN, f64::NAN, false),
        (Signs::NOTEQUAL, f64::NAN, f64::NAN, true),
        (Signs::LESSOREQUALTHAN, f64::NAN, 1.0, false),
        (Signs::GREATEROREQUALTHAN, 1.0, f64::NAN, false),
    ];
    for (sign, a, b, expected) in cases {
        let (result, requests) =
            drive(evaluate_expression(&binary(sign, number(a), number(b)), &mut environment));
        assert_eq!(truth_of(&result), expected, "{} {:?} {}", a, sign, b);
        assert_eq!(requests, 0);
    }
}

#[test]
fn string_plus_number_concatenates() {
    let mut environment = Environment::new();
    let result = run(&binary(Signs::PLUS, string("a"), number(1.0)), &mut environment);
    assert_eq!(text_of(&result), "a1");
}

#[test]
fn number_plus_string_concatenates() {
    let mut environment = Environment::new();
    let result = run(&binary(Signs::PLUS, number(1.0), string("a")), &mut environment);
    assert_eq!(text_of(&result), "1a");
}

#[test]
fn string_plus_boolean_concatenates() {
    let mut environment = Environment::new();
    let result = run(&binary(Signs::PLUS, string("is "), boolean(true)), &mut environment);
    assert_eq!(text_of(&result), "is true");
}

#[test]
fn number_equals_string_is_false() {
    let mut environment = Environment::new();
    let result = run(&binary(Signs::EQUAL, number(1.0), string("1")), &mut environment);
    assert!(!truth_of(&result));
    let result = run(&binary(Signs::NOTEQUAL, number(1.0), string("1")), &mut environment);
    assert!(truth_of(&result));
}

#[test]
fn equal_strings_are_equal() {
    let mut environment = Environment::new();
    let result = run(&binary(Signs::EQUAL, string("ab"), string("ab")), &mut environment);
    assert!(truth_of(&result));
    let result = run(&binary(Signs::EQUAL, null(), null()), &mut environment);
    assert!(truth_of(&result));
    let result = run(&binary(Signs::NOTEQUAL, boolean(true), boolean(false)), &mut environment);
    assert!(truth_of(&result));
}

#[test]
fn or_gives_the_right_value_for_a_falsy_left_one() {
    let mut environment = Environment::new();
    let result = run(&binary(Signs::OR, boolean(false), string("x")), &mut environment);
    assert_eq!(text_of(&result), "x");
    let result = run(&binary(Signs::OR, string(""), number(5.0)), &mut environment);
    assert_eq!(bits_of(&result), 5.0f64.to_bits());
    let result = run(&binary(Signs::OR, null(), boolean(true)), &mut environment);
    assert!(truth_of(&result));
}

#[test]
fn or_gives_the_left_value_for_a_truthy_left_one() {
    let mut environment = Environment::new();
    let result = run(&binary(Signs::OR, string("left"), string("right")), &mut environment);
    assert_eq!(text_of(&result), "left");
    let result = run(&binary(Signs::OR, boolean(true), null()), &mut environment);
    assert!(truth_of(&result));
}

#[test]
fn or_evaluates_the_right_operand_of_a_truthy_left_one() {
    let mut environment = Environment::new();
    let expression =
        binary(Signs::OR, boolean(true), binary(Signs::PLUS, number(1.0), number(2.0)));
    let (result, requests) = drive(evaluate_expression(&expression, &mut environment));
    assert!(truth_of(&result));
    assert_eq!(requests, 1);
    let failing = binary(Signs::OR, boolean(true), identifier("missing"));
    let result = run(&failing, &mut environment);
    assert_eq!(message_of(&result), "Identifier not found: missing");
}

#[test]
fn or_of_two_numbers_gives_the_left_one() {
    let mut environment = Environment::new();
    let expression = binary(Signs::OR, number(1.0), number(2.0));
    let (result, requests) = drive(evaluate_expression(&expression, &mut environment));
    assert_eq!(bits_of(&result), 1.0f64.to_bits());
    assert_eq!(requests, 0);
    let result = run(&binary(Signs::OR, number(0.0), number(2.0)), &mut environment);
    assert_eq!(bits_of(&result), 0.0f64.to_bits());
    let result = run(&binary(Signs::OR, number(f64::NAN), string("x")), &mut environment);
    assert!(f64::from_bits(bits_of(&result)).is_nan());
}

#[test]
fn and_of_two_numbers_is_not_defined() {
    let mut environment = Environment::new();
    let result = run(&binary(Signs::AND, number(1.0), number(2.0)), &mut environment);
    assert_eq!(message_of(&result), "Unknown infix: (1 && 2)");
}

#[test]
fn a_number_literal_has_the_text_of_its_value() {
    let mut environment = Environment::new();
    let literal = Expressions::NUMBER {
        token: Token::new(Tokens::NUMBER, "1.0".to_string(), 1, 1),
        value: 1.0f64.to_bits(),
        text: "1".to_string(),
    };
    let result = run(&binary(Signs::PLUS, literal, string("a")), &mut environment);
    assert_eq!(text_of(&result), "1a");
}

#[test]
fn a_number_literal_without_a_text_is_an_error() {
    let mut environment = Environment::new();
    let literal = Expressions::NUMBER {
        token: Token::new(Tokens::NUMBER, "1".to_string(), 4, 2),
        value: 1.0f64.to_bits(),
        text: String::new(),
    };
    match run(&literal, &mut environment) {
        Objects::ERROR(error) => {
            assert_eq!(error.message, "Invalid number");
            assert_eq!(error.token.line, 4);
            assert_eq!(error.token.position, 2);
        }
        other => panic!("not an error: {:?}", other),
    }
}

#[test]
fn and_of_booleans_is_their_conjunction() {
    let mut environment = Environment::new();
    let result = run(&binary(Signs::AND, boolean(true), boolean(false)), &mut environment);
    assert!(!truth_of(&result));
    let result = run(&binary(Signs::AND, boolean(true), boolean(true)), &mut environment);
    assert!(truth_of(&result));
}

#[test]
fn and_of_a_number_is_an_unknown_infix() {
    let mut environment = Environment::new();
    let expression = binary(Signs::AND, number(1.0), boolean(true));
    let result = run(&expression, &mut environment);
    match &result {
        Objects::ERROR(error) => {
            assert_eq!(error.message, "Unknown infix: (1 && true)");
            assert!(error.token.equals(&expression.token()));
        }
        other => panic!("not an error: {:?}", other),
    }
}

#[test]
fn an_operator_without_a_rule_is_an_unknown_infix() {
    let mut environment = Environment::new();
    let result = run(&binary(Signs::MINUS, string("a"), number(1.0)), &mut environment);
    assert_eq!(message_of(&result), "Unknown infix: (\"a\" - 1)");
    let result = run(&binary(Signs::ASSIGN, number(1.0), number(1.0)), &mut environment);
    assert_eq!(message_of(&result), "Unknown infix: (1 = 1)");
    let alias = Expressions::INFIX(Infix::new(
        Token::new(Tokens::IDENTIFIER, "as".to_string(), 1, 3),
        InfixKind::ALIAS,
        number(1.0),
        number(2.0),
    ));
    let result = run(&alias, &mut environment);
    assert_eq!(message_of(&result), "Unknown infix: (1 as 2)");
    let unsigned = Expressions::INFIX(Infix::new(
        Token::new(Tokens::IDENTIFIER, "plus".to_string(), 1, 3),
        InfixKind::INFIX,
        number(1.0),
        number(2.0),
    ));
    let result = run(&unsigned, &mut environment);
    assert_eq!(message_of(&result), "Unknown infix: (1 plus 2)");
}

fn number_table(environment: &mut Environment) {
    let entries = vec![
        HashItem::new("someKey".to_string(), StringO::new("from the table".to_string())),
        HashItem::new("toString".to_string(), BuiltIn::new("toString".to_string())),
    ];
    environment.store.set_object("Number".to_string(), HashMap::new(entries));
}

#[test]
fn a_member_of_a_number_resolves_in_the_number_table() {
    let mut environment = Environment::new();
    number_table(&mut environment);
    environment.store.set_object("someKey".to_string(), StringO::new("from the scope".to_string()));
    let result = run(&member(number(5.0), identifier("someKey")), &mut environment);
    assert_eq!(text_of(&result), "from the table");
    let result = run(&identifier("someKey"), &mut environment);
    assert_eq!(text_of(&result), "from the scope");
}

#[test]
fn a_member_of_a_boolean_resolves_in_the_boolean_table() {
    let mut environment = Environment::new();
    number_table(&mut environment);
    let entries = vec![HashItem::new("negated".to_string(), Boolean::new(false))];
    environment.store.set_object("Boolean".to_string(), HashMap::new(entries));
    let result = run(&member(boolean(true), identifier("negated")), &mut environment);
    assert!(!truth_of(&result));
    let result = run(&member(boolean(true), identifier("someKey")), &mut environment);
    assert_eq!(message_of(&result), "Identifier not found: someKey");
}

#[test]
fn a_member_of_an_array_resolves_in_the_array_table() {
    let mut environment = Environment::new();
    let entries = vec![HashItem::new("size".to_string(), number_object(2.0))];
    environment.store.set_object("Array".to_string(), HashMap::new(entries));
    environment
        .store
        .set_object("list".to_string(), Array::new(vec![number_object(1.0), number_object(2.0)]));
    let result = run(&member(identifier("list"), identifier("size")), &mut environment);
    assert_eq!(bits_of(&result), 2.0f64.to_bits());
}

#[test]
fn a_table_that_is_no_hash_map_gives_no_members() {
    let mut environment = Environment::new();
    environment.store.set_object("Number".to_string(), StringO::new("no table".to_string()));
    let result = run(&member(number(5.0), identifier("someKey")), &mut environment);
    assert_eq!(message_of(&result), "Identifier not found: someKey");
}

#[test]
fn a_member_of_a_hash_map_is_its_entry() {
    let mut environment = Environment::new();
    let entries = vec![
        HashItem::new("name".to_string(), StringO::new("first".to_string())),
        HashItem::new("age".to_string(), number_object(3.0)),
        HashItem::new("name".to_string(), StringO::new("second".to_string())),
    ];
    environment.store.set_object("person".to_string(), HashMap::new(entries));
    let result = run(&member(identifier("person"), identifier("age")), &mut environment);
    assert_eq!(bits_of(&result), 3.0f64.to_bits());
    let result = run(&member(identifier("person"), identifier("name")), &mut environment);
    assert_eq!(text_of(&result), "second");
}

#[test]
fn members_do_not_leak_into_the_caller() {
    let mut environment = Environment::new();
    let entries = vec![HashItem::new("hidden".to_string(), number_object(1.0))];
    environment.store.set_object("box".to_string(), HashMap::new(entries));
    let result = run(&member(identifier("box"), identifier("hidden")), &mut environment);
    assert_eq!(bits_of(&result), 1.0f64.to_bits());
    assert!(environment.store.get_object(&"hidden".to_string()).is_none());
    let result = run(&identifier("hidden"), &mut environment);
    assert_eq!(message_of(&result), "Identifier not found: hidden");
}

#[test]
fn to_string_of_a_number_is_the_builtin() {
    let mut environment = Environment::new();
    number_table(&mut environment);
    let expression = member(number(5.0), identifier("toString"));
    let (result, requests) = drive(evaluate_expression(&expression, &mut environment));
    assert_eq!(requests, 1);
    let direct = answer(Request::BuiltIn {
        name: "toString".to_string(),
        token: expression.token(),
        arguments: vec![number_object(5.0)],
    });
    assert!(result.equals(&direct));
    assert_eq!(text_of(&result), "5");
}

#[test]
fn to_string_is_asked_with_the_left_value() {
    let mut environment = Environment::new();
    number_table(&mut environment);
    let expression = member(number(2.5), identifier("toString"));
    match evaluate_expression(&expression, &mut environment) {
        Progress::Pending(Request::BuiltIn { name, token, arguments }, _) => {
            assert_eq!(name, "toString");
            assert!(token.equals(&expression.token()));
            assert_eq!(arguments.len(), 1);
            assert_eq!(bits_of(&arguments[0]), 2.5f64.to_bits());
        }
        other => panic!("no request for the builtin: {:?}", other),
    }
}

#[test]
fn to_string_of_a_string_is_an_ordinary_member() {
    let mut environment = Environment::new();
    environment.store.set_object("toString".to_string(), number_object(7.0));
    let expression = member(string("text"), identifier("toString"));
    let (result, requests) = drive(evaluate_expression(&expression, &mut environment));
    assert_eq!(requests, 0);
    assert_eq!(bits_of(&result), 7.0f64.to_bits());
}

#[test]
fn a_left_error_ends_the_evaluation() {
    let mut environment = Environment::new();
    let expression = binary(
        Signs::PLUS,
        identifier("missing"),
        binary(Signs::PLUS, number(1.0), number(2.0)),
    );
    let (result, requests) = drive(evaluate_expression(&expression, &mut environment));
    assert_eq!(message_of(&result), "Identifier not found: missing");
    assert_eq!(requests, 0);
}

#[test]
fn a_right_error_ends_the_evaluation() {
    let mut environment = Environment::new();
    let expression = binary(Signs::PLUS, number(1.0), identifier("missing"));
    let result = run(&expression, &mut environment);
    assert_eq!(message_of(&result), "Identifier not found: missing");
}

#[test]
fn an_error_answer_of_the_host_ends_the_evaluation() {
    let mut environment = Environment::new();
    let expression = binary(
        Signs::MULTIPLY,
        binary(Signs::PLUS, number(1.0), number(2.0)),
        binary(Signs::PLUS, number(3.0), number(4.0)),
    );
    match evaluate_expression(&expression, &mut environment) {
        Progress::Pending(_, suspended) => {
            let failure = Error::new("host failure".to_string(), Token::new_empty());
            match resume(suspended, failure) {
                Progress::Finished(value) => assert_eq!(message_of(&value), "host failure"),
                other => panic!("went on after an error: {:?}", other),
            }
        }
        other => panic!("no request: {:?}", other),
    }
}

#[test]
fn a_returned_value_counts_as_what_it_carries() {
    let mut environment = Environment::new();
    environment.store.set_object("result".to_string(), ReturnO::new(number_object(4.0)));
    let result = run(&binary(Signs::PLUS, identifier("result"), number(1.0)), &mut environment);
    assert_eq!(bits_of(&result), 5.0f64.to_bits());
    let result = run(&binary(Signs::PLUS, number(1.0), identifier("result")), &mut environment);
    assert_eq!(bits_of(&result), 5.0f64.to_bits());
}

#[test]
fn nested_operators_are_evaluated_inside_out() {
    let mut environment = Environment::new();
    let expression = binary(
        Signs::MULTIPLY,
        binary(Signs::PLUS, number(1.0), number(2.0)),
        binary(Signs::MINUS, number(10.0), binary(Signs::DIVIDE, number(8.0), number(2.0))),
    );
    let (result, requests) = drive(evaluate_expression(&expression, &mut environment));
    assert_eq!(bits_of(&result), 18.0f64.to_bits());
    assert_eq!(requests, 4);
    assert_eq!(result.string(), "18");
}

#[test]
fn requests_come_left_to_right() {
    let mut environment = Environment::new();
    let expression = binary(
        Signs::MINUS,
        binary(Signs::PLUS, number(1.0), number(2.0)),
        binary(Signs::MULTIPLY, number(3.0), number(4.0)),
    );
    let mut seen = Vec::new();
    let mut progress = evaluate_expression(&expression, &mut environment);
    let result = loop {
        match progress {
            Progress::Finished(value) => break value,
            Progress::Pending(request, suspended) => {
                if let Request::Arithmetic { sign, .. } = &request {
                    seen.push(*sign);
                }
                progress = resume(suspended, answer(request));
            }
        }
    };
    assert_eq!(seen, vec![Signs::PLUS, Signs::MULTIPLY, Signs::MINUS]);
    assert_eq!(bits_of(&result), (-9.0f64).to_bits());
}

#[test]
fn evaluate_takes_the_binary_node() {
    let mut environment = Environment::new();
    let infix = operator(Signs::PLUS, string("a"), string("b"));
    let (result, requests) = drive(evaluate(&infix, &mut environment));
    assert_eq!(text_of(&result), "ab");
    assert_eq!(requests, 0);
}

#[test]
fn literals_evaluate_to_their_values() {
    let mut environment = Environment::new();
    assert_eq!(bits_of(&run(&number(1.5), &mut environment)), 1.5f64.to_bits());
    assert_eq!(run(&number(1.5), &mut environment).string(), "1.5");
    assert_eq!(text_of(&run(&string("s"), &mut environment)), "s");
    assert!(truth_of(&run(&boolean(true), &mut environment)));
    assert!(run(&null(), &mut environment).get_null().is_some());
}

#[test]
fn an_identifier_resolves_in_the_environment() {
    let mut environment = Environment::new();
    environment.store.set_object("x".to_string(), number_object(2.0));
    assert_eq!(bits_of(&run(&identifier("x"), &mut environment)), 2.0f64.to_bits());
    let result = run(&identifier("y"), &mut environment);
    assert_eq!(message_of(&result), "Identifier not found: y");
}

#[test]
fn decide_asks_the_host_for_arithmetic() {
    let infix = operator(Signs::PLUS, number(1.0), number(2.0));
    match decide(&infix, number_object(1.0), number_object(2.0)) {
        Decision::Ask(Request::Arithmetic { sign, left, right }) => {
            assert_eq!(sign, Signs::PLUS);
            assert_eq!(left, 1.0f64.to_bits());
            assert_eq!(right, 2.0f64.to_bits());
        }
        other => panic!("no request: {:?}", other),
    }
}

#[test]
fn decide_settles_what_needs_no_host() {
    let infix = operator(Signs::OR, null(), null());
    match decide(&infix, Null::new(), StringO::new("kept".to_string())) {
        Decision::Value(value) => assert_eq!(text_of(&value), "kept"),
        other => panic!("a request: {:?}", other),
    }
}

fn chain(nodes: usize) -> Expressions {
    let mut expression = string("a");
    for _ in 0..nodes {
        expression = binary(Signs::PLUS, expression, string("a"));
    }
    expression
}

#[test]
fn binary_nodes_nest_as_deep_as_the_limit() {
    let mut environment = Environment::new();
    let expression = chain(sflyn::evaluator::DEPTH_LIMIT);
    let result = run(&expression, &mut environment);
    assert_eq!(text_of(&result), "a".repeat(sflyn::evaluator::DEPTH_LIMIT + 1));
}

#[test]
fn a_binary_node_beyond_the_limit_is_an_error() {
    let mut environment = Environment::new();
    let expression = chain(sflyn::evaluator::DEPTH_LIMIT + 1);
    let (result, requests) = drive(evaluate_expression(&expression, &mut environment));
    assert_eq!(message_of(&result), "Maximum depth exceeded");
    assert_eq!(requests, 0);
}

#[test]
fn the_limit_counts_the_operands_of_the_node_that_evaluate_takes() {
    let mut environment = Environment::new();
    let inner = chain(sflyn::evaluator::DEPTH_LIMIT);
    let infix = operator(Signs::PLUS, inner, string("a"));
    let (result, _) = drive(evaluate(&infix, &mut environment));
    assert_eq!(text_of(&result), "a".repeat(sflyn::evaluator::DEPTH_LIMIT + 2));
    let inner = chain(sflyn::evaluator::DEPTH_LIMIT + 1);
    let infix = operator(Signs::PLUS, inner, string("a"));
    let (result, _) = drive(evaluate(&infix, &mut environment));
    assert_eq!(message_of(&result), "Maximum depth exceeded");
}
