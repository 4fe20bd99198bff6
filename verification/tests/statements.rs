use sflyn::expressions::{Expressions, Infix, InfixKind};
use sflyn::statements::{
    Block, Export, ExpressionStatement, Function, IfElse, Import, Interface, Parameter, Return,
    Statement, Statements, Variable,
};
use sflyn::tokens::{Keywords, Signs, Token, Tokens, Types};

fn token(kind: Tokens, text: &str, line: usize, position: usize) -> Token {
    Token::new(kind, text.to_string(), line, position)
}

fn identifier(name: &str) -> Expressions {
    Expressions::IDENTIFIER { token: token(Tokens::IDENTIFIER, name, 1, 1) }
}

fn number(text: &str, value: f64) -> Expressions {
    Expressions::NUMBER {
        token: token(Tokens::NUMBER, text, 1, 1),
        value: value.to_bits(),
        text: format!("{}", value),
    }
}

fn sum() -> Expressions {
    Expressions::INFIX(Infix::new(
        token(Tokens::SIGN(Signs::PLUS), "+", 1, 3),
        InfixKind::INFIX,
        identifier("a"),
        number("1", 1.0),
    ))
}

fn block() -> Block {
    Block::with_statements(
        token(Tokens::IDENTIFIER, "{", 1, 1),
        vec![
            Statements::VARIABLE(Variable {
                token: token(Tokens::KEYWORD(Keywords::LET), "let", 2, 1),
                name: "b".to_string(),
                data_type: Some(Types::NUMBER),
                value: Some(sum()),
            }),
            Statements::RETURN(Return {
                token: token(Tokens::KEYWORD(Keywords::RETURN), "return", 3, 1),
                value: Some(identifier("b")),
            }),
        ],
    )
}

fn one_of_each() -> Vec<Statements> {
    vec![
        Statements::BLOCK(block()),
        Statements::EXPORT(Export {
            token: token(Tokens::KEYWORD(Keywords::EXPORT), "export", 1, 1),
            value: Some(Box::new(Statements::VARIABLE(Variable {
                token: token(Tokens::KEYWORD(Keywords::CONST), "const", 1, 8),
                name: "c".to_string(),
                data_type: None,
                value: Some(number("2", 2.0)),
            }))),
        }),
        Statements::EXPRESSION(ExpressionStatement {
            token: token(Tokens::IDENTIFIER, "a", 4, 1),
            expression: sum(),
        }),
        Statements::FUNCTION(Function {
            token: token(Tokens::KEYWORD(Keywords::FUNCTION), "function", 5, 1),
            name: "add".to_string(),
            parameters: vec![
                Parameter::new("a".to_string(), Types::NUMBER),
                Parameter::new("s".to_string(), Types::STRING),
            ],
            data_type: Types::NUMBER,
            body: block(),
        }),
        Statements::IFELSE(IfElse {
            token: token(Tokens::KEYWORD(Keywords::IF), "if", 6, 1),
            condition: identifier("ready"),
            consequence: Block::from_token(token(Tokens::IDENTIFIER, "{", 6, 12)),
            alternative: Some(block()),
        }),
        Statements::IMPORT(Import {
            token: token(Tokens::KEYWORD(Keywords::IMPORT), "import", 7, 1),
            path: "./module".to_string(),
        }),
        Statements::INTERFACE(Interface {
            token: token(Tokens::KEYWORD(Keywords::INTERFACE), "interface", 8, 1),
            name: "Point".to_string(),
            members: vec![
                Parameter::new("x".to_string(), Types::NUMBER),
                Parameter::new("y".to_string(), Types::NUMBER),
            ],
        }),
        Statements::RETURN(Return {
            token: token(Tokens::KEYWORD(Keywords::RETURN), "return", 9, 1),
            value: None,
        }),
        Statements::VARIABLE(Variable {
            token: token(Tokens::KEYWORD(Keywords::LET), "let", 10, 1),
            name: "v".to_string(),
            data_type: Some(Types::BOOLEAN),
            value: None,
        }),
    ]
}

#[test]
fn each_statement_getter_finds_its_own_kind_only() {
    for (index, statement) in one_of_each().iter().enumerate() {
        let found = [
            statement.get_block().is_some(),
            statement.get_export().is_some(),
            statement.get_expression().is_some(),
            statement.get_function().is_some(),
            statement.get_if_else().is_some(),
            statement.get_import().is_some(),
            statement.get_interface().is_some(),
            statement.get_return().is_some(),
            statement.get_variable().is_some(),
        ];
        for (other, hit) in found.iter().enumerate() {
            assert_eq!(*hit, other == index, "kind {} getter {}", index, other);
        }
    }
}

#[test]
fn statement_getters_hand_out_equal_copies() {
    let statements = one_of_each();
    assert!(statements[0].get_block().unwrap().equals(&block()));
    assert_eq!(statements[3].get_function().unwrap().name, "add");
    assert_eq!(statements[5].get_import().unwrap().path, "./module");
    assert_eq!(statements[6].get_interface().unwrap().members.len(), 2);
    assert!(statements[7].get_return().unwrap().get_value().is_none());
    assert_eq!(statements[8].get_variable().unwrap().data_type, Some(Types::BOOLEAN));
    for statement in &statements {
        assert!(statement.clone().equals(statement));
    }
    for (i, left) in statements.iter().enumerate() {
        for (j, right) in statements.iter().enumerate() {
            assert_eq!(left.equals(right), i == j);
        }
    }
}

#[test]
fn the_token_of_a_statement_is_its_own() {
    let expected = [
        ("{", 1, 1),
        ("export", 1, 1),
        ("a", 4, 1),
        ("function", 5, 1),
        ("if", 6, 1),
        ("import", 7, 1),
        ("interface", 8, 1),
        ("return", 9, 1),
        ("let", 10, 1),
    ];
    for (statement, (text, line, position)) in one_of_each().iter().zip(expected) {
        let token = statement.token();
        assert_eq!(token.value, text);
        assert_eq!(token.line, line);
        assert_eq!(token.position, position);
    }
}

#[test]
fn every_statement_has_its_text() {
    let body = "{\nlet b: number = (a + 1);\nreturn b;\n}";
    let expected = [
        body.to_string(),
        "export const c = 2;".to_string(),
        "(a + 1);".to_string(),
        format!("function add(a: number, s: string): number {}", body),
        format!("if (ready) {{\n\n}} else {}", body),
        "import \"./module\";".to_string(),
        "interface Point { x: number; y: number }".to_string(),
        "return;".to_string(),
        "let v: boolean;".to_string(),
    ];
    for (statement, expected) in one_of_each().iter().zip(expected) {
        assert_eq!(statement.string(), expected);
    }
}

#[test]
fn a_new_statement_holds_nothing() {
    assert_eq!(Block::new().statements.len(), 0);
    assert_eq!(Block::new().get_token().token, Tokens::EOF);
    assert_eq!(Block::new().string(), "{\n\n}");
    assert!(Export::new().value.is_none());
    assert_eq!(Export::new().string(), "export");
    assert_eq!(ExpressionStatement::new().string(), "null;");
    assert_eq!(Function::new().string(), "function (): void {\n\n}");
    assert_eq!(IfElse::new().string(), "if (null) {\n\n}");
    assert_eq!(Import::new().string(), "import \"\";");
    assert_eq!(Interface::new().string(), "interface  {  }");
    assert_eq!(Return::new().string(), "return;");
    assert!(Variable::new().value.is_none());
}

#[test]
fn a_statement_from_a_token_keeps_the_token() {
    let start = token(Tokens::KEYWORD(Keywords::RETURN), "return", 4, 2);
    let statement = Return::from_token(start.clone());
    assert!(statement.get_token().equals(&start));
    assert!(statement.value.is_none());
    let start = token(Tokens::KEYWORD(Keywords::CONST), "const", 1, 1);
    let statement = Variable::from_token(start.clone());
    assert!(statement.get_token().equals(&start));
    assert_eq!(statement.string(), "const ;");
    let start = token(Tokens::IDENTIFIER, "f", 7, 7);
    assert!(Function::from_token(start.clone()).body.get_token().equals(&start));
}

#[test]
fn expressions_have_their_text_and_token() {
    assert_eq!(sum().string(), "(a + 1)");
    assert_eq!(sum().token().value, "+");
    assert!(sum().equals(&sum().clone()));
    assert!(!sum().equals(&identifier("a")));
    let access = Expressions::INFIX(Infix::new(
        token(Tokens::SIGN(Signs::ARROW), ".", 1, 2),
        InfixKind::METHOD,
        identifier("a"),
        identifier("b"),
    ));
    assert_eq!(access.string(), "a.b");
    let infix = access.get_infix().unwrap();
    assert!(infix.is_method());
    assert!(!infix.is_infix());
    assert_eq!(infix.get_left().string(), "a");
    assert_eq!(infix.get_right().string(), "b");
    assert_eq!(infix.get_token().value, ".");
    let quoted = Expressions::STRING {
        token: token(Tokens::STRING, "hi", 1, 1),
        value: "hi".to_string(),
    };
    assert_eq!(quoted.string(), "\"hi\"");
    assert!(identifier("a").get_infix().is_none());
}

#[test]
fn tokens_tell_their_sign_and_type() {
    assert_eq!(Tokens::SIGN(Signs::PLUS).get_sign(), Some(Signs::PLUS));
    assert_eq!(Tokens::IDENTIFIER.get_sign(), None);
    assert!(Tokens::SIGN(Signs::OR).expect_sign(&Signs::OR));
    assert!(!Tokens::SIGN(Signs::OR).expect_sign(&Signs::AND));
    assert!(!Tokens::NUMBER.expect_sign(&Signs::OR));
    assert_eq!(Tokens::TYPE(Types::VOID).get_type(), Some(Types::VOID));
    assert_eq!(Tokens::SIGN(Signs::OR).get_type(), None);
    let names = [
        (Types::NULL, "null"),
        (Types::NUMBER, "number"),
        (Types::STRING, "string"),
        (Types::BOOLEAN, "boolean"),
        (Types::VOID, "void"),
        (Types::FUNCTION, "function"),
        (Types::UNION, "union"),
    ];
    for (tag, name) in names {
        assert_eq!(tag.string(), name);
    }
}
