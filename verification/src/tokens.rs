//! Lexical tokens: the operator signs, the type tags and the source token that
//! every syntax node and every diagnostic carries.

use vstd::prelude::*;
use vstd::string::*;

verus! {

/// Operator signs.
#[derive(Clone, Copy, Debug, PartialEq, Eq, Structural)]
pub enum Signs {
    PLUS,
    MINUS,
    MULTIPLY,
    DIVIDE,
    EMPOWERMENT,
    CARER,
    MODULE,
    LESSTHAN,
    LESSOREQUALTHAN,
    GREATERTHAN,
    GREATEROREQUALTHAN,
    EQUAL,
    NOTEQUAL,
    OR,
    AND,
    ASSIGN,
    NOT,
    ARROW,
}

/// Tags of the static types.
#[derive(Clone, Copy, Debug, PartialEq, Eq, Structural)]
pub enum Types {
    NULL,
    NUMBER,
    STRING,
    BOOLEAN,
    VOID,
    FUNCTION,
    /// One of several types, which the display name lists.
    UNION,
}

impl Types {
    /// The name under which the type is written and displayed.
    pub open spec fn name(self) -> Seq<char> {
        match self {
            Types::NULL => "null"@,
            Types::NUMBER => "number"@,
            Types::STRING => "string"@,
            Types::BOOLEAN => "boolean"@,
            Types::VOID => "void"@,
            Types::FUNCTION => "function"@,
            Types::UNION => "union"@,
        }
    }

    /// The name under which the type is written and displayed.
    pub fn string(&self) -> (r: String)
        ensures
            r@ == self.name(),
    {
        match self {
            Types::NULL => String::from_str("null"),
            Types::NUMBER => String::from_str("number"),
            Types::STRING => String::from_str("string"),
            Types::BOOLEAN => String::from_str("boolean"),
            Types::VOID => String::from_str("void"),
            Types::FUNCTION => String::from_str("function"),
            Types::UNION => String::from_str("union"),
        }
    }
}

/// Reserved words.
#[derive(Clone, Copy, Debug, PartialEq, Eq, Structural)]
pub enum Keywords {
    LET,
    CONST,
    FUNCTION,
    RETURN,
    IF,
    ELSE,
    IMPORT,
    EXPORT,
    INTERFACE,
    TRUE,
    FALSE,
    NULL,
}

/// The kind of a token.
#[derive(Clone, Copy, Debug, PartialEq, Eq, Structural)]
pub enum Tokens {
    ILLEGAL,
    EOF,
    IDENTIFIER,
    NUMBER,
    STRING,
    KEYWORD(Keywords),
    SIGN(Signs),
    TYPE(Types),
}

impl Tokens {
    /// The sign of a sign token.
    pub open spec fn sign(self) -> Option<Signs> {
        match self {
            Tokens::SIGN(sign) => Some(sign),
            _ => None,
        }
    }

    /// The sign of a sign token, nothing for any other kind.
    pub fn get_sign(&self) -> (r: Option<Signs>)
        ensures
            r == self.sign(),
    {
        match self {
            Tokens::SIGN(sign) => Some(*sign),
            _ => None,
        }
    }

    /// Whether this is the token of the given sign.
    pub fn expect_sign(&self, sign: &Signs) -> (r: bool)
        ensures
            r == (self.sign() == Some(*sign)),
    {
        match self {
            Tokens::SIGN(own) => *own == *sign,
            _ => false,
        }
    }

    /// The type tag of a type token, nothing for any other kind.
    pub fn get_type(&self) -> (r: Option<Types>)
        ensures
            r == (match *self {
                Tokens::TYPE(tag) => Some(tag),
                _ => None,
            }),
    {
        match self {
            Tokens::TYPE(tag) => Some(*tag),
            _ => None,
        }
    }
}

/// A token with its text and its place in the source.
#[derive(Debug)]
pub struct Token {
    pub token: Tokens,
    pub value: String,
    pub line: usize,
    pub position: usize,
}

/// The mathematical model of a [`Token`].
pub struct TokenView {
    pub token: Tokens,
    pub value: Seq<char>,
    pub line: usize,
    pub position: usize,
}

impl View for Token {
    type V = TokenView;

    open spec fn view(&self) -> TokenView {
        TokenView { token: self.token, value: self.value@, line: self.line, position: self.position }
    }
}

impl Clone for Token {
    fn clone(&self) -> (r: Token)
        ensures
            r@ == self@,
    {
        Token { token: self.token, value: self.value.clone(), line: self.line, position: self.position }
    }
}

impl Token {
    /// Whether the two tokens have the same kind, text and place.
    pub fn equals(&self, other: &Token) -> (r: bool)
        ensures
            r == (self@ == other@),
    {
        self.token == other.token && self.value == other.value && self.line == other.line
            && self.position == other.position
    }

    /// A token of the given kind and text at the given place.
    pub fn new(token: Tokens, value: String, line: usize, position: usize) -> (r: Token)
        ensures
            r@ == (TokenView { token, value: value@, line, position }),
    {
        Token { token, value, line, position }
    }

    /// An end-of-file token without text, at the origin.
    pub fn new_empty() -> (r: Token)
        ensures
            r@ == (TokenView { token: Tokens::EOF, value: Seq::<char>::empty(), line: 0, position: 0 }),
    {
        Token { token: Tokens::EOF, value: String::new(), line: 0, position: 0 }
    }
}

} // verus!
