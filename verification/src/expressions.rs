//! Expression nodes of the syntax tree.

use crate::tokens::{Token, TokenView};
use vstd::prelude::*;
use vstd::string::*;

verus! {

/// What a binary node stands for.
#[derive(Clone, Copy, Debug, PartialEq, Eq, Structural)]
pub enum InfixKind {
    /// A renaming, which has no value of its own.
    ALIAS,
    /// An operator between two operands.
    INFIX,
    /// A member access: the right operand is resolved in the scope of the left.
    METHOD,
}

/// An expression.
#[allow(inconsistent_fields)]
#[derive(Debug)]
pub enum Expressions {
    BOOLEAN { token: Token, value: bool },
    IDENTIFIER { token: Token },
    INFIX(Infix),
    NULL { token: Token },
    /// A number literal: `value` is its binary64 bit pattern and `text` the
    /// canonical decimal text of that value, which may differ from what the
    /// token reads in the source.
    NUMBER { token: Token, value: u64, text: String },
    STRING { token: Token, value: String },
}

/// A binary node: an operator, or a member access, between two expressions.
#[derive(Debug)]
pub struct Infix {
    pub token: Token,
    pub kind: InfixKind,
    pub left: Box<Expressions>,
    pub right: Box<Expressions>,
}

/// The mathematical model of an [`Expressions`].
#[allow(inconsistent_fields)]
pub enum ExpressionsView {
    Boolean { token: TokenView, value: bool },
    Identifier { token: TokenView },
    Infix(InfixView),
    Null { token: TokenView },
    Number { token: TokenView, value: u64, text: Seq<char> },
    String { token: TokenView, value: Seq<char> },
}

/// The mathematical model of an [`Infix`].
pub struct InfixView {
    pub token: TokenView,
    pub kind: InfixKind,
    pub left: Box<ExpressionsView>,
    pub right: Box<ExpressionsView>,
}

impl ExpressionsView {
    /// The token the node was read from.
    pub open spec fn token(self) -> TokenView {
        match self {
            ExpressionsView::Boolean { token, .. } => token,
            ExpressionsView::Identifier { token } => token,
            ExpressionsView::Infix(infix) => infix.token,
            ExpressionsView::Null { token } => token,
            ExpressionsView::Number { token, .. } => token,
            ExpressionsView::String { token, .. } => token,
        }
    }

    /// The canonical text of the expression.
    pub open spec fn rendering(self) -> Seq<char>
        decreases self,
    {
        match self {
            ExpressionsView::Boolean { value, .. } => if value {
                "true"@
            } else {
                "false"@
            },
            ExpressionsView::Identifier { token } => token.value,
            ExpressionsView::Infix(infix) => infix.rendering(),
            ExpressionsView::Null { .. } => "null"@,
            ExpressionsView::Number { token, .. } => token.value,
            ExpressionsView::String { value, .. } => "\""@ + value + "\""@,
        }
    }
}

impl InfixView {
    /// The canonical text: `left.right` for a member access, and otherwise the
    /// operands round the operator's text, in parentheses.
    pub open spec fn rendering(self) -> Seq<char>
        decreases self,
    {
        if self.kind == InfixKind::METHOD {
            self.left.rendering() + "."@ + self.right.rendering()
        } else {
            "("@ + self.left.rendering() + " "@ + self.token.value + " "@ + self.right.rendering()
                + ")"@
        }
    }
}

impl Expressions {
    /// The mathematical model of the value.
    pub open spec fn model(&self) -> ExpressionsView
        decreases self,
    {
        match self {
            Expressions::BOOLEAN { token, value } => ExpressionsView::Boolean {
                token: token@,
                value: *value,
            },
            Expressions::IDENTIFIER { token } => ExpressionsView::Identifier { token: token@ },
            Expressions::INFIX(infix) => ExpressionsView::Infix(infix.model()),
            Expressions::NULL { token } => ExpressionsView::Null { token: token@ },
            Expressions::NUMBER { token, value, text } => ExpressionsView::Number {
                token: token@,
                value: *value,
                text: text@,
            },
            Expressions::STRING { token, value } => ExpressionsView::String {
                token: token@,
                value: value@,
            },
        }
    }

    /// A copy of the expression.
    pub fn duplicate(&self) -> (r: Expressions)
        ensures
            r@ == self@,
        decreases self,
    {
        match self {
            Expressions::BOOLEAN { token, value } => Expressions::BOOLEAN {
                token: token.clone(),
                value: *value,
            },
            Expressions::IDENTIFIER { token } => Expressions::IDENTIFIER { token: token.clone() },
            Expressions::INFIX(infix) => Expressions::INFIX(infix.duplicate()),
            Expressions::NULL { token } => Expressions::NULL { token: token.clone() },
            Expressions::NUMBER { token, value, text } => Expressions::NUMBER {
                token: token.clone(),
                value: *value,
                text: text.clone(),
            },
            Expressions::STRING { token, value } => Expressions::STRING {
                token: token.clone(),
                value: value.clone(),
            },
        }
    }

    /// Whether the two expressions are the same tree.
    pub fn equals(&self, other: &Expressions) -> (r: bool)
        ensures
            r == (self@ == other@),
        decreases self,
    {
        match (self, other) {
            (
                Expressions::BOOLEAN { token, value },
                Expressions::BOOLEAN { token: other_token, value: other_value },
            ) => token.equals(other_token) && *value == *other_value,
            (Expressions::IDENTIFIER { token }, Expressions::IDENTIFIER { token: other_token }) => {
                token.equals(other_token)
            },
            (Expressions::INFIX(infix), Expressions::INFIX(other_infix)) => infix.equals(
                other_infix,
            ),
            (Expressions::NULL { token }, Expressions::NULL { token: other_token }) => {
                token.equals(other_token)
            },
            (
                Expressions::NUMBER { token, value, text },
                Expressions::NUMBER { token: other_token, value: other_value, text: other_text },
            ) => token.equals(other_token) && *value == *other_value && *text == *other_text,
            (
                Expressions::STRING { token, value },
                Expressions::STRING { token: other_token, value: other_value },
            ) => token.equals(other_token) && *value == *other_value,
            _ => false,
        }
    }

    /// The binary node, if the expression is one.
    pub fn get_infix(&self) -> (r: Option<&Infix>)
        ensures
            match r {
                Some(infix) => *self == Expressions::INFIX(*infix),
                None => !(self is INFIX),
            },
    {
        match self {
            Expressions::INFIX(infix) => Some(infix),
            _ => None,
        }
    }

    /// The token the expression was read from.
    pub fn token(&self) -> (r: Token)
        ensures
            r@ == self@.token(),
    {
        match self {
            Expressions::BOOLEAN { token, .. } => token.clone(),
            Expressions::IDENTIFIER { token } => token.clone(),
            Expressions::INFIX(infix) => infix.token.clone(),
            Expressions::NULL { token } => token.clone(),
            Expressions::NUMBER { token, .. } => token.clone(),
            Expressions::STRING { token, .. } => token.clone(),
        }
    }

    /// The canonical text of the expression.
    pub fn string(&self) -> (r: String)
        ensures
            r@ == self@.rendering(),
        decreases self,
    {
        match self {
            Expressions::BOOLEAN { value, .. } => if *value {
                String::from_str("true")
            } else {
                String::from_str("false")
            },
            Expressions::IDENTIFIER { token } => token.value.clone(),
            Expressions::INFIX(infix) => infix.string(),
            Expressions::NULL { .. } => String::from_str("null"),
            Expressions::NUMBER { token, .. } => token.value.clone(),
            Expressions::STRING { value, .. } => {
                let mut out = String::from_str("\"");
                out.append(value.as_str());
                out.append("\"");
                out
            },
        }
    }
}

impl View for Expressions {
    type V = ExpressionsView;

    open spec fn view(&self) -> ExpressionsView {
        self.model()
    }
}

impl Infix {
    /// The mathematical model of the value.
    pub open spec fn model(&self) -> InfixView
        decreases self,
    {
        InfixView {
            token: self.token@,
            kind: self.kind,
            left: Box::new(self.left.model()),
            right: Box::new(self.right.model()),
        }
    }

    /// A binary node of the given kind.
    pub fn new(token: Token, kind: InfixKind, left: Expressions, right: Expressions) -> (r: Infix)
        ensures
            r@ == (InfixView {
                token: token@,
                kind,
                left: Box::new(left@),
                right: Box::new(right@),
            }),
    {
        Infix { token, kind, left: Box::new(left), right: Box::new(right) }
    }

    /// A copy of the node.
    pub fn duplicate(&self) -> (r: Infix)
        ensures
            r@ == self@,
        decreases self,
    {
        Infix {
            token: self.token.clone(),
            kind: self.kind,
            left: Box::new(self.left.duplicate()),
            right: Box::new(self.right.duplicate()),
        }
    }

    /// Whether the two nodes are the same tree.
    pub fn equals(&self, other: &Infix) -> (r: bool)
        ensures
            r == (self@ == other@),
        decreases self,
    {
        self.token.equals(&other.token) && self.kind == other.kind && self.left.equals(
            &other.left,
        ) && self.right.equals(&other.right)
    }

    /// The operator's token.
    pub fn get_token(&self) -> (r: Token)
        ensures
            r@ == self@.token,
    {
        self.token.clone()
    }

    /// The left operand.
    pub fn get_left(&self) -> (r: &Expressions)
        ensures
            r@ == *self@.left,
    {
        &*self.left
    }

    /// The right operand.
    pub fn get_right(&self) -> (r: &Expressions)
        ensures
            r@ == *self@.right,
    {
        &*self.right
    }

    /// Whether the node is a member access.
    pub fn is_method(&self) -> (r: bool)
        ensures
            r == (self@.kind == InfixKind::METHOD),
    {
        self.kind == InfixKind::METHOD
    }

    /// Whether the node is an operator between two operands.
    pub fn is_infix(&self) -> (r: bool)
        ensures
            r == (self@.kind == InfixKind::INFIX),
    {
        self.kind == InfixKind::INFIX
    }

    /// The canonical text of the node.
    pub fn string(&self) -> (r: String)
        ensures
            r@ == self@.rendering(),
        decreases self,
    {
        let left = self.left.string();
        let right = self.right.string();
        if self.kind == InfixKind::METHOD {
            let mut out = left;
            out.append(".");
            out.append(right.as_str());
            out
        } else {
            let mut out = String::from_str("(");
            out.append(left.as_str());
            out.append(" ");
            out.append(self.token.value.as_str());
            out.append(" ");
            out.append(right.as_str());
            out.append(")");
            out
        }
    }
}

impl View for Infix {
    type V = InfixView;

    open spec fn view(&self) -> InfixView {
        self.model()
    }
}

impl Clone for Expressions {
    fn clone(&self) -> (r: Expressions)
        ensures
            r@ == self@,
    {
        self.duplicate()
    }
}

impl Clone for Infix {
    fn clone(&self) -> (r: Infix)
        ensures
            r@ == self@,
    {
        self.duplicate()
    }
}

} // verus!
