//! Statement nodes of the syntax tree.

use crate::expressions::{Expressions, ExpressionsView};
use crate::text::{join, join_strings, string_views};
use crate::tokens::{Token, TokenView, Tokens, Types};
use vstd::prelude::*;
use vstd::string::*;

verus! {

/// What every statement node offers.
pub trait Statement: Sized {
    /// The token the statement was read from.
    spec fn token_view(&self) -> TokenView;

    /// The canonical text of the statement.
    spec fn rendering(&self) -> Seq<char>;

    /// Whether the statement holds nothing beside its token.
    spec fn is_fresh(&self) -> bool;

    /// Create an empty statement.
    fn new() -> (r: Self)
        ensures
            r.token_view() == empty_token(),
            r.is_fresh(),
    ;

    /// Create a statement with a token.
    fn from_token(token: Token) -> (r: Self)
        ensures
            r.token_view() == token@,
            r.is_fresh(),
    ;

    /// Get the token.
    fn get_token(&self) -> (r: Token)
        ensures
            r@ == self.token_view(),
    ;

    /// Parse the statement to a string.
    fn string(&self) -> (r: String)
        ensures
            r@ == self.rendering(),
    ;
}

/// The token of a statement that was made from nothing.
pub open spec fn empty_token() -> TokenView {
    TokenView { token: Tokens::EOF, value: Seq::<char>::empty(), line: 0, position: 0 }
}

/// A name with its declared type: a parameter of a function or a member of an
/// interface.
#[derive(Debug)]
pub struct Parameter {
    pub name: String,
    pub data_type: Types,
}

/// Statements in order, between braces.
#[derive(Debug)]
pub struct Block {
    pub token: Token,
    pub statements: Vec<Statements>,
}

/// A statement made visible to other modules.
#[derive(Debug)]
pub struct Export {
    pub token: Token,
    pub value: Option<Box<Statements>>,
}

/// An expression that stands as a statement.
#[derive(Debug)]
pub struct ExpressionStatement {
    pub token: Token,
    pub expression: Expressions,
}

/// The declaration of a named function.
#[derive(Debug)]
pub struct Function {
    pub token: Token,
    pub name: String,
    pub parameters: Vec<Parameter>,
    pub data_type: Types,
    pub body: Block,
}

/// A conditional with its consequence and, where one is given, its alternative.
#[derive(Debug)]
pub struct IfElse {
    pub token: Token,
    pub condition: Expressions,
    pub consequence: Block,
    pub alternative: Option<Block>,
}

/// The import of a module by its path.
#[derive(Debug)]
pub struct Import {
    pub token: Token,
    pub path: String,
}

/// The declaration of a named set of typed members.
#[derive(Debug)]
pub struct Interface {
    pub token: Token,
    pub name: String,
    pub members: Vec<Parameter>,
}

/// A return from a function, with or without a value.
#[derive(Debug)]
pub struct Return {
    pub token: Token,
    pub value: Option<Expressions>,
}

/// The declaration of a variable.
#[derive(Debug)]
pub struct Variable {
    pub token: Token,
    pub name: String,
    pub data_type: Option<Types>,
    pub value: Option<Expressions>,
}

/// A statement.
#[derive(Debug)]
pub enum Statements {
    BLOCK(Block),
    EXPORT(Export),
    EXPRESSION(ExpressionStatement),
    FUNCTION(Function),
    IFELSE(IfElse),
    IMPORT(Import),
    INTERFACE(Interface),
    RETURN(Return),
    VARIABLE(Variable),
}

/// The mathematical model of a [`Parameter`].
pub struct ParameterView {
    pub name: Seq<char>,
    pub data_type: Types,
}

/// The mathematical model of a [`Block`].
pub struct BlockView {
    pub token: TokenView,
    pub statements: Seq<StatementsView>,
}

/// The mathematical model of a [`Export`].
pub struct ExportView {
    pub token: TokenView,
    pub value: Option<Box<StatementsView>>,
}

/// The mathematical model of a [`ExpressionStatement`].
pub struct ExpressionStatementView {
    pub token: TokenView,
    pub expression: ExpressionsView,
}

/// The mathematical model of a [`Function`].
pub struct FunctionView {
    pub token: TokenView,
    pub name: Seq<char>,
    pub parameters: Seq<ParameterView>,
    pub data_type: Types,
    pub body: BlockView,
}

/// The mathematical model of a [`IfElse`].
pub struct IfElseView {
    pub token: TokenView,
    pub condition: ExpressionsView,
    pub consequence: BlockView,
    pub alternative: Option<BlockView>,
}

/// The mathematical model of a [`Import`].
pub struct ImportView {
    pub token: TokenView,
    pub path: Seq<char>,
}

/// The mathematical model of a [`Interface`].
pub struct InterfaceView {
    pub token: TokenView,
    pub name: Seq<char>,
    pub members: Seq<ParameterView>,
}

/// The mathematical model of a [`Return`].
pub struct ReturnView {
    pub token: TokenView,
    pub value: Option<ExpressionsView>,
}

/// The mathematical model of a [`Variable`].
pub struct VariableView {
    pub token: TokenView,
    pub name: Seq<char>,
    pub data_type: Option<Types>,
    pub value: Option<ExpressionsView>,
}

/// The mathematical model of a [`Statements`].
pub enum StatementsView {
    Block(BlockView),
    Export(ExportView),
    Expression(ExpressionStatementView),
    Function(FunctionView),
    IfElse(IfElseView),
    Import(ImportView),
    Interface(InterfaceView),
    Return(ReturnView),
    Variable(VariableView),
}

// ---------------------------------------------------------------------------
// The canonical text, over the models.
// ---------------------------------------------------------------------------
impl ParameterView {
    /// `name: type`.
    pub open spec fn rendering(self) -> Seq<char> {
        self.name + ": "@ + self.data_type.name()
    }
}

/// The texts of the parameters, in order.
pub open spec fn parameter_renderings(parameters: Seq<ParameterView>) -> Seq<Seq<char>> {
    Seq::new(parameters.len(), |i: int| parameters[i].rendering())
}

impl BlockView {
    /// The texts of the statements, in order.
    pub open spec fn renderings(self) -> Seq<Seq<char>>
        decreases self, 0nat,
    {
        Seq::new(
            self.statements.len(),
            |i: int|
                if 0 <= i < self.statements.len() {
                    self.statements[i].rendering()
                } else {
                    Seq::<char>::empty()
                },
        )
    }

    /// The statements, one on a line, between braces.
    pub open spec fn rendering(self) -> Seq<char>
        decreases self, 1nat,
    {
        "{\n"@ + join(self.renderings(), "\n"@) + "\n}"@
    }
}

impl ExportView {
    /// `export` before the exported statement.
    pub open spec fn rendering(self) -> Seq<char>
        decreases self,
    {
        match self.value {
            Some(value) => "export "@ + value.rendering(),
            None => "export"@,
        }
    }
}

impl ExpressionStatementView {
    /// The expression, closed by a semicolon.
    pub open spec fn rendering(self) -> Seq<char> {
        self.expression.rendering() + ";"@
    }
}

impl FunctionView {
    /// `function name(parameters): type` before the body.
    pub open spec fn rendering(self) -> Seq<char>
        decreases self,
    {
        "function "@ + self.name + "("@ + join(parameter_renderings(self.parameters), ", "@)
            + "): "@ + self.data_type.name() + " "@ + self.body.rendering()
    }
}

impl IfElseView {
    /// `if (condition)` before the consequence, then `else` and the
    /// alternative where there is one.
    pub open spec fn rendering(self) -> Seq<char>
        decreases self,
    {
        let head = "if ("@ + self.condition.rendering() + ") "@ + self.consequence.rendering();
        match self.alternative {
            Some(alternative) => head + " else "@ + alternative.rendering(),
            None => head,
        }
    }
}

impl ImportView {
    /// `import` before the quoted path.
    pub open spec fn rendering(self) -> Seq<char> {
        "import \""@ + self.path + "\";"@
    }
}

impl InterfaceView {
    /// `interface name` before the members between braces.
    pub open spec fn rendering(self) -> Seq<char> {
        "interface "@ + self.name + " { "@ + join(parameter_renderings(self.members), "; "@)
            + " }"@
    }
}

impl ReturnView {
    /// `return`, the value where there is one, and a semicolon.
    pub open spec fn rendering(self) -> Seq<char> {
        match self.value {
            Some(value) => "return "@ + value.rendering() + ";"@,
            None => "return;"@,
        }
    }
}

impl VariableView {
    /// The declaring word, the name, the declared type and the value where
    /// they are given, and a semicolon.
    pub open spec fn rendering(self) -> Seq<char> {
        let head = self.token.value + " "@ + self.name;
        let typed = match self.data_type {
            Some(data_type) => head + ": "@ + data_type.name(),
            None => head,
        };
        match self.value {
            Some(value) => typed + " = "@ + value.rendering() + ";"@,
            None => typed + ";"@,
        }
    }
}

impl StatementsView {
    /// The token the statement was read from.
    pub open spec fn token(self) -> TokenView {
        match self {
            StatementsView::Block(block) => block.token,
            StatementsView::Export(export) => export.token,
            StatementsView::Expression(expression) => expression.token,
            StatementsView::Function(function) => function.token,
            StatementsView::IfElse(if_else) => if_else.token,
            StatementsView::Import(import) => import.token,
            StatementsView::Interface(interface) => interface.token,
            StatementsView::Return(return_s) => return_s.token,
            StatementsView::Variable(variable) => variable.token,
        }
    }

    /// The canonical text of the statement.
    pub open spec fn rendering(self) -> Seq<char>
        decreases self,
    {
        match self {
            StatementsView::Block(block) => block.rendering(),
            StatementsView::Export(export) => export.rendering(),
            StatementsView::Expression(expression) => expression.rendering(),
            StatementsView::Function(function) => function.rendering(),
            StatementsView::IfElse(if_else) => if_else.rendering(),
            StatementsView::Import(import) => import.rendering(),
            StatementsView::Interface(interface) => interface.rendering(),
            StatementsView::Return(return_s) => return_s.rendering(),
            StatementsView::Variable(variable) => variable.rendering(),
        }
    }
}

// ---------------------------------------------------------------------------
// Parameters.
// ---------------------------------------------------------------------------
impl View for Parameter {
    type V = ParameterView;

    open spec fn view(&self) -> ParameterView {
        ParameterView { name: self.name@, data_type: self.data_type }
    }
}

impl Clone for Parameter {
    fn clone(&self) -> (r: Parameter)
        ensures
            r@ == self@,
    {
        Parameter { name: self.name.clone(), data_type: self.data_type }
    }
}

impl Parameter {
    /// A name with its declared type.
    pub fn new(name: String, data_type: Types) -> (r: Parameter)
        ensures
            r@ == (ParameterView { name: name@, data_type }),
    {
        Parameter { name, data_type }
    }

    /// Whether the two are the same name with the same type.
    pub fn equals(&self, other: &Parameter) -> (r: bool)
        ensures
            r == (self@ == other@),
    {
        self.name == other.name && self.data_type == other.data_type
    }

    /// `name: type`.
    pub fn string(&self) -> (r: String)
        ensures
            r@ == self@.rendering(),
    {
        let mut out = self.name.clone();
        out.append(": ");
        out.append(self.data_type.string().as_str());
        out
    }
}

/// The models of the parameters, in order.
pub open spec fn parameter_views(parameters: Seq<Parameter>) -> Seq<ParameterView> {
    Seq::new(parameters.len(), |i: int| parameters[i]@)
}

/// A copy of the parameters.
pub fn duplicate_parameters(parameters: &Vec<Parameter>) -> (r: Vec<Parameter>)
    ensures
        parameter_views(r@) == parameter_views(parameters@),
{
    let mut out: Vec<Parameter> = Vec::new();
    let mut i: usize = 0;
    while i < parameters.len()
        invariant
            i <= parameters.len(),
            out.len() == i,
            forall|j: int| 0 <= j < i ==> out[j]@ == parameters[j]@,
        decreases parameters.len() - i,
    {
        out.push(parameters[i].clone());
        i = i + 1;
    }
    assert(parameter_views(out@) =~= parameter_views(parameters@));
    out
}

/// Whether the two lists hold the same parameters in the same order.
pub fn equal_parameters(left: &Vec<Parameter>, right: &Vec<Parameter>) -> (r: bool)
    ensures
        r == (parameter_views(left@) == parameter_views(right@)),
{
    if left.len() != right.len() {
        assert(parameter_views(left@).len() != parameter_views(right@).len());
        return false;
    }
    let mut i: usize = 0;
    while i < left.len()
        invariant
            i <= left.len(),
            left.len() == right.len(),
            forall|j: int| 0 <= j < i ==> left[j]@ == right[j]@,
        decreases left.len() - i,
    {
        if !left[i].equals(&right[i]) {
            assert(parameter_views(left@)[i as int] != parameter_views(right@)[i as int]);
            return false;
        }
        i = i + 1;
    }
    assert(parameter_views(left@) =~= parameter_views(right@));
    true
}

/// The parameters' texts, joined by the separator.
pub fn join_parameters(parameters: &Vec<Parameter>, separator: &str) -> (r: String)
    ensures
        r@ == join(parameter_renderings(parameter_views(parameters@)), separator@),
{
    let mut parts: Vec<String> = Vec::new();
    let mut i: usize = 0;
    while i < parameters.len()
        invariant
            i <= parameters.len(),
            parts.len() == i,
            forall|j: int| 0 <= j < i ==> parts[j]@ == parameters[j]@.rendering(),
        decreases parameters.len() - i,
    {
        parts.push(parameters[i].string());
        i = i + 1;
    }
    assert(string_views(parts@) =~= parameter_renderings(
        parameter_views(parameters@),
    ));
    join_strings(&parts, separator)
}

// ---------------------------------------------------------------------------
// Models, copies, equality and text of the nodes.
// ---------------------------------------------------------------------------
impl Block {
    /// The mathematical model of the value.
    pub open spec fn model(&self) -> BlockView
        decreases self,
    {
        BlockView {
            token: self.token@,
            statements: Seq::new(
                self.statements.len() as nat,
                |i: int|
                    if 0 <= i < self.statements.len() {
                        self.statements[i].model()
                    } else {
                        arbitrary()
                    },
            ),
        }
    }

    /// A block of the given statements.
    pub fn with_statements(token: Token, statements: Vec<Statements>) -> (r: Block)
        ensures
            r@.token == token@,
            r@.statements == Seq::new(statements.len() as nat, |i: int| statements[i]@),
    {
        let r = Block { token, statements };
        assert(r@.statements =~= Seq::new(statements.len() as nat, |i: int| statements[i]@));
        r
    }

    /// A copy of the block.
    pub fn duplicate(&self) -> (r: Block)
        ensures
            r@ == self@,
        decreases self,
    {
        let mut out: Vec<Statements> = Vec::new();
        let mut i: usize = 0;
        while i < self.statements.len()
            invariant
                i <= self.statements.len(),
                out.len() == i,
                forall|j: int| 0 <= j < i ==> out[j]@ == self.statements[j]@,
            decreases self.statements.len() - i,
        {
            proof {
                vstd::std_specs::vec::axiom_vec_index_decreases(self.statements, i as int);
                assert(decreases_to!(*self => self.statements));
                assert(decreases_to!(*self => self.statements[i as int]));
            }
            out.push(self.statements[i].duplicate());
            i = i + 1;
        }
        let r = Block { token: self.token.clone(), statements: out };
        assert(r@.statements =~= self@.statements);
        r
    }

    /// Whether the two blocks are the same tree.
    pub fn equals(&self, other: &Block) -> (r: bool)
        ensures
            r == (self@ == other@),
        decreases self,
    {
        if !self.token.equals(&other.token) {
            return false;
        }
        if self.statements.len() != other.statements.len() {
            assert(self@.statements.len() != other@.statements.len());
            return false;
        }
        let mut i: usize = 0;
        while i < self.statements.len()
            invariant
                i <= self.statements.len(),
                self.statements.len() == other.statements.len(),
                forall|j: int| 0 <= j < i ==> self.statements[j]@ == other.statements[j]@,
            decreases self.statements.len() - i,
        {
            proof {
                vstd::std_specs::vec::axiom_vec_index_decreases(self.statements, i as int);
                assert(decreases_to!(*self => self.statements));
                assert(decreases_to!(*self => self.statements[i as int]));
            }
            if !self.statements[i].equals(&other.statements[i]) {
                assert(self@.statements[i as int] != other@.statements[i as int]);
                return false;
            }
            i = i + 1;
        }
        assert(self@.statements =~= other@.statements);
        true
    }

    /// The statements, one on a line, between braces.
    pub fn render(&self) -> (r: String)
        ensures
            r@ == self@.rendering(),
        decreases self,
    {
        let mut parts: Vec<String> = Vec::new();
        let mut i: usize = 0;
        while i < self.statements.len()
            invariant
                i <= self.statements.len(),
                parts.len() == i,
                forall|j: int| 0 <= j < i ==> parts[j]@ == self.statements[j]@.rendering(),
            decreases self.statements.len() - i,
        {
            proof {
                vstd::std_specs::vec::axiom_vec_index_decreases(self.statements, i as int);
                assert(decreases_to!(*self => self.statements));
                assert(decreases_to!(*self => self.statements[i as int]));
            }
            parts.push(self.statements[i].string());
            i = i + 1;
        }
        assert(string_views(parts@) =~= self@.renderings());
        let mut out = String::from_str("{\n");
        out.append(join_strings(&parts, "\n").as_str());
        out.append("\n}");
        out
    }
}

impl Export {
    /// The mathematical model of the value.
    pub open spec fn model(&self) -> ExportView
        decreases self,
    {
        ExportView {
            token: self.token@,
            value: match self.value {
                Some(value) => Some(Box::new(value.model())),
                None => None,
            },
        }
    }

    /// A copy of the statement.
    pub fn duplicate(&self) -> (r: Export)
        ensures
            r@ == self@,
        decreases self,
    {
        Export {
            token: self.token.clone(),
            value: match &self.value {
                Some(value) => Some(Box::new(value.duplicate())),
                None => None,
            },
        }
    }

    /// Whether the two statements are the same tree.
    pub fn equals(&self, other: &Export) -> (r: bool)
        ensures
            r == (self@ == other@),
        decreases self,
    {
        self.token.equals(&other.token) && match (&self.value, &other.value) {
            (Some(value), Some(other_value)) => value.equals(other_value),
            (None, None) => true,
            _ => false,
        }
    }

    /// `export` before the exported statement.
    pub fn render(&self) -> (r: String)
        ensures
            r@ == self@.rendering(),
        decreases self,
    {
        match &self.value {
            Some(value) => {
                let mut out = String::from_str("export ");
                out.append(value.string().as_str());
                out
            },
            None => String::from_str("export"),
        }
    }
}

impl ExpressionStatement {
    /// The mathematical model of the value.
    pub open spec fn model(&self) -> ExpressionStatementView {
        ExpressionStatementView { token: self.token@, expression: self.expression@ }
    }

    /// A copy of the statement.
    pub fn duplicate(&self) -> (r: ExpressionStatement)
        ensures
            r@ == self@,
    {
        ExpressionStatement { token: self.token.clone(), expression: self.expression.clone() }
    }

    /// Whether the two statements are the same tree.
    pub fn equals(&self, other: &ExpressionStatement) -> (r: bool)
        ensures
            r == (self@ == other@),
    {
        self.token.equals(&other.token) && self.expression.equals(&other.expression)
    }

    /// The expression of the statement.
    pub fn get_expression(&self) -> (r: &Expressions)
        ensures
            r@ == self@.expression,
    {
        &self.expression
    }

    /// The expression, closed by a semicolon.
    pub fn render(&self) -> (r: String)
        ensures
            r@ == self@.rendering(),
    {
        let mut out = self.expression.string();
        out.append(";");
        out
    }
}

impl Function {
    /// The mathematical model of the value.
    pub open spec fn model(&self) -> FunctionView
        decreases self,
    {
        FunctionView {
            token: self.token@,
            name: self.name@,
            parameters: parameter_views(self.parameters@),
            data_type: self.data_type,
            body: self.body.model(),
        }
    }

    /// A copy of the statement.
    pub fn duplicate(&self) -> (r: Function)
        ensures
            r@ == self@,
        decreases self,
    {
        Function {
            token: self.token.clone(),
            name: self.name.clone(),
            parameters: duplicate_parameters(&self.parameters),
            data_type: self.data_type,
            body: self.body.duplicate(),
        }
    }

    /// Whether the two statements are the same tree.
    pub fn equals(&self, other: &Function) -> (r: bool)
        ensures
            r == (self@ == other@),
        decreases self,
    {
        self.token.equals(&other.token) && self.name == other.name && equal_parameters(
            &self.parameters,
            &other.parameters,
        ) && self.data_type == other.data_type && self.body.equals(&other.body)
    }

    /// `function name(parameters): type` before the body.
    pub fn render(&self) -> (r: String)
        ensures
            r@ == self@.rendering(),
        decreases self,
    {
        let mut out = String::from_str("function ");
        out.append(self.name.as_str());
        out.append("(");
        out.append(join_parameters(&self.parameters, ", ").as_str());
        out.append("): ");
        out.append(self.data_type.string().as_str());
        out.append(" ");
        out.append(self.body.render().as_str());
        out
    }
}

impl IfElse {
    /// The mathematical model of the value.
    pub open spec fn model(&self) -> IfElseView
        decreases self,
    {
        IfElseView {
            token: self.token@,
            condition: self.condition@,
            consequence: self.consequence.model(),
            alternative: match self.alternative {
                Some(alternative) => Some(alternative.model()),
                None => None,
            },
        }
    }

    /// A copy of the statement.
    pub fn duplicate(&self) -> (r: IfElse)
        ensures
            r@ == self@,
        decreases self,
    {
        IfElse {
            token: self.token.clone(),
            condition: self.condition.clone(),
            consequence: self.consequence.duplicate(),
            alternative: match &self.alternative {
                Some(alternative) => Some(alternative.duplicate()),
                None => None,
            },
        }
    }

    /// Whether the two statements are the same tree.
    pub fn equals(&self, other: &IfElse) -> (r: bool)
        ensures
            r == (self@ == other@),
        decreases self,
    {
        self.token.equals(&other.token) && self.condition.equals(&other.condition)
            && self.consequence.equals(&other.consequence) && match (
            &self.alternative,
            &other.alternative,
        ) {
            (Some(alternative), Some(other_alternative)) => alternative.equals(other_alternative),
            (None, None) => true,
            _ => false,
        }
    }

    /// `if (condition)` before the consequence, then `else` and the
    /// alternative where there is one.
    pub fn render(&self) -> (r: String)
        ensures
            r@ == self@.rendering(),
        decreases self,
    {
        let mut out = String::from_str("if (");
        out.append(self.condition.string().as_str());
        out.append(") ");
        out.append(self.consequence.render().as_str());
        match &self.alternative {
            Some(alternative) => {
                out.append(" else ");
                out.append(alternative.render().as_str());
            },
            None => {},
        }
        out
    }
}

impl Import {
    /// The mathematical model of the value.
    pub open spec fn model(&self) -> ImportView {
        ImportView { token: self.token@, path: self.path@ }
    }

    /// A copy of the statement.
    pub fn duplicate(&self) -> (r: Import)
        ensures
            r@ == self@,
    {
        Import { token: self.token.clone(), path: self.path.clone() }
    }

    /// Whether the two statements are the same.
    pub fn equals(&self, other: &Import) -> (r: bool)
        ensures
            r == (self@ == other@),
    {
        self.token.equals(&other.token) && self.path == other.path
    }

    /// `import` before the quoted path.
    pub fn render(&self) -> (r: String)
        ensures
            r@ == self@.rendering(),
    {
        let mut out = String::from_str("import \"");
        out.append(self.path.as_str());
        out.append("\";");
        out
    }
}

impl Interface {
    /// The mathematical model of the value.
    pub open spec fn model(&self) -> InterfaceView {
        InterfaceView {
            token: self.token@,
            name: self.name@,
            members: parameter_views(self.members@),
        }
    }

    /// A copy of the statement.
    pub fn duplicate(&self) -> (r: Interface)
        ensures
            r@ == self@,
    {
        Interface {
            token: self.token.clone(),
            name: self.name.clone(),
            members: duplicate_parameters(&self.members),
        }
    }

    /// Whether the two statements are the same.
    pub fn equals(&self, other: &Interface) -> (r: bool)
        ensures
            r == (self@ == other@),
    {
        self.token.equals(&other.token) && self.name == other.name && equal_parameters(
            &self.members,
            &other.members,
        )
    }

    /// `interface name` before the members between braces.
    pub fn render(&self) -> (r: String)
        ensures
            r@ == self@.rendering(),
    {
        let mut out = String::from_str("interface ");
        out.append(self.name.as_str());
        out.append(" { ");
        out.append(join_parameters(&self.members, "; ").as_str());
        out.append(" }");
        out
    }
}

impl Return {
    /// The mathematical model of the value.
    pub open spec fn model(&self) -> ReturnView {
        ReturnView {
            token: self.token@,
            value: match self.value {
                Some(value) => Some(value@),
                None => None,
            },
        }
    }

    /// A copy of the statement.
    pub fn duplicate(&self) -> (r: Return)
        ensures
            r@ == self@,
    {
        Return {
            token: self.token.clone(),
            value: match &self.value {
                Some(value) => Some(value.clone()),
                None => None,
            },
        }
    }

    /// Whether the two statements are the same tree.
    pub fn equals(&self, other: &Return) -> (r: bool)
        ensures
            r == (self@ == other@),
    {
        self.token.equals(&other.token) && match (&self.value, &other.value) {
            (Some(value), Some(other_value)) => value.equals(other_value),
            (None, None) => true,
            _ => false,
        }
    }

    /// The returned expression, if the statement has one.
    pub fn get_value(&self) -> (r: Option<&Expressions>)
        ensures
            match r {
                Some(value) => self@.value == Some(value@),
                None => self@.value is None,
            },
    {
        match &self.value {
            Some(value) => Some(value),
            None => None,
        }
    }

    /// `return`, the value where there is one, and a semicolon.
    pub fn render(&self) -> (r: String)
        ensures
            r@ == self@.rendering(),
    {
        match &self.value {
            Some(value) => {
                let mut out = String::from_str("return ");
                out.append(value.string().as_str());
                out.append(";");
                out
            },
            None => String::from_str("return;"),
        }
    }
}

impl Variable {
    /// The mathematical model of the value.
    pub open spec fn model(&self) -> VariableView {
        VariableView {
            token: self.token@,
            name: self.name@,
            data_type: self.data_type,
            value: match self.value {
                Some(value) => Some(value@),
                None => None,
            },
        }
    }

    /// A copy of the statement.
    pub fn duplicate(&self) -> (r: Variable)
        ensures
            r@ == self@,
    {
        Variable {
            token: self.token.clone(),
            name: self.name.clone(),
            data_type: self.data_type,
            value: match &self.value {
                Some(value) => Some(value.clone()),
                None => None,
            },
        }
    }

    /// Whether the two statements are the same tree.
    pub fn equals(&self, other: &Variable) -> (r: bool)
        ensures
            r == (self@ == other@),
    {
        self.token.equals(&other.token) && self.name == other.name && (match (
            &self.data_type,
            &other.data_type,
        ) {
            (Some(data_type), Some(other_type)) => *data_type == *other_type,
            (None, None) => true,
            _ => false,
        }) && match (&self.value, &other.value) {
            (Some(value), Some(other_value)) => value.equals(other_value),
            (None, None) => true,
            _ => false,
        }
    }

    /// The declaring word, the name, the declared type and the value where
    /// they are given, and a semicolon.
    pub fn render(&self) -> (r: String)
        ensures
            r@ == self@.rendering(),
    {
        let mut out = self.token.value.clone();
        out.append(" ");
        out.append(self.name.as_str());
        match &self.data_type {
            Some(data_type) => {
                out.append(": ");
                out.append(data_type.string().as_str());
            },
            None => {},
        }
        match &self.value {
            Some(value) => {
                out.append(" = ");
                out.append(value.string().as_str());
                out.append(";");
            },
            None => {
                out.append(";");
            },
        }
        out
    }
}

impl Statements {
    /// The mathematical model of the value.
    pub open spec fn model(&self) -> StatementsView
        decreases self,
    {
        match self {
            Statements::BLOCK(block) => StatementsView::Block(block.model()),
            Statements::EXPORT(export) => StatementsView::Export(export.model()),
            Statements::EXPRESSION(expression) => StatementsView::Expression(expression.model()),
            Statements::FUNCTION(function) => StatementsView::Function(function.model()),
            Statements::IFELSE(if_else) => StatementsView::IfElse(if_else.model()),
            Statements::IMPORT(import) => StatementsView::Import(import.model()),
            Statements::INTERFACE(interface) => StatementsView::Interface(interface.model()),
            Statements::RETURN(return_s) => StatementsView::Return(return_s.model()),
            Statements::VARIABLE(variable) => StatementsView::Variable(variable.model()),
        }
    }

    /// A copy of the statement.
    pub fn duplicate(&self) -> (r: Statements)
        ensures
            r@ == self@,
        decreases self,
    {
        match self {
            Statements::BLOCK(block) => Statements::BLOCK(block.duplicate()),
            Statements::EXPORT(export) => Statements::EXPORT(export.duplicate()),
            Statements::EXPRESSION(expression) => Statements::EXPRESSION(expression.duplicate()),
            Statements::FUNCTION(function) => Statements::FUNCTION(function.duplicate()),
            Statements::IFELSE(if_else) => Statements::IFELSE(if_else.duplicate()),
            Statements::IMPORT(import) => Statements::IMPORT(import.duplicate()),
            Statements::INTERFACE(interface) => Statements::INTERFACE(interface.duplicate()),
            Statements::RETURN(return_s) => Statements::RETURN(return_s.duplicate()),
            Statements::VARIABLE(variable) => Statements::VARIABLE(variable.duplicate()),
        }
    }

    /// Whether the two statements are the same tree.
    pub fn equals(&self, other: &Statements) -> (r: bool)
        ensures
            r == (self@ == other@),
        decreases self,
    {
        match (self, other) {
            (Statements::BLOCK(a), Statements::BLOCK(b)) => a.equals(b),
            (Statements::EXPORT(a), Statements::EXPORT(b)) => a.equals(b),
            (Statements::EXPRESSION(a), Statements::EXPRESSION(b)) => a.equals(b),
            (Statements::FUNCTION(a), Statements::FUNCTION(b)) => a.equals(b),
            (Statements::IFELSE(a), Statements::IFELSE(b)) => a.equals(b),
            (Statements::IMPORT(a), Statements::IMPORT(b)) => a.equals(b),
            (Statements::INTERFACE(a), Statements::INTERFACE(b)) => a.equals(b),
            (Statements::RETURN(a), Statements::RETURN(b)) => a.equals(b),
            (Statements::VARIABLE(a), Statements::VARIABLE(b)) => a.equals(b),
            _ => false,
        }
    }

    /// The block, if the statement is one.
    pub fn get_block(&self) -> (r: Option<Block>)
        ensures
            match r {
                Some(block) => self@ == StatementsView::Block(block@),
                None => !(self@ is Block),
            },
    {
        match self {
            Statements::BLOCK(block) => Some(block.duplicate()),
            _ => None,
        }
    }

    /// The export, if the statement is one.
    pub fn get_export(&self) -> (r: Option<Export>)
        ensures
            match r {
                Some(export) => self@ == StatementsView::Export(export@),
                None => !(self@ is Export),
            },
    {
        match self {
            Statements::EXPORT(export) => Some(export.duplicate()),
            _ => None,
        }
    }

    /// The expression statement, if the statement is one.
    pub fn get_expression(&self) -> (r: Option<ExpressionStatement>)
        ensures
            match r {
                Some(expression) => self@ == StatementsView::Expression(expression@),
                None => !(self@ is Expression),
            },
    {
        match self {
            Statements::EXPRESSION(expression) => Some(expression.duplicate()),
            _ => None,
        }
    }

    /// The function declaration, if the statement is one.
    pub fn get_function(&self) -> (r: Option<Function>)
        ensures
            match r {
                Some(function) => self@ == StatementsView::Function(function@),
                None => !(self@ is Function),
            },
    {
        match self {
            Statements::FUNCTION(function) => Some(function.duplicate()),
            _ => None,
        }
    }

    /// The conditional, if the statement is one.
    pub fn get_if_else(&self) -> (r: Option<IfElse>)
        ensures
            match r {
                Some(if_else) => self@ == StatementsView::IfElse(if_else@),
                None => !(self@ is IfElse),
            },
    {
        match self {
            Statements::IFELSE(if_else) => Some(if_else.duplicate()),
            _ => None,
        }
    }

    /// The import, if the statement is one.
    pub fn get_import(&self) -> (r: Option<Import>)
        ensures
            match r {
                Some(import) => self@ == StatementsView::Import(import@),
                None => !(self@ is Import),
            },
    {
        match self {
            Statements::IMPORT(import) => Some(import.duplicate()),
            _ => None,
        }
    }

    /// The interface declaration, if the statement is one.
    pub fn get_interface(&self) -> (r: Option<Interface>)
        ensures
            match r {
                Some(interface) => self@ == StatementsView::Interface(interface@),
                None => !(self@ is Interface),
            },
    {
        match self {
            Statements::INTERFACE(interface) => Some(interface.duplicate()),
            _ => None,
        }
    }

    /// The return statement, if the statement is one.
    pub fn get_return(&self) -> (r: Option<Return>)
        ensures
            match r {
                Some(return_s) => self@ == StatementsView::Return(return_s@),
                None => !(self@ is Return),
            },
    {
        match self {
            Statements::RETURN(return_s) => Some(return_s.duplicate()),
            _ => None,
        }
    }

    /// The variable declaration, if the statement is one.
    pub fn get_variable(&self) -> (r: Option<Variable>)
        ensures
            match r {
                Some(variable) => self@ == StatementsView::Variable(variable@),
                None => !(self@ is Variable),
            },
    {
        match self {
            Statements::VARIABLE(variable) => Some(variable.duplicate()),
            _ => None,
        }
    }

    /// The token the statement was read from.
    pub fn token(&self) -> (r: Token)
        ensures
            r@ == self@.token(),
    {
        match self {
            Statements::BLOCK(block) => block.token.clone(),
            Statements::EXPORT(export) => export.token.clone(),
            Statements::EXPRESSION(expression) => expression.token.clone(),
            Statements::FUNCTION(function) => function.token.clone(),
            Statements::IFELSE(if_else) => if_else.token.clone(),
            Statements::IMPORT(import) => import.token.clone(),
            Statements::INTERFACE(interface) => interface.token.clone(),
            Statements::RETURN(return_s) => return_s.token.clone(),
            Statements::VARIABLE(variable) => variable.token.clone(),
        }
    }

    /// The canonical text of the statement.
    pub fn string(&self) -> (r: String)
        ensures
            r@ == self@.rendering(),
        decreases self,
    {
        match self {
            Statements::BLOCK(block) => block.render(),
            Statements::EXPORT(export) => export.render(),
            Statements::EXPRESSION(exp) => exp.render(),
            Statements::FUNCTION(function) => function.render(),
            Statements::IFELSE(if_else) => if_else.render(),
            Statements::IMPORT(import) => import.render(),
            Statements::INTERFACE(interface) => interface.render(),
            Statements::RETURN(return_s) => return_s.render(),
            Statements::VARIABLE(variable) => variable.render(),
        }
    }
}

// ---------------------------------------------------------------------------
// Views and copies.
// ---------------------------------------------------------------------------
impl View for Block {
    type V = BlockView;

    open spec fn view(&self) -> BlockView {
        self.model()
    }
}

impl Clone for Block {
    fn clone(&self) -> (r: Block)
        ensures
            r@ == self@,
    {
        self.duplicate()
    }
}

impl View for Export {
    type V = ExportView;

    open spec fn view(&self) -> ExportView {
        self.model()
    }
}

impl Clone for Export {
    fn clone(&self) -> (r: Export)
        ensures
            r@ == self@,
    {
        self.duplicate()
    }
}

impl View for ExpressionStatement {
    type V = ExpressionStatementView;

    open spec fn view(&self) -> ExpressionStatementView {
        self.model()
    }
}

impl Clone for ExpressionStatement {
    fn clone(&self) -> (r: ExpressionStatement)
        ensures
            r@ == self@,
    {
        self.duplicate()
    }
}

impl View for Function {
    type V = FunctionView;

    open spec fn view(&self) -> FunctionView {
        self.model()
    }
}

impl Clone for Function {
    fn clone(&self) -> (r: Function)
        ensures
            r@ == self@,
    {
        self.duplicate()
    }
}

impl View for IfElse {
    type V = IfElseView;

    open spec fn view(&self) -> IfElseView {
        self.model()
    }
}

impl Clone for IfElse {
    fn clone(&self) -> (r: IfElse)
        ensures
            r@ == self@,
    {
        self.duplicate()
    }
}

impl View for Import {
    type V = ImportView;

    open spec fn view(&self) -> ImportView {
        self.model()
    }
}

impl Clone for Import {
    fn clone(&self) -> (r: Import)
        ensures
            r@ == self@,
    {
        self.duplicate()
    }
}

impl View for Interface {
    type V = InterfaceView;

    open spec fn view(&self) -> InterfaceView {
        self.model()
    }
}

impl Clone for Interface {
    fn clone(&self) -> (r: Interface)
        ensures
            r@ == self@,
    {
        self.duplicate()
    }
}

impl View for Return {
    type V = ReturnView;

    open spec fn view(&self) -> ReturnView {
        self.model()
    }
}

impl Clone for Return {
    fn clone(&self) -> (r: Return)
        ensures
            r@ == self@,
    {
        self.duplicate()
    }
}

impl View for Variable {
    type V = VariableView;

    open spec fn view(&self) -> VariableView {
        self.model()
    }
}

impl Clone for Variable {
    fn clone(&self) -> (r: Variable)
        ensures
            r@ == self@,
    {
        self.duplicate()
    }
}

impl View for Statements {
    type V = StatementsView;

    open spec fn view(&self) -> StatementsView {
        self.model()
    }
}

impl Clone for Statements {
    fn clone(&self) -> (r: Statements)
        ensures
            r@ == self@,
    {
        self.duplicate()
    }
}

// ---------------------------------------------------------------------------
// What every statement node offers, node by node.
// ---------------------------------------------------------------------------
impl Statement for Block {
    open spec fn token_view(&self) -> TokenView {
        self@.token
    }

    open spec fn rendering(&self) -> Seq<char> {
        self@.rendering()
    }

    open spec fn is_fresh(&self) -> bool {
        self@.statements.len() == 0
    }

    fn new() -> (r: Block) {
        Block::from_token(Token::new_empty())
    }

    fn from_token(token: Token) -> (r: Block) {
        let r = Block { token, statements: Vec::new() };
        assert(r@.statements =~= Seq::empty());
        r
    }

    fn get_token(&self) -> (r: Token) {
        self.token.clone()
    }

    fn string(&self) -> (r: String) {
        self.render()
    }
}

impl Statement for Export {
    open spec fn token_view(&self) -> TokenView {
        self@.token
    }

    open spec fn rendering(&self) -> Seq<char> {
        self@.rendering()
    }

    open spec fn is_fresh(&self) -> bool {
        self@.value is None
    }

    fn new() -> (r: Export) {
        Export::from_token(Token::new_empty())
    }

    fn from_token(token: Token) -> (r: Export) {
        let r = Export { token, value: None };
        r
    }

    fn get_token(&self) -> (r: Token) {
        self.token.clone()
    }

    fn string(&self) -> (r: String) {
        self.render()
    }
}

impl Statement for ExpressionStatement {
    open spec fn token_view(&self) -> TokenView {
        self@.token
    }

    open spec fn rendering(&self) -> Seq<char> {
        self@.rendering()
    }

    open spec fn is_fresh(&self) -> bool {
        self@.expression == (ExpressionsView::Null { token: self@.token })
    }

    fn new() -> (r: ExpressionStatement) {
        ExpressionStatement::from_token(Token::new_empty())
    }

    fn from_token(token: Token) -> (r: ExpressionStatement) {
        let inner = token.clone();
        let r = ExpressionStatement { token, expression: Expressions::NULL { token: inner } };
        r
    }

    fn get_token(&self) -> (r: Token) {
        self.token.clone()
    }

    fn string(&self) -> (r: String) {
        self.render()
    }
}

impl Statement for Function {
    open spec fn token_view(&self) -> TokenView {
        self@.token
    }

    open spec fn rendering(&self) -> Seq<char> {
        self@.rendering()
    }

    open spec fn is_fresh(&self) -> bool {
        &&& self@.name.len() == 0
        &&& self@.parameters.len() == 0
        &&& self@.data_type == Types::VOID
        &&& self@.body == (BlockView { token: self@.token, statements: Seq::empty() })
    }

    fn new() -> (r: Function) {
        Function::from_token(Token::new_empty())
    }

    fn from_token(token: Token) -> (r: Function) {
        let inner = token.clone();
        let r = Function {
            token,
            name: String::new(),
            parameters: Vec::new(),
            data_type: Types::VOID,
            body: Block::from_token(inner),
        };
        assert(r@.parameters =~= Seq::empty());
        assert(r@.body.statements =~= Seq::empty());
        r
    }

    fn get_token(&self) -> (r: Token) {
        self.token.clone()
    }

    fn string(&self) -> (r: String) {
        self.render()
    }
}

impl Statement for IfElse {
    open spec fn token_view(&self) -> TokenView {
        self@.token
    }

    open spec fn rendering(&self) -> Seq<char> {
        self@.rendering()
    }

    open spec fn is_fresh(&self) -> bool {
        &&& self@.condition == (ExpressionsView::Null { token: self@.token })
        &&& self@.consequence == (BlockView { token: self@.token, statements: Seq::empty() })
        &&& self@.alternative is None
    }

    fn new() -> (r: IfElse) {
        IfElse::from_token(Token::new_empty())
    }

    fn from_token(token: Token) -> (r: IfElse) {
        let inner = token.clone();
        let other = token.clone();
        let r = IfElse {
            token,
            condition: Expressions::NULL { token: inner },
            consequence: Block::from_token(other),
            alternative: None,
        };
        assert(r@.consequence.statements =~= Seq::empty());
        r
    }

    fn get_token(&self) -> (r: Token) {
        self.token.clone()
    }

    fn string(&self) -> (r: String) {
        self.render()
    }
}

impl Statement for Import {
    open spec fn token_view(&self) -> TokenView {
        self@.token
    }

    open spec fn rendering(&self) -> Seq<char> {
        self@.rendering()
    }

    open spec fn is_fresh(&self) -> bool {
        self@.path.len() == 0
    }

    fn new() -> (r: Import) {
        Import::from_token(Token::new_empty())
    }

    fn from_token(token: Token) -> (r: Import) {
        let r = Import { token, path: String::new() };
        r
    }

    fn get_token(&self) -> (r: Token) {
        self.token.clone()
    }

    fn string(&self) -> (r: String) {
        self.render()
    }
}

impl Statement for Interface {
    open spec fn token_view(&self) -> TokenView {
        self@.token
    }

    open spec fn rendering(&self) -> Seq<char> {
        self@.rendering()
    }

    open spec fn is_fresh(&self) -> bool {
        self@.name.len() == 0 && self@.members.len() == 0
    }

    fn new() -> (r: Interface) {
        Interface::from_token(Token::new_empty())
    }

    fn from_token(token: Token) -> (r: Interface) {
        let r = Interface { token, name: String::new(), members: Vec::new() };
        r
    }

    fn get_token(&self) -> (r: Token) {
        self.token.clone()
    }

    fn string(&self) -> (r: String) {
        self.render()
    }
}

impl Statement for Return {
    open spec fn token_view(&self) -> TokenView {
        self@.token
    }

    open spec fn rendering(&self) -> Seq<char> {
        self@.rendering()
    }

    open spec fn is_fresh(&self) -> bool {
        self@.value is None
    }

    fn new() -> (r: Return) {
        Return::from_token(Token::new_empty())
    }

    fn from_token(token: Token) -> (r: Return) {
        let r = Return { token, value: None };
        r
    }

    fn get_token(&self) -> (r: Token) {
        self.token.clone()
    }

    fn string(&self) -> (r: String) {
        self.render()
    }
}

impl Statement for Variable {
    open spec fn token_view(&self) -> TokenView {
        self@.token
    }

    open spec fn rendering(&self) -> Seq<char> {
        self@.rendering()
    }

    open spec fn is_fresh(&self) -> bool {
        self@.name.len() == 0 && self@.data_type is None && self@.value is None
    }

    fn new() -> (r: Variable) {
        Variable::from_token(Token::new_empty())
    }

    fn from_token(token: Token) -> (r: Variable) {
        let r = Variable { token, name: String::new(), data_type: None, value: None };
        r
    }

    fn get_token(&self) -> (r: Token) {
        self.token.clone()
    }

    fn string(&self) -> (r: String) {
        self.render()
    }
}

} // verus!
