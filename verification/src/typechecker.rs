//! The statement-level type checker: a pass over the syntax tree that infers
//! a type for each statement or stops at the first static error.

use crate::environment::{Environment, Store, StoreView};
use crate::evaluator::{arithmetic_sign, is_arithmetic, is_relational, relational_sign};
use crate::expressions::{Expressions, ExpressionsView, Infix, InfixKind, InfixView};
use crate::statements::{
    parameter_views, Block, BlockView, Function, Parameter, ParameterView, Statements,
    StatementsView, Variable, VariableView,
};
use crate::text::is_text;
use crate::tokens::{Signs, Token, TokenView, Types};
use crate::types::{named, TTypes, TTypesView};
use vstd::prelude::*;
use vstd::string::*;

verus! {

/// A static error: a message and the token of what it was found at.
#[derive(Debug)]
pub struct TypeError {
    pub message: String,
    pub token: Token,
}

/// The mathematical model of a [`TypeError`].
pub struct TypeErrorView {
    pub message: Seq<char>,
    pub token: TokenView,
}

impl View for TypeError {
    type V = TypeErrorView;

    open spec fn view(&self) -> TypeErrorView {
        TypeErrorView { message: self.message@, token: self.token@ }
    }
}

impl TypeError {
    /// The error with the given message, found at the token.
    pub fn from_token(message: String, token: Token) -> (r: TypeError)
        ensures
            r@ == (TypeErrorView { message: message@, token: token@ }),
    {
        TypeError { message, token }
    }

    /// The message, marked as an error.
    pub fn string(&self) -> (r: String)
        ensures
            r@ == "Error: "@ + self@.message,
    {
        let mut out = String::from_str("Error: ");
        out.append(self.message.as_str());
        out
    }
}

/// What checking a statement comes to: the type or the error, and the
/// bindings of the scope after it.
pub struct Checked {
    pub result: Result<TTypesView, TypeErrorView>,
    pub store: StoreView,
}

/// The model of what a checker returns.
pub open spec fn result_view(result: Result<TTypes, TypeError>) -> Result<
    TTypesView,
    TypeErrorView,
> {
    match result {
        Ok(found) => Ok(found@),
        Err(error) => Err(error@),
    }
}

// ---------------------------------------------------------------------------
// The typing rules.
// ---------------------------------------------------------------------------
/// The error for a statement kind that has no rule.
pub open spec fn unknown_statement(token: TokenView) -> TypeErrorView {
    TypeErrorView { message: "unknown statement."@, token }
}

/// The error for a name that no scope gives a type.
pub open spec fn unknown_name(token: TokenView) -> TypeErrorView {
    TypeErrorView { message: "unknown identifier."@, token }
}

/// The error for an operator that is not defined on the types of its operands.
pub open spec fn unknown_operator(token: TokenView) -> TypeErrorView {
    TypeErrorView { message: "unknown infix."@, token }
}

/// The error for a value whose type is not the declared one.
pub open spec fn mismatched_types(token: TokenView) -> TypeErrorView {
    TypeErrorView { message: "mismatched types."@, token }
}

/// The error for a declaration that gives neither a type nor a value.
pub open spec fn missing_type(token: TokenView) -> TypeErrorView {
    TypeErrorView { message: "missing type."@, token }
}

/// Whether a value of the type can be one that `||` passes over: null, the
/// empty string or `false`.
pub open spec fn may_be_falsy(tag: Types) -> bool {
    tag != Types::NUMBER && tag != Types::FUNCTION
}

/// The type of `||` on operands of the given types, inferred at the token.
///
/// After a null left operand the value is the right one, and so is the type.
/// After a left operand that is never passed over, or that has the type of
/// the right one, the type is the left one. In any other case the value can
/// be either operand: the type is the union of the two, named after both.
pub open spec fn or_type(left: TTypesView, right: TTypesView, token: TokenView) -> TTypesView {
    if left.tag == Types::NULL {
        TTypesView { tag: right.tag, value: right.value, token }
    } else if !may_be_falsy(left.tag) || (left.tag == right.tag && left.tag != Types::UNION) {
        TTypesView { tag: left.tag, value: left.value, token }
    } else {
        TTypesView { tag: Types::UNION, value: left.value + " | "@ + right.value, token }
    }
}

/// The type of an operator other than `||` on operands of the given types,
/// where it is defined: arithmetic on numbers is a number and a comparison of
/// numbers a boolean, `+` with a string is a string, `==` and `!=` are
/// booleans, and `&&` is a boolean of booleans.
pub open spec fn operator_tag(sign: Signs, left: Types, right: Types) -> Option<Types> {
    if left == Types::NUMBER && right == Types::NUMBER && (is_arithmetic(sign) || is_relational(
        sign,
    )) {
        if is_arithmetic(sign) {
            Some(Types::NUMBER)
        } else {
            Some(Types::BOOLEAN)
        }
    } else if sign == Signs::PLUS && (left == Types::STRING || right == Types::STRING) {
        Some(Types::STRING)
    } else if sign == Signs::EQUAL || sign == Signs::NOTEQUAL {
        Some(Types::BOOLEAN)
    } else if sign == Signs::AND && left == Types::BOOLEAN && right == Types::BOOLEAN {
        Some(Types::BOOLEAN)
    } else {
        None
    }
}

/// The type of an operator on operands of the given types, inferred at the
/// token, where the operator is defined on them: `||` is defined on any two
/// operands, the others as [`operator_tag`] says.
pub open spec fn operator_type(
    sign: Option<Signs>,
    left: TTypesView,
    right: TTypesView,
    token: TokenView,
) -> Option<TTypesView> {
    match sign {
        None => None,
        Some(sign) => if sign == Signs::OR {
            Some(or_type(left, right, token))
        } else {
            match operator_tag(sign, left.tag, right.tag) {
                Some(tag) => Some(named(tag, token)),
                None => None,
            }
        },
    }
}

/// The type of the expression under the bindings, or the first error found
/// in it, left operand first.
pub open spec fn expression_type(expression: ExpressionsView, store: StoreView) -> Result<
    TTypesView,
    TypeErrorView,
>
    decreases expression, 0nat,
{
    match expression {
        ExpressionsView::Boolean { token, .. } => Ok(named(Types::BOOLEAN, token)),
        ExpressionsView::Identifier { token } => match store.get_type(token.value) {
            Some(found) => Ok(found),
            None => Err(unknown_name(token)),
        },
        ExpressionsView::Infix(infix) => infix_type(infix, store),
        ExpressionsView::Null { token } => Ok(named(Types::NULL, token)),
        ExpressionsView::Number { token, .. } => Ok(named(Types::NUMBER, token)),
        ExpressionsView::String { token, .. } => Ok(named(Types::STRING, token)),
    }
}

/// The type of the binary node under the bindings.
///
/// `toString` on a number or a boolean is a string; any other member access
/// has the type of its right operand. An operator has the type that
/// [`operator_type`] gives it, inferred at the node's token.
pub open spec fn infix_type(infix: InfixView, store: StoreView) -> Result<
    TTypesView,
    TypeErrorView,
>
    decreases infix, 1nat,
{
    match expression_type(*infix.left, store) {
        Err(error) => Err(error),
        Ok(left) => match infix.kind {
            InfixKind::METHOD => if (left.tag == Types::NUMBER || left.tag == Types::BOOLEAN)
                && infix.right.token().value == "toString"@ {
                Ok(named(Types::STRING, infix.token))
            } else {
                expression_type(*infix.right, store)
            },
            InfixKind::INFIX => match expression_type(*infix.right, store) {
                Err(error) => Err(error),
                Ok(right) => match operator_type(
                    infix.token.token.sign(),
                    left,
                    right,
                    infix.token,
                ) {
                    Some(found) => Ok(found),
                    None => Err(unknown_operator(infix.token)),
                },
            },
            InfixKind::ALIAS => Err(unknown_operator(infix.token)),
        },
    }
}

/// The bindings after each parameter was given its declared type, in order.
pub open spec fn bind_parameters(
    store: StoreView,
    parameters: Seq<ParameterView>,
    token: TokenView,
) -> StoreView
    decreases parameters.len(),
{
    if parameters.len() == 0 {
        store
    } else {
        bind_parameters(store, parameters.drop_last(), token).set_type(
            parameters.last().name,
            named(parameters.last().data_type, token),
        )
    }
}

/// The type of a return statement without a value.
pub open spec fn void_type(token: TokenView) -> TTypesView {
    TTypesView { tag: Types::VOID, value: "void"@, token }
}

/// What checking a declaration of a variable comes to.
///
/// A value is checked, must have the declared type where one is declared,
/// and gives the variable its type. Without a value the declared type is the
/// variable's. The name is bound in the scope only where the check succeeds.
pub open spec fn variable_type(variable: VariableView, store: StoreView) -> Checked {
    match variable.value {
        Some(value) => match expression_type(value, store) {
            Err(error) => Checked { result: Err(error), store },
            Ok(found) => if variable.data_type matches Some(declared) && declared != found.tag {
                Checked { result: Err(mismatched_types(variable.token)), store }
            } else {
                Checked { result: Ok(found), store: store.set_type(variable.name, found) }
            },
        },
        None => match variable.data_type {
            Some(declared) => Checked {
                result: Ok(named(declared, variable.token)),
                store: store.set_type(variable.name, named(declared, variable.token)),
            },
            None => Checked { result: Err(missing_type(variable.token)), store },
        },
    }
}

/// What checking the statements of the block from the `index`-th on comes to,
/// when the one before had the type `last`: the type of the last statement,
/// or the first error.
pub open spec fn sequence_type(block: BlockView, store: StoreView, index: nat, last: TTypesView)
    -> Result<TTypesView, TypeErrorView>
    decreases block, block.statements.len() - index,
{
    if index >= block.statements.len() {
        Ok(last)
    } else {
        let checked = statement_type(block.statements[index as int], store);
        match checked.result {
            Err(error) => Err(error),
            Ok(found) => sequence_type(block, checked.store, index + 1, found),
        }
    }
}

/// The type of the block under the bindings: its statements are checked in
/// order in a new scope in front of a copy of the bindings. An empty block is
/// void.
pub open spec fn block_type(block: BlockView, store: StoreView) -> Result<
    TTypesView,
    TypeErrorView,
>
    decreases block, block.statements.len() + 1,
{
    sequence_type(block, StoreView::nested(store), 0, named(Types::VOID, block.token))
}

/// What checking the statement under the bindings comes to.
///
/// A block, an expression and a return statement leave the bindings as they
/// were. A function binds its name to the function type and checks its body
/// in a scope that binds its parameters. A variable is bound to its type. An
/// export, a conditional, an import and an interface have no rule: they are
/// an error at the statement's token.
pub open spec fn statement_type(statement: StatementsView, store: StoreView) -> Checked
    decreases statement, 0nat,
{
    match statement {
        StatementsView::Block(block) => Checked { result: block_type(block, store), store },
        StatementsView::Expression(expression) => Checked {
            result: expression_type(expression.expression, store),
            store,
        },
        StatementsView::Function(function) => {
            let found = named(Types::FUNCTION, function.token);
            let outer = store.set_type(function.name, found);
            let scope = bind_parameters(
                StoreView::nested(outer),
                function.parameters,
                function.token,
            );
            match block_type(function.body, scope) {
                Err(error) => Checked { result: Err(error), store: outer },
                Ok(_) => Checked { result: Ok(found), store: outer },
            }
        },
        StatementsView::Return(return_s) => match return_s.value {
            Some(value) => Checked { result: expression_type(value, store), store },
            None => Checked { result: Ok(void_type(return_s.token)), store },
        },
        StatementsView::Variable(variable) => variable_type(variable, store),
        _ => Checked { result: Err(unknown_statement(statement.token())), store },
    }
}

/// A statement kind without a rule is always an error at the statement's own
/// token, and binds nothing.
pub proof fn lemma_unknown_statement_is_an_error(statement: StatementsView, store: StoreView)
    requires
        statement is Export || statement is IfElse || statement is Import
            || statement is Interface,
    ensures
        statement_type(statement, store).result == Err::<TTypesView, TypeErrorView>(
            unknown_statement(statement.token()),
        ),
        statement_type(statement, store).store == store,
{
}

// ---------------------------------------------------------------------------
// The checkers.
// ---------------------------------------------------------------------------
fn error(message: &str, token: &Token) -> (r: TypeError)
    ensures
        r@ == (TypeErrorView { message: message@, token: token@ }),
{
    TypeError::from_token(String::from_str(message), token.clone())
}

fn operator(sign: Option<Signs>, left: &TTypes, right: &TTypes, token: Token) -> (r: Option<
    TTypes,
>)
    ensures
        match r {
            Some(found) => operator_type(sign, left@, right@, token@) == Some(found@),
            None => operator_type(sign, left@, right@, token@) is None,
        },
{
    let sign = match sign {
        None => {
            return None;
        },
        Some(sign) => sign,
    };
    if sign == Signs::OR {
        if left.tag == Types::NULL {
            Some(TTypes::new_type(right.tag, right.value.clone(), token))
        } else if left.tag == Types::NUMBER || left.tag == Types::FUNCTION || (left.tag
            == right.tag && left.tag != Types::UNION) {
            Some(TTypes::new_type(left.tag, left.value.clone(), token))
        } else {
            let mut name = left.value.clone();
            name.append(" | ");
            name.append(right.value.as_str());
            Some(TTypes::new_type(Types::UNION, name, token))
        }
    } else if left.tag == Types::NUMBER && right.tag == Types::NUMBER && (arithmetic_sign(sign)
        || relational_sign(sign)) {
        if arithmetic_sign(sign) {
            Some(TTypes::of_tag(Types::NUMBER, token))
        } else {
            Some(TTypes::of_tag(Types::BOOLEAN, token))
        }
    } else if sign == Signs::PLUS && (left.tag == Types::STRING || right.tag == Types::STRING) {
        Some(TTypes::of_tag(Types::STRING, token))
    } else if sign == Signs::EQUAL || sign == Signs::NOTEQUAL {
        Some(TTypes::of_tag(Types::BOOLEAN, token))
    } else if sign == Signs::AND && left.tag == Types::BOOLEAN && right.tag == Types::BOOLEAN {
        Some(TTypes::of_tag(Types::BOOLEAN, token))
    } else {
        None
    }
}

fn infer(expression: &Expressions, store: &Store) -> (r: Result<TTypes, TypeError>)
    ensures
        result_view(r) == expression_type(expression@, store@),
    decreases expression, 0nat,
{
    match expression {
        Expressions::BOOLEAN { token, .. } => Ok(TTypes::of_tag(Types::BOOLEAN, token.clone())),
        Expressions::IDENTIFIER { token } => match store.get_type(&token.value) {
            Some(found) => Ok(found),
            None => Err(error("unknown identifier.", token)),
        },
        Expressions::INFIX(infix) => infer_infix(infix, store),
        Expressions::NULL { token } => Ok(TTypes::of_tag(Types::NULL, token.clone())),
        Expressions::NUMBER { token, .. } => Ok(TTypes::of_tag(Types::NUMBER, token.clone())),
        Expressions::STRING { token, .. } => Ok(TTypes::of_tag(Types::STRING, token.clone())),
    }
}

fn infer_infix(infix: &Infix, store: &Store) -> (r: Result<TTypes, TypeError>)
    ensures
        result_view(r) == infix_type(infix@, store@),
    decreases infix, 1nat,
{
    let left = match infer(&*infix.left, store) {
        Err(error) => {
            return Err(error);
        },
        Ok(left) => left,
    };
    match infix.kind {
        InfixKind::METHOD => {
            if (left.tag == Types::NUMBER || left.tag == Types::BOOLEAN) && is_text(
                &infix.get_right().token().value,
                "toString",
            ) {
                Ok(TTypes::of_tag(Types::STRING, infix.get_token()))
            } else {
                infer(&*infix.right, store)
            }
        },
        InfixKind::INFIX => {
            let right = match infer(&*infix.right, store) {
                Err(error) => {
                    return Err(error);
                },
                Ok(right) => right,
            };
            match operator(infix.token.token.get_sign(), &left, &right, infix.get_token()) {
                Some(found) => Ok(found),
                None => Err(error("unknown infix.", &infix.token)),
            }
        },
        InfixKind::ALIAS => Err(error("unknown infix.", &infix.token)),
    }
}

fn bind(store: &mut Store, parameters: &Vec<Parameter>, token: &Token)
    ensures
        final(store)@ == bind_parameters(old(store)@, parameter_views(parameters@), token@),
{
    let ghost views = parameter_views(parameters@);
    let mut i: usize = 0;
    assert(views.take(0) =~= Seq::<ParameterView>::empty());
    while i < parameters.len()
        invariant
            i <= parameters.len(),
            views == parameter_views(parameters@),
            store@ == bind_parameters(old(store)@, views.take(i as int), token@),
        decreases parameters.len() - i,
    {
        proof {
            assert(views.take(i + 1).drop_last() =~= views.take(i as int));
            assert(views.take(i + 1).last() == parameters[i as int]@);
        }
        store.set_type(
            parameters[i].name.clone(),
            TTypes::of_tag(parameters[i].data_type, token.clone()),
        );
        i = i + 1;
    }
    assert(views.take(parameters.len() as int) =~= views);
}

fn check_variable(variable: &Variable, environment: &mut Environment) -> (r: Result<
    TTypes,
    TypeError,
>)
    ensures
        result_view(r) == variable_type(variable@, old(environment)@.store).result,
        final(environment)@.store == variable_type(variable@, old(environment)@.store).store,
{
    match &variable.value {
        Some(value) => match infer(value, &environment.store) {
            Err(error) => Err(error),
            Ok(found) => {
                let mismatch = match variable.data_type {
                    Some(declared) => declared != found.tag,
                    None => false,
                };
                if mismatch {
                    Err(error("mismatched types.", &variable.token))
                } else {
                    environment.store.set_type(variable.name.clone(), found.clone());
                    Ok(found)
                }
            },
        },
        None => match variable.data_type {
            Some(declared) => {
                let found = TTypes::of_tag(declared, variable.token.clone());
                environment.store.set_type(variable.name.clone(), found.clone());
                Ok(found)
            },
            None => Err(error("missing type.", &variable.token)),
        },
    }
}

fn check_block(block: &Block, store: Store) -> (r: Result<TTypes, TypeError>)
    ensures
        result_view(r) == sequence_type(block@, store@, 0, named(Types::VOID, block@.token)),
    decreases block, block.statements.len() + 1,
{
    let mut scope = Environment::from_store(store);
    let mut last = TTypes::of_tag(Types::VOID, block.token.clone());
    let ghost goal = sequence_type(block@, store@, 0, named(Types::VOID, block@.token));
    let mut i: usize = 0;
    while i < block.statements.len()
        invariant
            i <= block.statements.len(),
            block@.statements.len() == block.statements.len(),
            goal == sequence_type(block@, store@, 0, named(Types::VOID, block@.token)),
            sequence_type(block@, scope@.store, i as nat, last@) == goal,
        decreases block.statements.len() - i,
    {
        proof {
            vstd::std_specs::vec::axiom_vec_index_decreases(block.statements, i as int);
            assert(decreases_to!(*block => block.statements));
            assert(decreases_to!(*block => block.statements[i as int]));
            assert(block@.statements[i as int] == block.statements[i as int]@);
        }
        let ghost before = scope@.store;
        let ghost previous = last@;
        let checked = check_statement(&block.statements[i], &mut scope);
        proof {
            let step = statement_type(block@.statements[i as int], before);
            assert(result_view(checked) == step.result);
            assert(sequence_type(block@, before, i as nat, previous) == match step.result {
                Err(error) => Err(error),
                Ok(found) => sequence_type(block@, step.store, (i + 1) as nat, found),
            });
        }
        match checked {
            Err(error) => {
                return Err(error);
            },
            Ok(found) => {
                last = found;
            },
        }
        i = i + 1;
    }
    Ok(last)
}

fn check_function(function: &Function, environment: &mut Environment) -> (r: Result<
    TTypes,
    TypeError,
>)
    ensures
        result_view(r) == statement_type(
            StatementsView::Function(function@),
            old(environment)@.store,
        ).result,
        final(environment)@.store == statement_type(
            StatementsView::Function(function@),
            old(environment)@.store,
        ).store,
    decreases function, 0nat,
{
    let found = TTypes::of_tag(Types::FUNCTION, function.token.clone());
    environment.store.set_type(function.name.clone(), found.clone());
    let mut scope = Store::from_store(environment.store.duplicate());
    bind(&mut scope, &function.parameters, &function.token);
    match check_block(&function.body, Store::from_store(scope)) {
        Err(error) => Err(error),
        Ok(_) => Ok(found),
    }
}

/// Infers the type of the expression in the environment, or finds the first
/// static error in it. The environment is left as it was.
pub fn check_expression(expression: &Expressions, environment: &mut Environment) -> (r: Result<
    TTypes,
    TypeError,
>)
    ensures
        *final(environment) == *old(environment),
        result_view(r) == expression_type(expression@, old(environment)@.store),
{
    infer(expression, &environment.store)
}

/// Checks the statement in the environment: its type, or the first static
/// error in it, and the bindings it leaves, as [`statement_type`] says.
///
/// An export, a conditional, an import and an interface are never accepted:
/// each is an `unknown statement.` error at the statement's own token.
pub fn check_statement(statement: &Statements, environment: &mut Environment) -> (r: Result<
    TTypes,
    TypeError,
>)
    ensures
        result_view(r) == statement_type(statement@, old(environment)@.store).result,
        final(environment)@.store == statement_type(statement@, old(environment)@.store).store,
        (statement@ is Export || statement@ is IfElse || statement@ is Import
            || statement@ is Interface) ==> result_view(r) == Err::<TTypesView, TypeErrorView>(
            unknown_statement(statement@.token()),
        ),
    decreases statement, 0nat,
{
    match statement {
        Statements::BLOCK(block) => check_block(
            block,
            Store::from_store(environment.store.duplicate()),
        ),
        Statements::EXPRESSION(expression) => infer(&expression.expression, &environment.store),
        Statements::FUNCTION(function) => check_function(function, environment),
        Statements::RETURN(return_s) => match &return_s.value {
            Some(value) => infer(value, &environment.store),
            None => Ok(
                TTypes::new_type(Types::VOID, String::from_str("void"), return_s.token.clone()),
            ),
        },
        Statements::VARIABLE(variable) => check_variable(variable, environment),
        _ => Err(error("unknown statement.", &statement.token())),
    }
}

} // verus!
