//! The evaluator of expressions.
//!
//! Evaluation walks the tree and never computes in floating point nor runs a
//! native function: where it needs either, it stops and hands the host a
//! [`Request`], keeping what is left to do in a [`Suspended`]. The host
//! answers with a value and [`resume`] goes on from there. What comes out in
//! the end is stated against [`eval`], the meaning of an expression for a
//! host that answers each request as a given function does.

use crate::environment::{Environment, EnvironmentView, Store, StoreView};
use crate::expressions::{Expressions, ExpressionsView, Infix, InfixKind, InfixView};
use crate::numbers::{number_less, numbers_equal};
use crate::objects::{
    item_views, number_of, object_views, same, Boolean, Error, HashItem, ItemView, Null, Number,
    ObjectView, Objects, StringO,
};
use crate::text::is_text;
use crate::tokens::{Signs, Token, TokenView};
use vstd::prelude::*;
use vstd::string::*;

verus! {

/// What evaluation asks of the host.
#[derive(Debug)]
pub enum Request {
    /// The result of the arithmetic operator on two numbers, given by their
    /// bit patterns. The answer is the number that results.
    Arithmetic { sign: Signs, left: u64, right: u64 },
    /// The result of the native function of that name on the arguments.
    BuiltIn { name: String, token: Token, arguments: Vec<Objects> },
}

/// The mathematical model of a [`Request`].
pub enum RequestView {
    Arithmetic { sign: Signs, left: u64, right: u64 },
    BuiltIn { name: Seq<char>, token: TokenView, arguments: Seq<ObjectView> },
}

impl View for Request {
    type V = RequestView;

    open spec fn view(&self) -> RequestView {
        match self {
            Request::Arithmetic { sign, left, right } => RequestView::Arithmetic {
                sign: *sign,
                left: *left,
                right: *right,
            },
            Request::BuiltIn { name, token, arguments } => RequestView::BuiltIn {
                name: name@,
                token: token@,
                arguments: object_views(*arguments),
            },
        }
    }
}

/// A host, as the contracts see it: the answer it gives to each request.
pub type Host = spec_fn(RequestView) -> ObjectView;

/// What an operator makes of two operands: a value, or a question to the host
/// whose answer is the value.
#[derive(Debug)]
pub enum Decision {
    Value(Objects),
    Ask(Request),
}

/// The mathematical model of a [`Decision`].
pub enum DecisionView {
    Value(ObjectView),
    Ask(RequestView),
}

impl View for Decision {
    type V = DecisionView;

    open spec fn view(&self) -> DecisionView {
        match self {
            Decision::Value(value) => DecisionView::Value(value@),
            Decision::Ask(request) => DecisionView::Ask(request@),
        }
    }
}

// ---------------------------------------------------------------------------
// The meaning of an operator.
// ---------------------------------------------------------------------------
/// The error for an operator that is not defined on its operands.
pub open spec fn unknown_infix(infix: InfixView) -> ObjectView {
    ObjectView::Error { message: "Unknown infix: "@ + infix.rendering(), token: infix.token }
}

/// How many binary nodes may stand inside one another: evaluation goes no
/// deeper, so that the depth of its recursion does not depend on its input.
pub const DEPTH_LIMIT: usize = 256;

/// The error for a binary node that stands too deep inside others.
pub open spec fn too_deep(token: TokenView) -> ObjectView {
    ObjectView::Error { message: "Maximum depth exceeded"@, token }
}

/// The error for a name that no scope binds.
pub open spec fn unknown_identifier(token: TokenView) -> ObjectView {
    ObjectView::Error { message: "Identifier not found: "@ + token.value, token }
}

/// The operators whose result on two numbers is a number.
pub open spec fn is_arithmetic(sign: Signs) -> bool {
    match sign {
        Signs::PLUS
        | Signs::MINUS
        | Signs::MULTIPLY
        | Signs::DIVIDE
        | Signs::EMPOWERMENT
        | Signs::CARER
        | Signs::MODULE => true,
        _ => false,
    }
}

/// A value that `||` passes over: null, the empty string and `false`.
pub open spec fn is_falsy(value: ObjectView) -> bool {
    match value {
        ObjectView::Null => true,
        ObjectView::String(text) => text.len() == 0,
        ObjectView::Boolean(value) => !value,
        _ => false,
    }
}

/// A value with methods of its kind: a number, a boolean or an array.
pub open spec fn is_primitive(value: ObjectView) -> bool {
    value is Number || value is Boolean || value is Array
}

/// The operators that compare two numbers.
pub open spec fn is_relational(sign: Signs) -> bool {
    match sign {
        Signs::LESSTHAN
        | Signs::LESSOREQUALTHAN
        | Signs::GREATERTHAN
        | Signs::GREATEROREQUALTHAN
        | Signs::EQUAL
        | Signs::NOTEQUAL => true,
        _ => false,
    }
}

/// What a relational operator says of two numbers, given by their bit
/// patterns.
pub open spec fn comparison(sign: Signs, left: u64, right: u64) -> bool {
    match sign {
        Signs::LESSTHAN => number_less(left, right),
        Signs::LESSOREQUALTHAN => number_less(left, right) || numbers_equal(left, right),
        Signs::GREATERTHAN => number_less(right, left),
        Signs::GREATEROREQUALTHAN => number_less(right, left) || numbers_equal(left, right),
        Signs::EQUAL => numbers_equal(left, right),
        Signs::NOTEQUAL => !numbers_equal(left, right),
        _ => false,
    }
}

/// An arithmetic or relational operator between two numbers: arithmetic is
/// asked of the host, and a comparison is decided on the bit patterns.
pub open spec fn numeric(sign: Signs, left: u64, right: u64) -> DecisionView {
    if is_arithmetic(sign) {
        DecisionView::Ask(RequestView::Arithmetic { sign, left, right })
    } else {
        DecisionView::Value(ObjectView::Boolean(comparison(sign, left, right)))
    }
}

/// An operator that is not arithmetic or a comparison of two numbers: `+`
/// joins the texts if either operand is a string, `==` and `!=` compare the
/// values, `||` gives the right value for a falsy left one and the left one
/// otherwise, `&&` is defined on booleans alone, and nothing else is defined.
pub open spec fn general(infix: InfixView, sign: Option<Signs>, left: ObjectView, right: ObjectView)
    -> ObjectView {
    if sign == Some(Signs::PLUS) && (left is String || right is String) {
        ObjectView::String(left.rendering() + right.rendering())
    } else if sign == Some(Signs::EQUAL) {
        ObjectView::Boolean(same(left, right))
    } else if sign == Some(Signs::NOTEQUAL) {
        ObjectView::Boolean(!same(left, right))
    } else if sign == Some(Signs::OR) {
        if is_falsy(left) {
            right
        } else {
            left
        }
    } else if sign == Some(Signs::AND) && left is Boolean && right is Boolean {
        ObjectView::Boolean(left->Boolean_0 && right->Boolean_0)
    } else {
        unknown_infix(infix)
    }
}

/// What the operator of the node makes of the two values: arithmetic and
/// comparisons of two numbers are [`numeric`], everything else is
/// [`general`].
pub open spec fn operation(infix: InfixView, left: ObjectView, right: ObjectView) -> DecisionView {
    let sign = infix.token.token.sign();
    match (left, right, sign) {
        (
            ObjectView::Number { bits: left_bits, .. },
            ObjectView::Number { bits: right_bits, .. },
            Some(sign),
        ) => if is_arithmetic(sign) || is_relational(sign) {
            numeric(sign, left_bits, right_bits)
        } else {
            DecisionView::Value(general(infix, Some(sign), left, right))
        },
        _ => DecisionView::Value(general(infix, sign, left, right)),
    }
}

/// The name under which the host knows the conversion to a string.
pub open spec fn to_string_name() -> Seq<char> {
    "toString"@
}

/// What a binary node makes of the values of its operands.
///
/// A member access gives the value of its right operand, but for `toString`
/// on a number, a boolean or an array, which is asked of the host with the
/// left value as its argument. An operator gives what [`operation`] says. A
/// node that is neither has no value.
pub open spec fn decision(infix: InfixView, left: ObjectView, right: ObjectView) -> DecisionView {
    match infix.kind {
        InfixKind::METHOD => if is_primitive(left) && infix.right.token().value
            == to_string_name() {
            DecisionView::Ask(
                RequestView::BuiltIn {
                    name: to_string_name(),
                    token: infix.token,
                    arguments: seq![left],
                },
            )
        } else {
            DecisionView::Value(right)
        },
        InfixKind::INFIX => operation(infix, left, right),
        InfixKind::ALIAS => DecisionView::Value(unknown_infix(infix)),
    }
}

// ---------------------------------------------------------------------------
// The scope of a right operand.
// ---------------------------------------------------------------------------
/// The store after each of the named values was bound in it, in order.
pub open spec fn spread_items(store: StoreView, items: Seq<ItemView>) -> StoreView
    decreases items.len(),
{
    if items.len() == 0 {
        store
    } else {
        spread_items(store, items.drop_last()).set_object(items.last().key, items.last().value)
    }
}

/// The entries of the hash map that the environment binds to the name, and
/// none if it binds the name to no hash map.
pub open spec fn capability_table(environment: EnvironmentView, name: Seq<char>) -> Seq<ItemView> {
    match environment.store.get_object(name) {
        Some(ObjectView::HashMap(items)) => items,
        _ => Seq::empty(),
    }
}

/// The methods of a value: the entries of a hash map itself, and for a
/// number, a boolean or an array those of the table that the environment
/// keeps under the name of the kind.
pub open spec fn capabilities(left: ObjectView, environment: EnvironmentView) -> Seq<ItemView> {
    match left {
        ObjectView::HashMap(items) => items,
        ObjectView::Number { .. } => capability_table(environment, "Number"@),
        ObjectView::Boolean(_) => capability_table(environment, "Boolean"@),
        ObjectView::Array(_) => capability_table(environment, "Array"@),
        _ => Seq::empty(),
    }
}

/// The environment in which a right operand is evaluated: a new scope in
/// front of a copy of the caller's, which for a member access binds the
/// methods of the left value.
pub open spec fn right_scope(method: bool, left: ObjectView, environment: EnvironmentView)
    -> EnvironmentView {
    let scope = StoreView::nested(environment.store);
    EnvironmentView {
        store: if method {
            spread_items(scope, capabilities(left, environment))
        } else {
            scope
        },
    }
}

// ---------------------------------------------------------------------------
// The meaning of an expression.
// ---------------------------------------------------------------------------
/// The value or the answer of the host that a decision stands for.
pub open spec fn settle(decision: DecisionView, host: Host) -> ObjectView {
    match decision {
        DecisionView::Value(value) => value,
        DecisionView::Ask(request) => host(request),
    }
}

/// The value of the expression in the environment, for the given host, when
/// binary nodes may stand `depth` deep inside one another: a binary node
/// beyond that depth is an error.
pub open spec fn eval(
    expression: ExpressionsView,
    environment: EnvironmentView,
    host: Host,
    depth: nat,
) -> ObjectView
    decreases expression, 0nat,
{
    match expression {
        ExpressionsView::Boolean { value, .. } => ObjectView::Boolean(value),
        ExpressionsView::Identifier { token } => match environment.store.get_object(token.value) {
            Some(value) => value,
            None => unknown_identifier(token),
        },
        ExpressionsView::Infix(infix) => if depth == 0 {
            too_deep(infix.token)
        } else {
            eval_infix(infix, environment, host, (depth - 1) as nat)
        },
        ExpressionsView::Null { .. } => ObjectView::Null,
        ExpressionsView::Number { token, value, text } => number_of(value, text, token),
        ExpressionsView::String { value, .. } => ObjectView::String(value),
    }
}

/// The value of the binary node in the environment, for the given host, when
/// binary nodes may stand `depth` deep inside its operands.
pub open spec fn eval_infix(
    infix: InfixView,
    environment: EnvironmentView,
    host: Host,
    depth: nat,
) -> ObjectView
    decreases infix, 2nat,
{
    after_left(infix, environment, eval(*infix.left, environment, host, depth), host, depth)
}

/// The value of the node, given what its left operand came to. An error ends
/// the evaluation there; a returned value counts as what it carries.
pub open spec fn after_left(
    infix: InfixView,
    environment: EnvironmentView,
    left: ObjectView,
    host: Host,
    depth: nat,
) -> ObjectView
    decreases infix, 1nat,
{
    if left is Error {
        left
    } else {
        after_right(
            infix,
            left.unwrapped(),
            eval(
                *infix.right,
                right_scope(infix.kind == InfixKind::METHOD, left.unwrapped(), environment),
                host,
                depth,
            ),
            host,
        )
    }
}

/// The value of the node, given its left value and what its right operand
/// came to. An error ends the evaluation there; a returned value counts as
/// what it carries.
pub open spec fn after_right(infix: InfixView, left: ObjectView, right: ObjectView, host: Host)
    -> ObjectView {
    if right is Error {
        right
    } else {
        settle(decision(infix, left, right.unwrapped()), host)
    }
}

// ---------------------------------------------------------------------------
// Evaluations that wait for the host.
// ---------------------------------------------------------------------------
/// A binary node that waits for the value of one of its operands.
#[derive(Debug)]
pub enum Frame<'a> {
    /// Waits for its left operand, to go on in the environment, with binary
    /// nodes `depth` deep inside its right operand.
    Left { infix: &'a Infix, environment: Environment, depth: usize },
    /// Waits for its right operand, with the left value at hand.
    Right { infix: &'a Infix, left: Objects },
}

/// The mathematical model of a [`Frame`].
pub enum FrameView {
    Left { infix: InfixView, environment: EnvironmentView, depth: nat },
    Right { infix: InfixView, left: ObjectView },
}

impl<'a> View for Frame<'a> {
    type V = FrameView;

    open spec fn view(&self) -> FrameView {
        match self {
            Frame::Left { infix, environment, depth } => FrameView::Left {
                infix: infix@,
                environment: environment@,
                depth: *depth as nat,
            },
            Frame::Right { infix, left } => FrameView::Right { infix: infix@, left: left@ },
        }
    }
}

/// The models of the frames, in order.
pub open spec fn frame_views<'a>(frames: Seq<Frame<'a>>) -> Seq<FrameView> {
    Seq::new(frames.len(), |i: int| frames[i]@)
}

/// What a frame makes of the value it waited for.
pub open spec fn apply_frame(frame: FrameView, value: ObjectView, host: Host) -> ObjectView {
    match frame {
        FrameView::Left { infix, environment, depth } => after_left(
            infix,
            environment,
            value,
            host,
            depth,
        ),
        FrameView::Right { infix, left } => after_right(infix, left, value, host),
    }
}

/// What the frames make of a value, from the first, which waits for it, to
/// the last, whose value is the result.
pub open spec fn finish(frames: Seq<FrameView>, value: ObjectView, host: Host) -> ObjectView
    decreases frames.len(),
{
    if frames.len() == 0 {
        value
    } else {
        finish(frames.drop_first(), apply_frame(frames[0], value, host), host)
    }
}

/// One frame more at the end is applied to what the others make of the value.
pub proof fn lemma_finish_push(
    frames: Seq<FrameView>,
    frame: FrameView,
    value: ObjectView,
    host: Host,
)
    ensures
        finish(frames.push(frame), value, host) == apply_frame(
            frame,
            finish(frames, value, host),
            host,
        ),
    decreases frames.len(),
{
    let all = frames.push(frame);
    if frames.len() == 0 {
        assert(all.drop_first() =~= Seq::<FrameView>::empty());
        assert(finish(all.drop_first(), apply_frame(frame, value, host), host) == apply_frame(
            frame,
            value,
            host,
        ));
    } else {
        assert(all.drop_first() =~= frames.drop_first().push(frame));
        lemma_finish_push(frames.drop_first(), frame, apply_frame(frames[0], value, host), host);
    }
}

/// Frames behind others are applied to what the others make of the value.
pub proof fn lemma_finish_concat(
    first: Seq<FrameView>,
    second: Seq<FrameView>,
    value: ObjectView,
    host: Host,
)
    ensures
        finish(first + second, value, host) == finish(second, finish(first, value, host), host),
    decreases first.len(),
{
    if first.len() == 0 {
        assert(first + second =~= second);
    } else {
        assert((first + second).drop_first() =~= first.drop_first() + second);
        lemma_finish_concat(
            first.drop_first(),
            second,
            apply_frame(first[0], value, host),
            host,
        );
    }
}

/// What is left to do of an evaluation that waits for the host.
#[derive(Debug)]
pub struct Suspended<'a> {
    frames: Vec<Frame<'a>>,
}

impl<'a> View for Suspended<'a> {
    type V = Seq<FrameView>;

    closed spec fn view(&self) -> Seq<FrameView> {
        frame_views(self.frames@)
    }
}

/// How far an evaluation came: to its value, or to a request with what is
/// left to do once the host has answered it.
#[derive(Debug)]
pub enum Progress<'a> {
    Finished(Objects),
    Pending(Request, Suspended<'a>),
}

impl<'a> Progress<'a> {
    /// The value the evaluation ends with, for the given host.
    pub open spec fn outcome(&self, host: Host) -> ObjectView {
        match self {
            Progress::Finished(value) => value@,
            Progress::Pending(request, suspended) => finish(suspended@, host(request@), host),
        }
    }
}

// ---------------------------------------------------------------------------
// The operators, executed.
// ---------------------------------------------------------------------------
fn unknown(infix: &Infix) -> (r: Objects)
    ensures
        r@ == unknown_infix(infix@),
{
    let mut message = String::from_str("Unknown infix: ");
    message.append(infix.string().as_str());
    Error::new(message, infix.get_token())
}

pub(crate) fn arithmetic_sign(sign: Signs) -> (r: bool)
    ensures
        r == is_arithmetic(sign),
{
    match sign {
        Signs::PLUS
        | Signs::MINUS
        | Signs::MULTIPLY
        | Signs::DIVIDE
        | Signs::EMPOWERMENT
        | Signs::CARER
        | Signs::MODULE => true,
        _ => false,
    }
}

pub(crate) fn relational_sign(sign: Signs) -> (r: bool)
    ensures
        r == is_relational(sign),
{
    match sign {
        Signs::LESSTHAN
        | Signs::LESSOREQUALTHAN
        | Signs::GREATERTHAN
        | Signs::GREATEROREQUALTHAN
        | Signs::EQUAL
        | Signs::NOTEQUAL => true,
        _ => false,
    }
}

fn compare(sign: Signs, left: u64, right: u64) -> (r: bool)
    ensures
        r == comparison(sign, left, right),
{
    match sign {
        Signs::LESSTHAN => crate::numbers::less(left, right),
        Signs::LESSOREQUALTHAN => crate::numbers::less(left, right) || crate::numbers::equal(
            left,
            right,
        ),
        Signs::GREATERTHAN => crate::numbers::less(right, left),
        Signs::GREATEROREQUALTHAN => crate::numbers::less(right, left) || crate::numbers::equal(
            left,
            right,
        ),
        Signs::EQUAL => crate::numbers::equal(left, right),
        Signs::NOTEQUAL => !crate::numbers::equal(left, right),
        _ => false,
    }
}

fn decide_numbers(sign: Signs, left: u64, right: u64) -> (r: Decision)
    ensures
        r@ == numeric(sign, left, right),
{
    if arithmetic_sign(sign) {
        Decision::Ask(Request::Arithmetic { sign, left, right })
    } else {
        Decision::Value(Boolean::new(compare(sign, left, right)))
    }
}

fn falsy(value: &Objects) -> (r: bool)
    ensures
        r == is_falsy(value@),
{
    match value {
        Objects::NULL(_) => true,
        Objects::STRING(string) => string.value.as_str().is_empty(),
        Objects::BOOLEAN(boolean) => !boolean.value,
        _ => false,
    }
}

fn decide_values(infix: &Infix, sign: Option<Signs>, left: Objects, right: Objects) -> (r: Objects)
    ensures
        r@ == general(infix@, sign, left@, right@),
{
    let plus = match sign {
        Some(Signs::PLUS) => true,
        _ => false,
    };
    let equal = match sign {
        Some(Signs::EQUAL) => true,
        _ => false,
    };
    let not_equal = match sign {
        Some(Signs::NOTEQUAL) => true,
        _ => false,
    };
    let or = match sign {
        Some(Signs::OR) => true,
        _ => false,
    };
    let and = match sign {
        Some(Signs::AND) => true,
        _ => false,
    };
    let left_string = match &left {
        Objects::STRING(_) => true,
        _ => false,
    };
    let right_string = match &right {
        Objects::STRING(_) => true,
        _ => false,
    };
    if plus && (left_string || right_string) {
        let mut text = left.string();
        text.append(right.string().as_str());
        StringO::new(text)
    } else if equal {
        Boolean::new(left.equals(&right))
    } else if not_equal {
        Boolean::new(!left.equals(&right))
    } else if or {
        if falsy(&left) {
            right
        } else {
            left
        }
    } else {
        if and {
            match (&left, &right) {
                (Objects::BOOLEAN(a), Objects::BOOLEAN(b)) => {
                    return Boolean::new(a.value && b.value);
                },
                _ => {},
            }
        }
        unknown(infix)
    }
}

fn operate(infix: &Infix, left: Objects, right: Objects) -> (r: Decision)
    ensures
        r@ == operation(infix@, left@, right@),
{
    let sign = infix.token.token.get_sign();
    match (&left, &right, sign) {
        (Objects::NUMBER(a), Objects::NUMBER(b), Some(sign)) => {
            if arithmetic_sign(sign) || relational_sign(sign) {
                return decide_numbers(sign, a.get_value(), b.get_value());
            }
        },
        _ => {},
    }
    Decision::Value(decide_values(infix, sign, left, right))
}

/// What the binary node makes of the values of its operands: a value, or a
/// request whose answer is the value.
pub fn decide(infix: &Infix, left: Objects, right: Objects) -> (r: Decision)
    ensures
        r@ == decision(infix@, left@, right@),
{
    match infix.kind {
        InfixKind::METHOD => {
            let primitive = match &left {
                Objects::NUMBER(_) => true,
                Objects::BOOLEAN(_) => true,
                Objects::ARRAY(_) => true,
                _ => false,
            };
            if primitive && is_text(&infix.get_right().token().value, "toString") {
                let ghost argument = left@;
                let mut arguments: Vec<Objects> = Vec::new();
                arguments.push(left);
                proof {
                    assert(object_views(arguments) =~= seq![argument]);
                }
                Decision::Ask(
                    Request::BuiltIn {
                        name: String::from_str("toString"),
                        token: infix.get_token(),
                        arguments,
                    },
                )
            } else {
                Decision::Value(right)
            }
        },
        InfixKind::INFIX => operate(infix, left, right),
        InfixKind::ALIAS => Decision::Value(unknown(infix)),
    }
}

// ---------------------------------------------------------------------------
// The scope of a right operand, executed.
// ---------------------------------------------------------------------------
fn spread(store: &mut Store, items: &Vec<HashItem>)
    ensures
        final(store)@ == spread_items(old(store)@, item_views(*items)),
{
    let ghost views = item_views(*items);
    let mut i: usize = 0;
    assert(views.take(0) =~= Seq::<ItemView>::empty());
    while i < items.len()
        invariant
            i <= items.len(),
            views == item_views(*items),
            store@ == spread_items(old(store)@, views.take(i as int)),
        decreases items.len() - i,
    {
        proof {
            assert(views.take(i + 1).drop_last() =~= views.take(i as int));
            assert(views.take(i + 1).last() == items[i as int]@);
        }
        store.set_object(items[i].key.clone(), items[i].value.duplicate());
        i = i + 1;
    }
    assert(views.take(items.len() as int) =~= views);
}

fn spread_table(store: &mut Store, environment: &Environment, name: &str)
    ensures
        final(store)@ == spread_items(old(store)@, capability_table(environment@, name@)),
{
    match environment.store.get_object(&String::from_str(name)) {
        Some(Objects::HASHMAP(table)) => {
            spread(store, table.get_data());
        },
        _ => {},
    }
}

fn right_environment(method: bool, left: &Objects, environment: &Environment) -> (r: Environment)
    ensures
        r@ == right_scope(method, left@, environment@),
{
    let mut store = Store::from_store(environment.store.duplicate());
    if method {
        match left {
            Objects::HASHMAP(hashmap) => {
                spread(&mut store, hashmap.get_data());
            },
            Objects::NUMBER(_) => {
                spread_table(&mut store, environment, "Number");
            },
            Objects::BOOLEAN(_) => {
                spread_table(&mut store, environment, "Boolean");
            },
            Objects::ARRAY(_) => {
                spread_table(&mut store, environment, "Array");
            },
            _ => {},
        }
    }
    Environment::from_store(store)
}

// ---------------------------------------------------------------------------
// Evaluation.
// ---------------------------------------------------------------------------
fn too_deep_error(infix: &Infix) -> (r: Objects)
    ensures
        r@ == too_deep(infix@.token),
{
    Error::new(String::from_str("Maximum depth exceeded"), infix.get_token())
}

fn run<'a>(expression: &'a Expressions, environment: &Environment, depth: usize) -> (p: Progress<
    'a,
>)
    ensures
        forall|host: Host| #[trigger]
            p.outcome(host) == eval(expression@, environment@, host, depth as nat),
    decreases expression, 0nat,
{
    match expression {
        Expressions::BOOLEAN { value, .. } => Progress::Finished(Boolean::new(*value)),
        Expressions::IDENTIFIER { token } => match environment.store.get_object(&token.value) {
            Some(value) => Progress::Finished(value),
            None => {
                let mut message = String::from_str("Identifier not found: ");
                message.append(token.value.as_str());
                Progress::Finished(Error::new(message, token.clone()))
            },
        },
        Expressions::INFIX(infix) => if depth == 0 {
            Progress::Finished(too_deep_error(infix))
        } else {
            run_infix(infix, environment, depth - 1)
        },
        Expressions::NULL { .. } => Progress::Finished(Null::new()),
        Expressions::NUMBER { token, value, text } => Progress::Finished(
            Number::from_literal(*value, text.clone(), token.clone()),
        ),
        Expressions::STRING { value, .. } => Progress::Finished(StringO::new(value.clone())),
    }
}

fn run_infix<'a>(infix: &'a Infix, environment: &Environment, depth: usize) -> (p: Progress<
    'a,
>)
    ensures
        forall|host: Host| #[trigger]
            p.outcome(host) == eval_infix(infix@, environment@, host, depth as nat),
    decreases infix, 2nat,
{
    let left = run(&*infix.left, environment, depth);
    match left {
        Progress::Finished(value) => {
            let p = continue_left(infix, environment, value, depth);
            proof {
                assert forall|host: Host| #[trigger]
                    p.outcome(host) == eval_infix(infix@, environment@, host, depth as nat) by {
                    assert(left.outcome(host) == value@);
                }
            }
            p
        },
        Progress::Pending(request, suspended) => {
            let ghost inner = suspended@;
            let frame = Frame::Left { infix, environment: environment.duplicate(), depth };
            let mut frames = suspended.frames;
            frames.push(frame);
            let p = Progress::Pending(request, Suspended { frames });
            proof {
                assert(p->Pending_1@ =~= inner.push(frame@));
                assert forall|host: Host| #[trigger]
                    p.outcome(host) == eval_infix(infix@, environment@, host, depth as nat) by {
                    lemma_finish_push(inner, frame@, host(request@), host);
                    assert(left.outcome(host) == finish(inner, host(request@), host));
                    assert(apply_frame(frame@, left.outcome(host), host) == after_left(
                        infix@,
                        environment@,
                        left.outcome(host),
                        host,
                        depth as nat,
                    ));
                }
            }
            p
        },
    }
}

fn continue_left<'a>(
    infix: &'a Infix,
    environment: &Environment,
    left: Objects,
    depth: usize,
) -> (p: Progress<'a>)
    ensures
        forall|host: Host| #[trigger]
            p.outcome(host) == after_left(infix@, environment@, left@, host, depth as nat),
    decreases infix, 1nat,
{
    let ghost raw = left@;
    if left.is_error() {
        return Progress::Finished(left);
    }
    let left = left.unwrap_return();
    let ghost value = left@;
    let scope = right_environment(infix.is_method(), &left, environment);
    let right = run(&*infix.right, &scope, depth);
    match right {
        Progress::Finished(other) => {
            let p = continue_right(infix, left, other);
            proof {
                assert forall|host: Host| #[trigger]
                    p.outcome(host) == after_left(infix@, environment@, raw, host, depth as nat) by {
                    assert(right.outcome(host) == other@);
                    assert(p.outcome(host) == after_right(infix@, value, other@, host));
                }
            }
            p
        },
        Progress::Pending(request, suspended) => {
            let ghost inner = suspended@;
            let frame = Frame::Right { infix, left };
            let mut frames = suspended.frames;
            frames.push(frame);
            let p = Progress::Pending(request, Suspended { frames });
            proof {
                assert(p->Pending_1@ =~= inner.push(frame@));
                assert forall|host: Host| #[trigger]
                    p.outcome(host) == after_left(infix@, environment@, raw, host, depth as nat) by {
                    lemma_finish_push(inner, frame@, host(request@), host);
                    assert(right.outcome(host) == finish(inner, host(request@), host));
                    assert(apply_frame(frame@, right.outcome(host), host) == after_right(
                        infix@,
                        value,
                        right.outcome(host),
                        host,
                    ));
                }
            }
            p
        },
    }
}

fn continue_right<'a>(infix: &'a Infix, left: Objects, right: Objects) -> (p: Progress<'a>)
    ensures
        forall|host: Host| #[trigger] p.outcome(host) == after_right(infix@, left@, right@, host),
{
    if right.is_error() {
        return Progress::Finished(right);
    }
    let right = right.unwrap_return();
    match decide(infix, left, right) {
        Decision::Value(value) => Progress::Finished(value),
        Decision::Ask(request) => {
            let p = Progress::Pending(request, Suspended { frames: Vec::new() });
            proof {
                assert(p->Pending_1@ =~= Seq::<FrameView>::empty());
            }
            p
        },
    }
}

/// Evaluates the expression in the environment, as far as it goes without
/// the host.
///
/// Whatever the host answers to the requests, the evaluation ends with the
/// value that [`eval`] gives the expression for that host, with binary nodes
/// at most [`DEPTH_LIMIT`] deep inside one another. The environment is left
/// as it was: what a nested scope binds never reaches the caller.
pub fn evaluate_expression<'a>(expression: &'a Expressions, environment: &mut Environment) -> (p:
    Progress<'a>)
    ensures
        *final(environment) == *old(environment),
        forall|host: Host| #[trigger]
            p.outcome(host) == eval(expression@, old(environment)@, host, DEPTH_LIMIT as nat),
{
    run(expression, environment, DEPTH_LIMIT)
}

/// Evaluates the binary node in the environment, as far as it goes without
/// the host.
///
/// The left operand is evaluated in the environment. If it comes to an error,
/// that is the result and the right operand is never looked at. The right
/// operand is evaluated in a new scope in front of a copy of the
/// environment, and [`decision`] then says what the node makes of the two
/// values. The environment is left as it was.
pub fn evaluate<'a>(infix: &'a Infix, environment: &mut Environment) -> (p: Progress<'a>)
    ensures
        *final(environment) == *old(environment),
        forall|host: Host| #[trigger]
            p.outcome(host) == eval_infix(infix@, old(environment)@, host, DEPTH_LIMIT as nat),
{
    run_infix(infix, environment, DEPTH_LIMIT)
}

/// Goes on with a suspended evaluation, given the host's answer to its
/// request, as far as it goes without the host.
pub fn resume<'a>(suspended: Suspended<'a>, answer: Objects) -> (p: Progress<'a>)
    ensures
        forall|host: Host| #[trigger] p.outcome(host) == finish(suspended@, answer@, host),
{
    let mut frames = suspended.frames;
    let mut value = answer;
    while frames.len() > 0
        invariant
            forall|host: Host| #[trigger]
                finish(frame_views(frames@), value@, host) == finish(
                    suspended@,
                    answer@,
                    host,
                ),
        decreases frames.len(),
    {
        let ghost waiting = frame_views(frames@);
        let ghost before = value@;
        let frame = frames.remove(0);
        proof {
            assert(frame_views(frames@) =~= waiting.drop_first());
            assert(frame@ == waiting[0]);
        }
        let step = match frame {
            Frame::Left { infix, environment, depth } => continue_left(
                infix,
                &environment,
                value,
                depth,
            ),
            Frame::Right { infix, left } => continue_right(infix, left, value),
        };
        proof {
            assert forall|host: Host| #[trigger]
                step.outcome(host) == apply_frame(waiting[0], before, host) by {}
        }
        match step {
            Progress::Finished(next) => {
                proof {
                    assert forall|host: Host| #[trigger]
                        finish(frame_views(frames@), next@, host) == finish(
                            suspended@,
                            answer@,
                            host,
                        ) by {
                        assert(step.outcome(host) == next@);
                        assert(finish(waiting, before, host) == finish(
                            suspended@,
                            answer@,
                            host,
                        ));
                    }
                }
                value = next;
            },
            Progress::Pending(request, inner) => {
                let ghost first = inner@;
                let ghost rest = frame_views(frames@);
                let mut all = inner.frames;
                all.append(&mut frames);
                let p = Progress::Pending(request, Suspended { frames: all });
                proof {
                    assert forall|host: Host| #[trigger]
                        p.outcome(host) == finish(suspended@, answer@, host) by {
                        assert(p->Pending_1@ =~= first + rest);
                        lemma_finish_concat(first, rest, host(request@), host);
                        assert(step.outcome(host) == finish(first, host(request@), host));
                        assert(finish(waiting, before, host) == finish(
                            suspended@,
                            answer@,
                            host,
                        ));
                    }
                }
                return p;
            },
        }
    }
    proof {
        assert(frame_views(frames@) =~= Seq::<FrameView>::empty());
        assert forall|host: Host| #[trigger]
            Progress::Finished(value).outcome(host) == finish(suspended@, answer@, host) by {
            assert(finish(frame_views(frames@), value@, host) == value@);
        }
    }
    Progress::Finished(value)
}

} // verus!
