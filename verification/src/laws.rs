//! What holds of the evaluator, the objects and the scopes for every input.

use crate::environment::{lemma_get_after_set, EnvironmentView, StoreView};
use crate::evaluator::{
    after_left, after_right, capabilities, decision, eval, eval_infix, is_arithmetic, is_falsy,
    is_primitive, right_scope, spread_items, to_string_name, too_deep, DecisionView,
    Host, RequestView,
};
use crate::expressions::{ExpressionsView, InfixKind, InfixView};
use crate::objects::{same, ItemView, ObjectView};
use crate::tokens::{Signs, TokenView};
use vstd::prelude::*;

verus! {

/// An arithmetic operator between two numbers is never an error of the
/// evaluator: it is asked of the host with the two bit patterns, and the
/// host's answer is the value of the node.
pub proof fn lemma_arithmetic_is_asked_of_the_host(
    infix: InfixView,
    sign: Signs,
    left: ObjectView,
    right: ObjectView,
    host: Host,
)
    requires
        infix.kind == InfixKind::INFIX,
        infix.token.token.sign() == Some(sign),
        is_arithmetic(sign),
        left is Number,
        right is Number,
    ensures
        decision(infix, left, right) == DecisionView::Ask(
            RequestView::Arithmetic { sign, left: left->bits, right: right->bits },
        ),
        after_right(infix, left, right, host) == host(
            RequestView::Arithmetic { sign, left: left->bits, right: right->bits },
        ),
{
}

/// Values of different variants are never equal: there is no coercion in
/// `==`.
pub proof fn lemma_equality_is_within_a_variant(left: ObjectView, right: ObjectView)
    requires
        same(left, right),
    ensures
        left is AnonymousFunction <==> right is AnonymousFunction,
        left is Array <==> right is Array,
        left is Boolean <==> right is Boolean,
        left is Break <==> right is Break,
        left is BuiltIn <==> right is BuiltIn,
        left is Continue <==> right is Continue,
        left is Error <==> right is Error,
        left is ForIn <==> right is ForIn,
        left is ForOf <==> right is ForOf,
        left is HashMap <==> right is HashMap,
        left is Null <==> right is Null,
        left is Number <==> right is Number,
        left is Return <==> right is Return,
        left is String <==> right is String,
{
}

/// An error in the left operand is the value of the node, whatever the right
/// operand is: the right operand has no part in it.
pub proof fn lemma_left_error_ends_the_evaluation(
    infix: InfixView,
    environment: EnvironmentView,
    host: Host,
    depth: nat,
)
    requires
        eval(*infix.left, environment, host, depth) is Error,
    ensures
        eval_infix(infix, environment, host, depth) == eval(
            *infix.left,
            environment,
            host,
            depth,
        ),
{
}

/// An error in the right operand is the value of the node. With `||` this
/// holds for a truthy left value too: both operands are evaluated before the
/// operator looks at either.
pub proof fn lemma_right_error_ends_the_evaluation(
    infix: InfixView,
    environment: EnvironmentView,
    left: ObjectView,
    right: ObjectView,
    host: Host,
    depth: nat,
)
    requires
        !(left is Error),
        right is Error,
        right == eval(
            *infix.right,
            right_scope(infix.kind == InfixKind::METHOD, left.unwrapped(), environment),
            host,
            depth,
        ),
    ensures
        after_left(infix, environment, left, host, depth) == right,
{
}

/// A binary node that stands deeper inside others than the bound allows is
/// an error at its own token, whatever it holds, and nothing of it is
/// evaluated.
pub proof fn lemma_depth_is_bounded(infix: InfixView, environment: EnvironmentView, host: Host)
    ensures
        eval(ExpressionsView::Infix(infix), environment, host, 0) == too_deep(infix.token),
{
}

/// `||` gives its right value for a left value that is null, the empty
/// string or `false`, and its left value for any other.
pub proof fn lemma_or_picks_an_operand(infix: InfixView, left: ObjectView, right: ObjectView)
    requires
        infix.kind == InfixKind::INFIX,
        infix.token.token.sign() == Some(Signs::OR),
    ensures
        decision(infix, left, right) == DecisionView::Value(
            if is_falsy(left) {
                right
            } else {
                left
            },
        ),
{
}

/// `toString` on a number, a boolean or an array is the host's conversion of
/// that value to a string, and nothing else.
pub proof fn lemma_to_string_is_the_builtin(
    infix: InfixView,
    environment: EnvironmentView,
    host: Host,
    depth: nat,
)
    requires
        infix.kind == InfixKind::METHOD,
        !(eval(*infix.left, environment, host, depth) is Error),
        is_primitive(eval(*infix.left, environment, host, depth).unwrapped()),
        infix.right.token().value == to_string_name(),
        !(eval(
            *infix.right,
            right_scope(
                true,
                eval(*infix.left, environment, host, depth).unwrapped(),
                environment,
            ),
            host,
            depth,
        ) is Error),
    ensures
        eval_infix(infix, environment, host, depth) == host(
            RequestView::BuiltIn {
                name: to_string_name(),
                token: infix.token,
                arguments: seq![eval(*infix.left, environment, host, depth).unwrapped()],
            },
        ),
{
}

/// The value that the last of the entries of that name holds.
pub open spec fn last_value(items: Seq<ItemView>, name: Seq<char>) -> Option<ObjectView>
    decreases items.len(),
{
    if items.len() == 0 {
        None
    } else if items.last().key == name {
        Some(items.last().value)
    } else {
        last_value(items.drop_last(), name)
    }
}

/// After entries were bound in a scope, a name of theirs resolves to the
/// last entry of that name, and any other name as it did before.
pub proof fn lemma_spread_resolves(store: StoreView, items: Seq<ItemView>, name: Seq<char>)
    ensures
        spread_items(store, items).get_object(name) == match last_value(items, name) {
            Some(value) => Some(value),
            None => store.get_object(name),
        },
    decreases items.len(),
{
    if items.len() > 0 {
        lemma_spread_resolves(store, items.drop_last(), name);
        lemma_get_after_set(
            spread_items(store, items.drop_last()),
            items.last().key,
            items.last().value,
            name,
        );
    }
}

/// A member of a number, a boolean or an array is resolved in the table that
/// the environment keeps for values of that kind, before any scope of the
/// caller: where the table has the name, its last entry of that name is the
/// value of the member access, whatever the caller's scopes bind the name to.
pub proof fn lemma_member_resolves_in_the_table(
    infix: InfixView,
    environment: EnvironmentView,
    member: TokenView,
    value: ObjectView,
    host: Host,
    depth: nat,
)
    requires
        infix.kind == InfixKind::METHOD,
        !(eval(*infix.left, environment, host, depth) is Error),
        is_primitive(eval(*infix.left, environment, host, depth).unwrapped()),
        *infix.right == (ExpressionsView::Identifier { token: member }),
        member.value != to_string_name(),
        last_value(
            capabilities(eval(*infix.left, environment, host, depth).unwrapped(), environment),
            member.value,
        ) == Some(value),
    ensures
        eval_infix(infix, environment, host, depth) == value.unwrapped(),
{
    let raw = eval(*infix.left, environment, host, depth);
    let left = raw.unwrapped();
    let scope = right_scope(true, left, environment);
    lemma_spread_resolves(
        StoreView::nested(environment.store),
        capabilities(left, environment),
        member.value,
    );
    assert(scope.store.get_object(member.value) == Some(value));
    assert(eval(*infix.right, scope, host, depth) == value);
    assert(after_right(infix, left, value, host) == value.unwrapped());
    assert(after_left(infix, environment, raw, host, depth) == after_right(
        infix,
        left,
        eval(*infix.right, scope, host, depth),
        host,
    ));
}

/// The canonical text of a value is never empty, but for a string, whose
/// text is its characters, and a number, whose text is the one it was made
/// with.
pub proof fn lemma_rendering_is_not_empty(value: ObjectView)
    ensures
        !(value is String || value is Number) ==> value.rendering().len() > 0,
        value matches ObjectView::String(text) ==> value.rendering() == text,
        value matches ObjectView::Number { text, .. } ==> value.rendering() == text,
{
    reveal_strlit("function (");
    reveal_strlit("[");
    reveal_strlit("true");
    reveal_strlit("false");
    reveal_strlit("break");
    reveal_strlit("[builtin ");
    reveal_strlit("continue");
    reveal_strlit("Error: ");
    reveal_strlit("for (");
    reveal_strlit("{ ");
    reveal_strlit("null");
    reveal_strlit("return ");
}

} // verus!
