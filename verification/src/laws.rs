//! Laws of name resolution and of the predicate semantics.

use vstd::prelude::*;
use crate::ast::{Binary, Expression, Unary};
use crate::compare::{decision, equal, first_cells, member};
use crate::context::{resolve, resolve_qualified, Frame};
use crate::error::Error;
use crate::semantics::{connective, evaluated_list, negation, truth};
use crate::store::Store;

verus! {

/// In an aligned frame every column is bound: the frame gives a value for a name exactly
/// when the name is one of its columns.
pub proof fn lemma_aligned_frame_binds<V>(frame: Frame<V>, name: Seq<char>)
    requires
        frame.aligned(),
    ensures
        frame.lookup(name) is Some <==> frame.columns.contains(name),
{
    frame.columns.index_of_first_ensures(name);
}

/// Resolution goes through the inner frames first and reaches the outer ones only for a
/// name that none of the inner frames binds.
pub proof fn lemma_resolve_concat<V>(inner: Seq<Frame<V>>, outer: Seq<Frame<V>>, name: Seq<char>)
    ensures
        resolve(inner + outer, name) == match resolve(inner, name) {
            Some(value) => Some(value),
            None => resolve(outer, name),
        },
    decreases inner.len(),
{
    if inner.len() > 0 {
        assert((inner + outer).drop_first() =~= inner.drop_first() + outer);
        lemma_resolve_concat(inner.drop_first(), outer, name);
    }
}

/// Innermost frame first: frames added further out do not change the value of a name that
/// an inner frame already binds, even where they hold a column of the same name.
pub proof fn lemma_inner_binding_wins<V>(inner: Seq<Frame<V>>, outer: Seq<Frame<V>>, name: Seq<char>)
    requires
        resolve(inner, name) is Some,
    ensures
        resolve(inner + outer, name) == resolve(inner, name),
{
    lemma_resolve_concat(inner, outer, name);
}

/// Correlation: a name that the inner frames leave unbound resolves, through them, to what
/// the enclosing chain binds it to.
pub proof fn lemma_outer_binding_visible<V>(inner: Seq<Frame<V>>, outer: Seq<Frame<V>>, name: Seq<char>)
    requires
        resolve(inner, name) is None,
    ensures
        resolve(inner + outer, name) == resolve(outer, name),
{
    lemma_resolve_concat(inner, outer, name);
}

/// The same for qualified names: the outer frames are reached exactly when no inner frame
/// goes by the alias.
pub proof fn lemma_resolve_qualified_concat<V>(
    inner: Seq<Frame<V>>,
    outer: Seq<Frame<V>>,
    alias: Seq<char>,
    name: Seq<char>,
)
    ensures
        resolve_qualified(inner + outer, alias, name) == if exists|i: int|
            0 <= i < inner.len() && inner[i].alias == alias {
            resolve_qualified(inner, alias, name)
        } else {
            resolve_qualified(outer, alias, name)
        },
    decreases inner.len(),
{
    if inner.len() > 0 {
        let rest = inner.drop_first();
        assert((inner + outer).drop_first() =~= rest + outer);
        lemma_resolve_qualified_concat(rest, outer, alias, name);
        if inner[0].alias != alias && exists|i: int| 0 <= i < inner.len() && inner[i].alias == alias {
            let i = choose|i: int| 0 <= i < inner.len() && inner[i].alias == alias;
            assert(rest[i - 1].alias == alias);
        }
    }
}

/// `NOT p` is the negation of `p`: it holds exactly where `p` does not, and fails exactly
/// where `p` fails, with the same error.
pub proof fn lemma_not<S: Store>(storage: &S, context: Seq<Frame<S::Value>>, p: Expression)
    ensures
        truth(storage, context, Expression::UnaryOp { op: Unary::Not, expr: Box::new(p) }) == negation(
            truth(storage, context, p),
        ),
        truth(storage, context, p) matches Ok(holds) ==> truth(
            storage,
            context,
            Expression::UnaryOp { op: Unary::Not, expr: Box::new(p) },
        ) == Ok::<bool, Error<S::Error>>(!holds),
{
}

/// `p AND q` is the conjunction of `p` and `q` where neither fails. Where one fails, so does
/// `p AND q`, with the error of `p` if `p` fails.
pub proof fn lemma_and<S: Store>(storage: &S, context: Seq<Frame<S::Value>>, p: Expression, q: Expression)
    ensures
        truth(
            storage,
            context,
            Expression::BinaryOp { op: Binary::And, left: Box::new(p), right: Box::new(q) },
        ) == connective(Binary::And, truth(storage, context, p), truth(storage, context, q)),
        match (truth(storage, context, p), truth(storage, context, q)) {
            (Ok(left), Ok(right)) => truth(
                storage,
                context,
                Expression::BinaryOp { op: Binary::And, left: Box::new(p), right: Box::new(q) },
            ) == Ok::<bool, Error<S::Error>>(left && right),
            _ => true,
        },
{
}

/// `p OR q` is the disjunction of `p` and `q` where neither fails. Where one fails, so does
/// `p OR q`, with the error of `p` if `p` fails.
pub proof fn lemma_or<S: Store>(storage: &S, context: Seq<Frame<S::Value>>, p: Expression, q: Expression)
    ensures
        truth(
            storage,
            context,
            Expression::BinaryOp { op: Binary::Or, left: Box::new(p), right: Box::new(q) },
        ) == connective(Binary::Or, truth(storage, context, p), truth(storage, context, q)),
        match (truth(storage, context, p), truth(storage, context, q)) {
            (Ok(left), Ok(right)) => truth(
                storage,
                context,
                Expression::BinaryOp { op: Binary::Or, left: Box::new(p), right: Box::new(q) },
            ) == Ok::<bool, Error<S::Error>>(left || right),
            _ => true,
        },
{
}

/// Parentheses change nothing.
pub proof fn lemma_nested<S: Store>(storage: &S, context: Seq<Frame<S::Value>>, p: Expression)
    ensures
        truth(storage, context, Expression::Nested(Box::new(p))) == truth(storage, context, p),
{
}

/// Nothing is in the empty list: where the tested expression evaluates, `IN ()` is false
/// and `NOT IN ()` is true.
pub proof fn lemma_in_empty_list<S: Store>(
    storage: &S,
    context: Seq<Frame<S::Value>>,
    expr: Expression,
    list: Vec<Expression>,
    negated: bool,
)
    requires
        list@.len() == 0,
        storage.evaluated(context, expr) is Ok,
    ensures
        truth(storage, context, Expression::InList { expr: Box::new(expr), list, negated }) == Ok::<
            bool,
            Error<S::Error>,
        >(negated),
{
}

/// A list member equal to the target decides: `IN` is true and `NOT IN` is false, whatever
/// the members after it are, provided that the target and the members before it evaluate.
pub proof fn lemma_in_list_member<S: Store>(
    storage: &S,
    context: Seq<Frame<S::Value>>,
    expr: Expression,
    list: Vec<Expression>,
    negated: bool,
    index: int,
)
    requires
        0 <= index < list@.len(),
        storage.evaluated(context, expr) is Ok,
        storage.evaluated(context, list@[index]) is Ok,
        equal(storage.evaluated(context, expr)->Ok_0, storage.evaluated(context, list@[index])->Ok_0),
        forall|j: int| 0 <= j < index ==> (#[trigger] storage.evaluated(context, list@[j])) is Ok,
    ensures
        truth(storage, context, Expression::InList { expr: Box::new(expr), list, negated }) == Ok::<
            bool,
            Error<S::Error>,
        >(!negated),
{
    let target = storage.evaluated(context, expr)->Ok_0;
    let candidates = evaluated_list(storage, context, list@);
    lemma_member_decided(target, candidates, negated, index);
}

/// Membership is decided by an equal candidate that no failed candidate comes before.
pub proof fn lemma_member_decided<V: PartialEq, E>(
    target: V,
    candidates: Seq<Result<V, Error<E>>>,
    negated: bool,
    index: int,
)
    requires
        0 <= index < candidates.len(),
        candidates[index] is Ok,
        equal(target, candidates[index]->Ok_0),
        forall|j: int| 0 <= j < index ==> (#[trigger] candidates[j]) is Ok,
    ensures
        member(target, candidates, negated) == Ok::<bool, Error<E>>(!negated),
    decreases index,
{
    if decision(target, candidates[0], negated) is None {
        lemma_member_decided(target, candidates.drop_first(), negated, index - 1);
    }
}

/// `IN (subquery)` is `IN (list)` over the first cells of the subquery's rows: where the
/// subquery runs and its rows give, one by one, what the members of a list evaluate to, both
/// tests come out the same.
pub proof fn lemma_in_subquery_as_list<S: Store>(
    storage: &S,
    context: Seq<Frame<S::Value>>,
    expr: Expression,
    subquery: sqlparser::ast::Query,
    list: Vec<Expression>,
    negated: bool,
)
    requires
        storage.selected(subquery, context) is Ok,
        first_cells(storage.selected(subquery, context)->Ok_0) == evaluated_list(storage, context, list@),
    ensures
        truth(
            storage,
            context,
            Expression::InSubquery { expr: Box::new(expr), subquery: Box::new(subquery), negated },
        ) == truth(storage, context, Expression::InList { expr: Box::new(expr), list, negated }),
{
}

} // verus!
