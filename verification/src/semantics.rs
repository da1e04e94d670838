//! What a predicate means: the outcome of checking an expression, as a function of what
//! the store's evaluator and executor give.

use vstd::prelude::*;
use crate::ast::{Binary, Expression, Unary};
use crate::compare::{compare, first_cells, member};
use crate::context::Frame;
use crate::error::{Error, FilterError};
use crate::store::Store;

verus! {

/// What a check gives for whatever it does not handle.
pub open spec fn unsupported<T, E>() -> Result<T, Error<E>> {
    Err(Error::Filter(FilterError::Unimplemented))
}

/// `NOT` over the outcome of its operand: an error stays as it is.
pub open spec fn negation<E>(inner: Result<bool, Error<E>>) -> Result<bool, Error<E>> {
    match inner {
        Ok(holds) => Ok(!holds),
        Err(error) => Err(error),
    }
}

/// `AND` or `OR` over the outcomes of both sides. Both sides are always checked, the left
/// one first; the first error among them is the outcome.
pub open spec fn connective<E>(op: Binary, left: Result<bool, Error<E>>, right: Result<bool, Error<E>>) -> Result<
    bool,
    Error<E>,
> {
    match (left, right) {
        (Err(error), _) => Err(error),
        (Ok(_), Err(error)) => Err(error),
        (Ok(left), Ok(right)) => Ok(if op is And { left && right } else { left || right }),
    }
}

/// A comparison over the outcomes of evaluating both operands. Both are evaluated before
/// they are compared, the left one first; the first error among them is the outcome.
pub open spec fn comparison<V: PartialEq + PartialOrd, E>(
    op: Binary,
    left: Result<V, Error<E>>,
    right: Result<V, Error<E>>,
) -> Result<bool, Error<E>> {
    match (left, right) {
        (Err(error), _) => Err(error),
        (Ok(_), Err(error)) => Err(error),
        (Ok(left), Ok(right)) => Ok(compare(op, left, right)),
    }
}

/// What each expression of a list evaluates to.
pub open spec fn evaluated_list<S: Store>(storage: &S, context: Seq<Frame<S::Value>>, list: Seq<Expression>) -> Seq<
    Result<S::Value, Error<S::Error>>,
> {
    list.map_values(|item: Expression| storage.evaluated(context, item))
}

/// The candidates of `IN (subquery)`: the first cell of each row that the subquery gives
/// when it runs inside the current frames.
pub open spec fn selected_cells<S: Store>(
    storage: &S,
    context: Seq<Frame<S::Value>>,
    subquery: sqlparser::ast::Query,
) -> Result<Seq<Result<S::Value, Error<S::Error>>>, Error<S::Error>> {
    match storage.selected(subquery, context) {
        Err(error) => Err(error),
        Ok(rows) => Ok(first_cells(rows)),
    }
}

/// `target [NOT] IN (..)` over the outcome of evaluating the target and of getting the
/// candidates it is tested against. The target comes first: where it fails, its error is the
/// outcome; where getting the candidates fails as a whole, that error is.
pub open spec fn membership<V: PartialEq, E>(
    target: Result<V, Error<E>>,
    candidates: Result<Seq<Result<V, Error<E>>>, Error<E>>,
    negated: bool,
) -> Result<bool, Error<E>> {
    match (target, candidates) {
        (Err(error), _) => Err(error),
        (Ok(_), Err(error)) => Err(error),
        (Ok(target), Ok(candidates)) => member(target, candidates, negated),
    }
}

/// Whether a row satisfies a predicate: what `check_expr` decides for the expression under
/// the frames of that row.
pub open spec fn truth<S: Store>(storage: &S, context: Seq<Frame<S::Value>>, expr: Expression) -> Result<
    bool,
    Error<S::Error>,
>
    decreases expr,
{
    match expr {
        Expression::BinaryOp { op, left, right } => match op {
            Binary::And | Binary::Or => connective(
                op,
                truth(storage, context, *left),
                truth(storage, context, *right),
            ),
            Binary::Other(_) => unsupported(),
            _ => comparison(op, storage.evaluated(context, *left), storage.evaluated(context, *right)),
        },
        Expression::UnaryOp { op, expr } => match op {
            Unary::Not => negation(truth(storage, context, *expr)),
            Unary::Other(_) => unsupported(),
        },
        Expression::Nested(inner) => truth(storage, context, *inner),
        Expression::InList { expr, list, negated } => membership(
            storage.evaluated(context, *expr),
            Ok(evaluated_list(storage, context, list@)),
            negated,
        ),
        Expression::InSubquery { expr, subquery, negated } => membership(
            storage.evaluated(context, *expr),
            selected_cells(storage, context, *subquery),
            negated,
        ),
        Expression::Other(_) => unsupported(),
    }
}

/// Whether the filter decides on the node itself: one of the five shapes it knows, with an
/// operator it knows. (For what lies below the node this says nothing.)
pub open spec fn recognized(expr: Expression) -> bool {
    match expr {
        Expression::BinaryOp { op, .. } => !(op is Other),
        Expression::UnaryOp { op, .. } => op is Not,
        Expression::Nested(_) => true,
        Expression::InList { .. } => true,
        Expression::InSubquery { .. } => true,
        Expression::Other(_) => false,
    }
}

} // verus!
