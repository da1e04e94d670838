//! Checking a predicate, and the filters built on that.

use vstd::prelude::*;
use crate::ast::{Binary, Expression, Unary};
use crate::compare::{check_in_rows, comparable, compare_values, decide, decision, lemma_member_skip, member};
use crate::context::{frame_of, frames, joined, BlendContext, FilterContext, Frame};
pub use crate::error::{Error, FilterError};
use crate::row::Row;
use crate::semantics::{evaluated_list, recognized, truth, unsupported};
use crate::store::Store;

verus! {

/// Tests `target` for membership in a list of expressions. The expressions are evaluated in
/// order, and only as far as the first one that fails or is equal to the target.
fn check_in_list<S: Store>(
    storage: &S,
    filter_context: &FilterContext<'_, S::Value>,
    target: &S::Value,
    list: &Vec<Expression>,
    negated: bool,
) -> (found: Result<bool, Error<S::Error>>)
    ensures
        comparable::<S::Value>() ==> found == member(
            *target,
            evaluated_list(storage, filter_context@, list@),
            negated,
        ),
{
    let ghost candidates = evaluated_list(storage, filter_context@, list@);
    let mut index: usize = 0;
    while index < list.len()
        invariant
            index <= list@.len(),
            candidates == evaluated_list(storage, filter_context@, list@),
            comparable::<S::Value>() ==> forall|j: int|
                0 <= j < index ==> decision(*target, #[trigger] candidates[j], negated) is None,
        decreases list@.len() - index,
    {
        let candidate = storage.evaluate(filter_context, &list[index]);
        if let Some(outcome) = decide(target, candidate, negated) {
            proof {
                if comparable::<S::Value>() {
                    lemma_member_skip(*target, candidates, negated, index as int);
                }
            }
            return outcome;
        }
        index += 1;
    }
    proof {
        if comparable::<S::Value>() {
            lemma_member_skip(*target, candidates, negated, candidates.len() as int);
        }
    }
    Ok(negated)
}

/// Decides whether the row bound by `filter_context` satisfies `expr`.
///
/// Scalar operands go to the store's evaluator, a subquery to its executor together with
/// the current frames; their errors come back unchanged. A node or an operator that
/// the filter does not handle gives `FilterError::Unimplemented`.
pub fn check_expr<S: Store>(storage: &S, filter_context: &FilterContext<'_, S::Value>, expr: &Expression) -> (holds:
    Result<bool, Error<S::Error>>)
    ensures
        comparable::<S::Value>() ==> holds == truth(storage, filter_context@, *expr),
        !recognized(*expr) ==> holds == unsupported::<bool, S::Error>(),
    decreases *expr,
{
    match expr {
        Expression::BinaryOp { op, left, right } => match op {
            Binary::And => {
                let left = check_expr(storage, filter_context, left)?;
                let right = check_expr(storage, filter_context, right)?;
                Ok(left && right)
            },
            Binary::Or => {
                let left = check_expr(storage, filter_context, left)?;
                let right = check_expr(storage, filter_context, right)?;
                Ok(left || right)
            },
            Binary::Other(_) => Err(Error::Filter(FilterError::Unimplemented)),
            _ => {
                let left = storage.evaluate(filter_context, left)?;
                let right = storage.evaluate(filter_context, right)?;
                Ok(compare_values(op, &left, &right))
            },
        },
        Expression::UnaryOp { op, expr } => match op {
            Unary::Not => {
                let inner = check_expr(storage, filter_context, expr)?;
                Ok(!inner)
            },
            Unary::Other(_) => Err(Error::Filter(FilterError::Unimplemented)),
        },
        Expression::Nested(inner) => check_expr(storage, filter_context, inner),
        Expression::InList { expr, list, negated } => {
            let target = storage.evaluate(filter_context, expr)?;
            check_in_list(storage, filter_context, &target, list, *negated)
        },
        Expression::InSubquery { expr, subquery, negated } => {
            let target = storage.evaluate(filter_context, expr)?;
            let rows = storage.select(subquery, Some(filter_context))?;
            check_in_rows(&target, rows, *negated)
        },
        Expression::Other(_) => Err(Error::Filter(FilterError::Unimplemented)),
    }
}

/// Wrapping the first level of a join and going on with the rest gives the same chain as
/// wrapping all its levels.
proof fn lemma_joined_step<V>(level: Frame<V>, rest: Seq<Frame<V>>, outer: Seq<Frame<V>>)
    ensures
        joined(seq![level] + rest, outer) == joined(rest, seq![level] + outer),
{
    assert((seq![level] + rest).reverse() =~= rest.reverse() + seq![level]);
}

/// Decides whether joined rows satisfy `expr`.
///
/// The levels of the join are wrapped one by one, from `blend_context` along its links,
/// each in a frame around those wrapped before and around `filter_context`; the predicate
/// is then checked in the innermost frame.
pub fn check_blended_expr<S: Store>(
    storage: &S,
    filter_context: Option<&FilterContext<'_, S::Value>>,
    blend_context: &BlendContext<'_, S::Value>,
    expr: &Expression,
) -> (holds: Result<bool, Error<S::Error>>)
    ensures
        comparable::<S::Value>() ==> holds == truth(
            storage,
            joined(blend_context@, frames(filter_context)),
            *expr,
        ),
        !recognized(*expr) ==> holds == unsupported::<bool, S::Error>(),
    decreases blend_context,
{
    let ghost outer = frames(filter_context);
    let filter_context = FilterContext::new(
        blend_context.table_alias,
        blend_context.columns,
        &blend_context.row,
        filter_context,
    );
    proof {
        let level = frame_of(blend_context.table_alias@, blend_context.columns@, blend_context.row@);
        let rest = match blend_context.next {
            Some(next) => next@,
            None => Seq::empty(),
        };
        lemma_joined_step(level, rest, outer);
    }
    match blend_context.next {
        Some(blend_context) => check_blended_expr(storage, Some(&filter_context), blend_context, expr),
        None => check_expr(storage, &filter_context, expr),
    }
}

/// A filter for the rows of one query step: the store, the `WHERE` clause if the query has
/// one, and the frames around the query if it runs inside another.
pub struct Filter<'a, S: Store> {
    storage: &'a S,
    where_clause: Option<&'a Expression>,
    context: Option<&'a FilterContext<'a, S::Value>>,
}

impl<'a, S: Store> Filter<'a, S> {
    /// The store that the filter consults.
    pub closed spec fn storage(&self) -> &S {
        self.storage
    }

    /// The predicate, if there is one.
    pub closed spec fn where_clause(&self) -> Option<Expression> {
        match self.where_clause {
            Some(expr) => Some(*expr),
            None => None,
        }
    }

    /// The frames around the query, innermost first.
    pub closed spec fn outer_frames(&self) -> Seq<Frame<S::Value>> {
        frames(self.context)
    }

    /// What the filter decides for a row whose frames, together with those around the
    /// query, are `chain`: every row passes where there is no predicate.
    pub open spec fn admits(&self, chain: Seq<Frame<S::Value>>) -> Result<bool, Error<S::Error>> {
        match self.where_clause() {
            Some(expr) => truth(self.storage(), chain, expr),
            None => Ok(true),
        }
    }

    /// A filter over `storage` for the predicate `where_clause`, if the query has one, for a
    /// query that runs inside the frames of `context`, if it runs inside any.
    pub fn new(
        storage: &'a S,
        where_clause: Option<&'a Expression>,
        context: Option<&'a FilterContext<'a, S::Value>>,
    ) -> (filter: Self)
        ensures
            filter.storage() == storage,
            filter.where_clause() == match where_clause {
                Some(expr) => Some(*expr),
                None => None,
            },
            filter.outer_frames() == frames(context),
    {
        Filter { storage, where_clause, context }
    }

    /// Decides whether a row of the table that goes by `table_alias` passes the filter.
    pub fn check(&self, table_alias: &str, columns: &[String], row: &Row<S::Value>) -> (admitted: Result<
        bool,
        Error<S::Error>,
    >)
        ensures
            comparable::<S::Value>() ==> admitted == self.admits(
                seq![frame_of(table_alias@, columns@, row@)] + self.outer_frames(),
            ),
            self.where_clause() is None ==> admitted == Ok::<bool, Error<S::Error>>(true),
    {
        let context = FilterContext::new(table_alias, columns, row, self.context);
        match self.where_clause {
            Some(expr) => check_expr(self.storage, &context, expr),
            None => Ok(true),
        }
    }

    /// Decides whether the joined rows of `blend_context` pass the filter.
    pub fn check_blended(&self, blend_context: &BlendContext<'_, S::Value>) -> (admitted: Result<
        bool,
        Error<S::Error>,
    >)
        ensures
            comparable::<S::Value>() ==> admitted == self.admits(joined(blend_context@, self.outer_frames())),
            self.where_clause() is None ==> admitted == Ok::<bool, Error<S::Error>>(true),
    {
        match self.where_clause {
            Some(expr) => check_blended_expr(self.storage, self.context, blend_context, expr),
            None => Ok(true),
        }
    }
}

/// A filter for the rows of the table that a join goes on to, given the rows joined so
/// far.
pub struct BlendedFilter<'a, S: Store> {
    filter: &'a Filter<'a, S>,
    context: Option<&'a BlendContext<'a, S::Value>>,
}

impl<'a, S: Store> BlendedFilter<'a, S> {
    /// The filter that decides.
    pub closed spec fn filter(&self) -> &Filter<'a, S> {
        self.filter
    }

    /// The levels joined so far, in the order of their links.
    pub closed spec fn levels(&self) -> Seq<Frame<S::Value>> {
        match self.context {
            Some(context) => context@,
            None => Seq::empty(),
        }
    }

    /// `filter` for the rows of the next table of a join, given the levels joined so far.
    pub fn new(filter: &'a Filter<'a, S>, context: Option<&'a BlendContext<'a, S::Value>>) -> (blended: Self)
        ensures
            blended.filter() == filter,
            blended.levels() == match context {
                Some(context) => context@,
                None => Seq::empty(),
            },
    {
        BlendedFilter { filter, context }
    }

    /// Decides whether a row of the next table passes the filter together with the rows
    /// joined so far. The row's frame lies around the frames of those levels and inside the
    /// frames around the query.
    pub fn check(&self, table_alias: &str, columns: &[String], row: &Row<S::Value>) -> (admitted: Result<
        bool,
        Error<S::Error>,
    >)
        ensures
            comparable::<S::Value>() ==> admitted == self.filter().admits(
                joined(
                    self.levels(),
                    seq![frame_of(table_alias@, columns@, row@)] + self.filter().outer_frames(),
                ),
            ),
            self.filter().where_clause() is None ==> admitted == Ok::<bool, Error<S::Error>>(true),
    {
        let filter_context = FilterContext::new(table_alias, columns, row, self.filter.context);
        match self.filter.where_clause {
            None => Ok(true),
            Some(expr) => match self.context {
                Some(blend_context) => check_blended_expr(
                    self.filter.storage,
                    Some(&filter_context),
                    blend_context,
                    expr,
                ),
                None => check_expr(self.filter.storage, &filter_context, expr),
            },
        }
    }
}

} // verus!
