//! The engine behind the filter: scalar evaluation and subquery execution.

use vstd::prelude::*;
use crate::ast::Expression;
use crate::context::{frames, FilterContext, Frame};
use crate::error::Error;
use crate::row::Row;

verus! {

/// What the subquery executor hands back: the rows of the result in order, each of which may
/// have failed on its own, unless the query failed as a whole.
pub type Selection<V, E> = Result<Vec<Result<Row<V>, Error<E>>>, Error<E>>;

/// The engine that a filter consults for everything it does not decide itself: the store
/// with the scalar evaluator and the subquery executor that read from it.
///
/// The filter holds the store by shared reference for the length of a check and nothing
/// writes to it meanwhile, so what the two services return is determined by the store and by
/// their arguments. The model functions `evaluated` and `selected` name those results, and
/// the contracts of the filter are stated over them. A verified implementation defines the
/// two functions and proves `evaluate` and `select` against them. An implementation that is
/// not verified leaves them as they are, unknown functions of the store and the arguments;
/// it is trusted for that much: asked the same, it answers the same.
pub trait Store {
    /// The values that expressions evaluate to and that rows hold. The engine defines what
    /// `==` and `<` mean on them, SQL's `NULL` and values of different kinds included; the
    /// filter takes the outcome of a comparison as it comes.
    type Value: PartialEq + PartialOrd;

    /// The engine's own errors.
    type Error;

    /// What `evaluate` gives for an expression under a chain of frames, innermost first.
    open spec fn evaluated(&self, context: Seq<Frame<Self::Value>>, expr: Expression) -> Result<
        Self::Value,
        Error<Self::Error>,
    > {
        let unknown: spec_fn(&Self, Seq<Frame<Self::Value>>, Expression) -> Result<
            Self::Value,
            Error<Self::Error>,
        > = arbitrary();
        unknown(self, context, expr)
    }

    /// What `select` gives for a query run inside a chain of frames: an empty chain where
    /// the query stands alone.
    open spec fn selected(&self, subquery: sqlparser::ast::Query, context: Seq<Frame<Self::Value>>) -> Result<
        Seq<Result<Row<Self::Value>, Error<Self::Error>>>,
        Error<Self::Error>,
    > {
        let unknown: spec_fn(&Self, sqlparser::ast::Query, Seq<Frame<Self::Value>>) -> Result<
            Seq<Result<Row<Self::Value>, Error<Self::Error>>>,
            Error<Self::Error>,
        > = arbitrary();
        unknown(self, subquery, context)
    }

    /// Evaluates a scalar expression. Column names in it resolve against `context`; a name
    /// that resolves to nothing is an error.
    fn evaluate(&self, context: &FilterContext<'_, Self::Value>, expr: &Expression) -> (value: Result<
        Self::Value,
        Error<Self::Error>,
    >)
        ensures
            value == self.evaluated(context@, *expr),
    ;

    /// Runs a `SELECT`. The frames of `context`, if any, are the scopes around the query:
    /// names that the query itself does not bind resolve against them.
    fn select(&self, subquery: &sqlparser::ast::Query, context: Option<&FilterContext<'_, Self::Value>>) -> (rows:
        Selection<Self::Value, Self::Error>)
        ensures
            match (rows, self.selected(*subquery, frames(context))) {
                (Ok(rows), Ok(selected)) => rows@ == selected,
                (Err(error), Err(selected)) => error == selected,
                _ => false,
            },
    ;
}

} // verus!
