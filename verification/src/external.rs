//! What this crate takes on trust from the crates it is built on.

use vstd::prelude::*;

verus! {

/// `Boolinator::as_some` on a `bool`: `Some` of the given value when the flag is set,
/// `None` when it is not.
pub assume_specification<T>[ <bool as boolinator::Boolinator>::as_some ](flag: bool, some: T) -> (chosen: Option<T>)
    ensures
        chosen == if flag { Some(some) } else { None::<T> },
;

/// `str`'s `==`: two string slices are equal exactly when they hold the same characters.
#[verifier::external_body]
pub(crate) fn same_text(left: &str, right: &str) -> (same: bool)
    ensures
        same == (left@ == right@),
{
    left == right
}

/// The parser's expression tree. The filter never looks inside one: it carries the
/// parts it does not decide on to the scalar evaluator.
#[verifier::external_type_specification]
#[verifier::external_body]
pub struct ExExpr(sqlparser::ast::Expr);

/// The parser's `SELECT` query, carried from an `IN (subquery)` to the subquery executor.
#[verifier::external_type_specification]
#[verifier::external_body]
pub struct ExQuery(sqlparser::ast::Query);

/// The parser's binary operators, carried for those the filter does not decide on.
#[verifier::external_type_specification]
#[verifier::external_body]
pub struct ExBinaryOperator(sqlparser::ast::BinaryOperator);

/// The parser's unary operators, carried for those the filter does not decide on.
#[verifier::external_type_specification]
#[verifier::external_body]
pub struct ExUnaryOperator(sqlparser::ast::UnaryOperator);

} // verus!
