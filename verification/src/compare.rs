//! Comparing two evaluated values, and testing a value for membership.

use std::cmp::Ordering;
use boolinator::Boolinator;
use vstd::prelude::*;
use vstd::std_specs::cmp::{PartialEqSpec, PartialOrdSpec};
use crate::ast::Binary;
use crate::error::Error;
use crate::row::{first_value, Row};

verus! {

/// Whether `==` on `V` is a function of the two values it is given, as it is for every
/// sensible value type. The contracts of this crate say what a membership test returns for
/// the value types of which that holds.
pub open spec fn equatable<V: PartialEq>() -> bool {
    V::obeys_eq_spec()
}

/// Whether `==` and `<` on `V` are both functions of the two values they are given. The
/// contracts of this crate say what a check returns for the value types of which that holds.
pub open spec fn comparable<V: PartialEq + PartialOrd>() -> bool {
    equatable::<V>() && V::obeys_partial_cmp_spec()
}

/// The outcome of a comparison operator on two values, as the value type defines it.
/// An operator that is no comparison compares nothing.
pub open spec fn compare<V: PartialEq + PartialOrd>(op: Binary, left: V, right: V) -> bool {
    match op {
        Binary::Eq => left.eq_spec(&right),
        Binary::NotEq => !left.eq_spec(&right),
        Binary::Lt => left.partial_cmp_spec(&right) == Some(Ordering::Less),
        Binary::LtEq => left.partial_cmp_spec(&right) matches Some(Ordering::Less | Ordering::Equal),
        Binary::Gt => left.partial_cmp_spec(&right) == Some(Ordering::Greater),
        Binary::GtEq => left.partial_cmp_spec(&right) matches Some(
            Ordering::Greater
            | Ordering::Equal,
        ),
        _ => false,
    }
}

/// Whether two values are equal, as the value type defines it.
pub open spec fn equal<V: PartialEq>(left: V, right: V) -> bool {
    left.eq_spec(&right)
}

/// What one candidate settles about `target IN (..)`: an error ends the test with that error,
/// an equal value ends it with `!negated`, any other value settles nothing.
pub open spec fn decision<V: PartialEq, E>(
    target: V,
    candidate: Result<V, Error<E>>,
    negated: bool,
) -> Option<Result<bool, Error<E>>> {
    match candidate {
        Err(error) => Some(Err(error)),
        Ok(value) => if equal(target, value) {
            Some(Ok(!negated))
        } else {
            None
        },
    }
}

/// The membership test over candidates in order: the first candidate that settles it gives
/// the result; where none does, the result is `negated`.
pub open spec fn member<V: PartialEq, E>(
    target: V,
    candidates: Seq<Result<V, Error<E>>>,
    negated: bool,
) -> Result<bool, Error<E>>
    decreases candidates.len(),
{
    if candidates.len() == 0 {
        Ok(negated)
    } else {
        match decision(target, candidates[0], negated) {
            Some(outcome) => outcome,
            None => member(target, candidates.drop_first(), negated),
        }
    }
}

/// Candidates that settle nothing can be left out from the front.
pub proof fn lemma_member_skip<V: PartialEq, E>(
    target: V,
    candidates: Seq<Result<V, Error<E>>>,
    negated: bool,
    count: int,
)
    requires
        0 <= count <= candidates.len(),
        forall|j: int| 0 <= j < count ==> decision(target, #[trigger] candidates[j], negated) is None,
    ensures
        member(target, candidates, negated) == member(target, candidates.skip(count), negated),
    decreases count,
{
    if count == 0 {
        assert(candidates.skip(0) =~= candidates);
    } else {
        let rest = candidates.drop_first();
        lemma_member_skip(target, rest, negated, count - 1);
        assert(rest.skip(count - 1) =~= candidates.skip(count));
    }
}

/// The candidate that a row of a subquery stands for: its first cell.
pub open spec fn first_cell<V, E>(row: Result<Row<V>, Error<E>>) -> Result<V, Error<E>> {
    match row {
        Err(error) => Err(error),
        Ok(row) => match first_value(row@) {
            Ok(value) => Ok(value),
            Err(error) => Err(Error::Row(error)),
        },
    }
}

/// The candidates that the rows of a subquery stand for.
pub open spec fn first_cells<V, E>(rows: Seq<Result<Row<V>, Error<E>>>) -> Seq<Result<V, Error<E>>> {
    rows.map_values(|row: Result<Row<V>, Error<E>>| first_cell(row))
}

/// Applies a comparison operator to two evaluated values. Any other operator gives `false`.
pub fn compare_values<V: PartialEq + PartialOrd>(op: &Binary, left: &V, right: &V) -> (holds: bool)
    ensures
        comparable::<V>() ==> holds == compare(*op, *left, *right),
{
    match op {
        Binary::Eq => *left == *right,
        Binary::NotEq => *left != *right,
        Binary::Lt => *left < *right,
        Binary::LtEq => *left <= *right,
        Binary::Gt => *left > *right,
        Binary::GtEq => *left >= *right,
        _ => false,
    }
}

/// What one candidate settles about `target IN (..)`.
pub fn decide<V: PartialEq, E>(
    target: &V,
    candidate: Result<V, Error<E>>,
    negated: bool,
) -> (settled: Option<Result<bool, Error<E>>>)
    ensures
        equatable::<V>() ==> settled == decision(*target, candidate, negated),
        candidate is Err ==> settled == Some(Err::<bool, Error<E>>(candidate->Err_0)),
{
    match candidate {
        Err(error) => Some(Err(error)),
        Ok(value) => (*target == value).as_some(Ok(!negated)),
    }
}

/// Tests `target` for membership among the first cells of the rows that a subquery gave.
/// The rows are taken in order; the first one that is an error, has no cell or holds an equal
/// value ends the test.
pub fn check_in_rows<V: PartialEq, E>(
    target: &V,
    rows: Vec<Result<Row<V>, Error<E>>>,
    negated: bool,
) -> (found: Result<bool, Error<E>>)
    ensures
        equatable::<V>() ==> found == member(*target, first_cells(rows@), negated),
        rows@.len() == 0 ==> found == Ok::<bool, Error<E>>(negated),
{
    let ghost candidates = first_cells(rows@);
    for item in rest: rows.into_iter()
        invariant
            candidates == first_cells(rest.seq()),
            equatable::<V>() ==> forall|j: int|
                0 <= j < rest.index() ==> decision(*target, #[trigger] candidates[j], negated) is None,
    {
        let candidate = match item {
            Err(error) => Err(error),
            Ok(row) => match row.take_first_value() {
                Ok(value) => Ok(value),
                Err(error) => Err(Error::Row(error)),
            },
        };
        if let Some(outcome) = decide(target, candidate, negated) {
            proof {
                if equatable::<V>() {
                    lemma_member_skip(*target, candidates, negated, rest.index());
                }
            }
            return outcome;
        }
    }
    proof {
        if equatable::<V>() {
            lemma_member_skip(*target, candidates, negated, candidates.len() as int);
        }
    }
    Ok(negated)
}

} // verus!
