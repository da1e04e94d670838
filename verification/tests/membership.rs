//! Comparisons of evaluated values and membership among candidates.

use sql_filter::ast::Binary;
use sql_filter::compare::{check_in_rows, compare_values, decide};
use sql_filter::error::{Error, RowError};
use sql_filter::row::Row;
use sqlparser::ast::BinaryOperator;

type Outcome = Result<bool, Error<String>>;

fn ok_row(cells: &[i64]) -> Result<Row<i64>, Error<String>> {
    Ok(Row(cells.to_vec()))
}

fn failed(text: &str) -> Error<String> {
    Error::Store(text.to_string())
}

#[test]
fn comparison_operators_on_integers() {
    let table: [(Binary, [bool; 3]); 6] = [
        (Binary::Eq, [false, true, false]),
        (Binary::NotEq, [true, false, true]),
        (Binary::Lt, [true, false, false]),
        (Binary::LtEq, [true, true, false]),
        (Binary::Gt, [false, false, true]),
        (Binary::GtEq, [false, true, true]),
    ];
    for (op, expected) in table.iter() {
        assert_eq!(compare_values(op, &1, &2), expected[0]);
        assert_eq!(compare_values(op, &2, &2), expected[1]);
        assert_eq!(compare_values(op, &3, &2), expected[2]);
    }
}

#[test]
fn comparison_follows_the_value_type() {
    // `NaN` is unordered and unequal to itself: every comparison but `<>` is false.
    let nan = f64::NAN;
    assert!(!compare_values(&Binary::Eq, &nan, &nan));
    assert!(compare_values(&Binary::NotEq, &nan, &nan));
    assert!(!compare_values(&Binary::Lt, &nan, &1.0));
    assert!(!compare_values(&Binary::LtEq, &nan, &nan));
    assert!(!compare_values(&Binary::Gt, &1.0, &nan));
    assert!(!compare_values(&Binary::GtEq, &nan, &nan));
    assert!(compare_values(&Binary::Lt, &"a", &"b"));
}

#[test]
fn operators_that_do_not_compare_give_false() {
    assert!(!compare_values(&Binary::And, &1, &1));
    assert!(!compare_values(&Binary::Or, &1, &1));
    assert!(!compare_values(&Binary::Other(BinaryOperator::Plus), &1, &1));
}

#[test]
fn an_equal_candidate_decides() {
    let settled: Option<Outcome> = decide(&3, Ok(3), false);
    assert_eq!(settled, Some(Ok(true)));
    let settled: Option<Outcome> = decide(&3, Ok(3), true);
    assert_eq!(settled, Some(Ok(false)));
}

#[test]
fn another_candidate_decides_nothing() {
    let settled: Option<Outcome> = decide(&3, Ok(4), false);
    assert_eq!(settled, None);
    let settled: Option<Outcome> = decide(&3, Ok(4), true);
    assert_eq!(settled, None);
}

#[test]
fn a_failed_candidate_decides_with_its_error() {
    assert_eq!(decide(&3, Err(failed("boom")), false), Some(Err(failed("boom"))));
    assert_eq!(decide(&3, Err(failed("boom")), true), Some(Err(failed("boom"))));
}

#[test]
fn no_rows_give_negated() {
    let found: Outcome = check_in_rows(&3, Vec::new(), false);
    assert_eq!(found, Ok(false));
    let found: Outcome = check_in_rows(&3, Vec::new(), true);
    assert_eq!(found, Ok(true));
}

#[test]
fn first_cell_of_a_row_is_what_counts() {
    let rows = vec![ok_row(&[1, 3]), ok_row(&[2, 3])];
    assert_eq!(check_in_rows(&3, rows, false), Ok(false));
    let rows = vec![ok_row(&[1, 3]), ok_row(&[3, 0])];
    assert_eq!(check_in_rows(&3, rows, false), Ok(true));
}

#[test]
fn a_matching_row_gives_not_negated() {
    let rows = vec![ok_row(&[1]), ok_row(&[3]), ok_row(&[5])];
    assert_eq!(check_in_rows(&3, rows, false), Ok(true));
    let rows = vec![ok_row(&[1]), ok_row(&[3]), ok_row(&[5])];
    assert_eq!(check_in_rows(&3, rows, true), Ok(false));
}

#[test]
fn no_matching_row_gives_negated() {
    let rows = vec![ok_row(&[1]), ok_row(&[5])];
    assert_eq!(check_in_rows(&3, rows, false), Ok(false));
    let rows = vec![ok_row(&[1]), ok_row(&[5])];
    assert_eq!(check_in_rows(&3, rows, true), Ok(true));
}

#[test]
fn a_failed_row_before_the_match_is_the_outcome() {
    let rows = vec![ok_row(&[1]), Err(failed("scan")), ok_row(&[3])];
    assert_eq!(check_in_rows(&3, rows, false), Err(failed("scan")));
}

#[test]
fn a_failed_row_after_the_match_is_not_reached() {
    let rows = vec![ok_row(&[3]), Err(failed("scan"))];
    assert_eq!(check_in_rows(&3, rows, false), Ok(true));
    let rows = vec![ok_row(&[3]), ok_row(&[])];
    assert_eq!(check_in_rows(&3, rows, true), Ok(false));
}

#[test]
fn a_row_without_cells_fails_the_test() {
    let rows = vec![ok_row(&[1]), ok_row(&[]), ok_row(&[3])];
    assert_eq!(check_in_rows(&3, rows, false), Err(Error::Row(RowError::Empty)));
}

#[test]
fn the_first_of_two_failures_is_the_outcome() {
    let rows = vec![Err(failed("first")), Err(failed("second"))];
    assert_eq!(check_in_rows(&3, rows, true), Err(failed("first")));
}
