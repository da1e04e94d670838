//! Rows and the errors of the crate.

use sql_filter::error::{FilterError, RowError};
use sql_filter::row::Row;

#[test]
fn get_value_is_by_position() {
    let row = Row(vec![10, 20, 30]);
    assert_eq!(row.get_value(0), Some(&10));
    assert_eq!(row.get_value(2), Some(&30));
    assert_eq!(row.get_value(3), None);
    assert_eq!(row.get_value(usize::MAX), None);
}

#[test]
fn take_first_value_gives_the_first_cell() {
    assert_eq!(Row(vec![10, 20, 30]).take_first_value(), Ok(10));
    assert_eq!(Row(vec![7]).take_first_value(), Ok(7));
    assert_eq!(Row(vec!["a".to_string(), "b".to_string()]).take_first_value(), Ok("a".to_string()));
}

#[test]
fn empty_row_has_no_first_value() {
    let row: Row<i64> = Row(Vec::new());
    assert_eq!(row.take_first_value(), Err(RowError::Empty));
    let row: Row<i64> = Row(Vec::new());
    assert_eq!(row.get_value(0), None);
}

#[test]
fn error_messages() {
    assert_eq!(FilterError::Unimplemented.message(), "unimplemented");
    assert_eq!(RowError::Empty.message(), "row has no value");
}
