//! The expression tree that the filter walks.
//!
//! It mirrors the parser's tree for the node shapes and operators that the filter decides
//! on itself. Every other node and operator is carried as the parser made it, for the scalar
//! evaluator to read.

use vstd::prelude::*;

verus! {

/// A binary operator.
#[derive(Debug, PartialEq)]
pub enum Binary {
    /// `=`
    Eq,
    /// `<>`
    NotEq,
    /// `AND`
    And,
    /// `OR`
    Or,
    /// `<`
    Lt,
    /// `<=`
    LtEq,
    /// `>`
    Gt,
    /// `>=`
    GtEq,
    /// Any other operator of the parser.
    Other(sqlparser::ast::BinaryOperator),
}

/// A unary operator.
#[derive(Debug, PartialEq)]
pub enum Unary {
    /// `NOT`
    Not,
    /// Any other operator of the parser.
    Other(sqlparser::ast::UnaryOperator),
}

/// An expression node.
#[derive(Debug, PartialEq)]
#[allow(inconsistent_fields)]
pub enum Expression {
    /// `left op right`
    BinaryOp { op: Binary, left: Box<Expression>, right: Box<Expression> },
    /// `op expr`
    UnaryOp { op: Unary, expr: Box<Expression> },
    /// `(inner)`
    Nested(Box<Expression>),
    /// `expr [NOT] IN (list)`
    InList { expr: Box<Expression>, list: Vec<Expression>, negated: bool },
    /// `expr [NOT] IN (subquery)`
    InSubquery { expr: Box<Expression>, subquery: Box<sqlparser::ast::Query>, negated: bool },
    /// Any other node of the parser: an identifier, a literal, a function call and so on.
    Other(sqlparser::ast::Expr),
}

} // verus!
