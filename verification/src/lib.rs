//! Row filtering for a SQL engine: decides, row by row, whether a `WHERE` predicate holds.
//!
//! A predicate is an [`ast::Expression`]. A row comes with the chain of binding frames
//! ([`context::FilterContext`]) that column names resolve against: its own frame, the frames
//! of the rows it is joined with, and the frames of the queries around a subquery.
//! [`filter::check_expr`] walks the predicate; [`filter::Filter`] and
//! [`filter::BlendedFilter`] build the chain for a row and call it.
//!
//! Evaluating scalar expressions and running subqueries is the engine's part: the filter
//! reaches both through the [`store::Store`] trait, and [`semantics::truth`] says what a check
//! returns in terms of what they give.

pub mod ast;
pub mod compare;
pub mod context;
pub mod error;
pub mod external;
pub mod filter;
pub mod laws;
pub mod row;
pub mod semantics;
pub mod store;
