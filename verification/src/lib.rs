//! Logical query plan core of a lazy, columnar dataframe engine.
//!
//! A query is modelled as an immutable tree of relational operators
//! ([`plan::LogicalPlan`]) over scalar/aggregate expressions
//! ([`expr::Expr`]).  The crate offers a fluent, move-consuming
//! [`builder::LogicalPlanBuilder`] that derives and caches the output schema
//! of every node at construction time, a wildcard/exception rewriter that
//! normalizes user expression lists against a schema, and two read-only
//! renderings of a finished tree: a nested debug string and a Graphviz graph.
//!
//! Physical execution, file I/O and the optimizer passes are external
//! collaborators; the plan only carries the data they need.

pub mod dtypes;
pub mod error;
pub mod schema;
pub mod literal;
pub mod expr;
pub mod utils;
pub mod field_infer;
pub mod rewrite;
pub mod plan;
pub mod builder;
pub mod format;
pub mod laws;
pub mod arena;
