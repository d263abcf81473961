//! Conflict-resolution fragments for SQL `INSERT ... ON CONFLICT` clauses.
//!
//! The crate renders the action part of a conflict clause — ` DO NOTHING`
//! or ` DO UPDATE SET ...` — and the `excluded.<column>` pseudo-table
//! reference used inside such updates. Rendering is capability-gated:
//! the fragments can only be walked against a backend that declares
//! support for the conflict clause, and an excluded-column reference is
//! only accepted by the type system where an expression on the column's
//! own table is expected.

pub mod backend;
pub mod changeset;
pub mod expression;
pub mod query_builder;
pub mod schema;
pub mod upsert;
