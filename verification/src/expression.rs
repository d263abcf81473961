use vstd::prelude::*;

use crate::backend::Backend;
use crate::query_builder::{AstPass, QueryFragment, QueryResult};

verus! {

/// A typed SQL expression. The associated type is the expression's
/// declared SQL value type, carried at the type level only: it is what
/// lets one expression stand wherever another of the same SQL type is
/// expected.
pub trait Expression {
    /// The SQL value type of this expression.
    type SqlType;
}

/// Marker: expressions that may appear in a query against table `QS`.
/// An expression carries this marker for exactly the tables it is
/// valid on, so placing it anywhere else fails to compile instead of
/// producing a runtime SQL error.
pub trait AppearsOnTable<QS>: Expression {}

/// A column handle: a type that statically identifies one column of
/// one table — its name, its SQL value type (through the
/// [`Expression`] supertrait) and its owning table.
pub trait Column: Expression {
    /// The table the column belongs to.
    type Table;

    /// The column's declared name.
    spec fn spec_name() -> Seq<char>;

    /// The column's name, as written in the schema, before any
    /// backend quoting.
    fn name() -> (r: String)
        ensures
            r@ == Self::spec_name(),
    ;
}

/// Renders an expression in a position that expects an expression on
/// table `QS`. The bound does the scoping work: only an expression
/// marked as appearing on `QS` can be handed in at all.
pub fn walk_expression_on<DB, QS, E>(expr: &E, out: &mut AstPass) -> (r: QueryResult<()>)
    where
        DB: Backend,
        E: AppearsOnTable<QS> + QueryFragment<DB>,
    ensures
        r == expr.walk_result_spec(),
        r is Ok ==> final(out)@.sql == old(out)@.sql + expr.sql_spec(),
        final(out)@.cacheable == (old(out)@.cacheable && expr.preserves_cacheability()),
{
    expr.walk_ast(out)
}

} // verus!
