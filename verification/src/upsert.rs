use vstd::prelude::*;

use crate::backend::{Backend, SupportsOnConflictClause};
use crate::expression::{AppearsOnTable, Column, Expression};
use crate::query_builder::{AstPass, BuildError, QueryFragment, QueryResult};

verus! {

/// Represents `excluded.column` in an `ON CONFLICT DO UPDATE` clause:
/// a reference to the value that would have been inserted for that
/// column had no conflict occurred. Construction is a pure wrap of the
/// column handle; nothing is rendered or validated here.
pub fn excluded<T>(column: T) -> (r: Excluded<T>)
    ensures
        r.spec_wrapped() == column,
{
    Excluded(column)
}

/// The conflict action that ignores the conflicting row: ` DO NOTHING`.
#[derive(Debug, Clone, Copy)]
pub struct DoNothing;

impl<DB: Backend + SupportsOnConflictClause> QueryFragment<DB> for DoNothing {
    open spec fn sql_spec(&self) -> Seq<char> {
        " DO NOTHING"@
    }

    open spec fn walk_result_spec(&self) -> QueryResult<()> {
        Ok(())
    }

    open spec fn is_noop_spec(&self) -> QueryResult<bool> {
        Ok(false)
    }

    open spec fn preserves_cacheability(&self) -> bool {
        true
    }

    fn walk_ast(&self, out: &mut AstPass) -> (r: QueryResult<()>) {
        out.push_sql(" DO NOTHING");
        Ok(())
    }

    fn is_noop(&self) -> (r: QueryResult<bool>) {
        Ok(false)
    }
}

/// The conflict action that updates the conflicting row:
/// ` DO UPDATE SET` followed by an assignment set. When the assignment
/// set is empty it degrades to ` DO NOTHING` instead, because
/// `DO UPDATE SET` with zero assignments is not valid SQL.
///
/// Because the rendered text depends on the assignment set's runtime
/// emptiness, rendering first marks the statement as not eligible for
/// plan caching — before anything is emitted, and also when the
/// emptiness query itself fails.
#[derive(Debug, Clone, Copy)]
pub struct DoUpdate<T> {
    changeset: T,
}

impl<T> DoUpdate<T> {
    /// The assignment set this action renders.
    pub closed spec fn spec_changeset(&self) -> T {
        self.changeset
    }

    /// Wraps an assignment set as a conflict action.
    pub fn new(changeset: T) -> (r: Self)
        ensures
            r.spec_changeset() == changeset,
    {
        DoUpdate { changeset }
    }
}

impl<DB, T> QueryFragment<DB> for DoUpdate<T> where
    DB: Backend + SupportsOnConflictClause,
    T: QueryFragment<DB>,
 {
    open spec fn sql_spec(&self) -> Seq<char> {
        match self.spec_changeset().is_noop_spec() {
            Ok(true) => " DO NOTHING"@,
            Ok(false) => " DO UPDATE SET "@ + self.spec_changeset().sql_spec(),
            Err(_) => Seq::<char>::empty(),
        }
    }

    open spec fn walk_result_spec(&self) -> QueryResult<()> {
        match self.spec_changeset().is_noop_spec() {
            Ok(true) => Ok(()),
            Ok(false) => self.spec_changeset().walk_result_spec(),
            Err(e) => Err(e),
        }
    }

    open spec fn is_noop_spec(&self) -> QueryResult<bool> {
        Ok(false)
    }

    open spec fn preserves_cacheability(&self) -> bool {
        false
    }

    fn walk_ast(&self, out: &mut AstPass) -> (r: QueryResult<()>) {
        out.unsafe_to_cache_prepared();
        match self.changeset.is_noop() {
            Err(e) => Err(e),
            Ok(true) => {
                out.push_sql(" DO NOTHING");
                Ok(())
            },
            Ok(false) => {
                out.push_sql(" DO UPDATE SET ");
                match self.changeset.walk_ast(out) {
                    Ok(u) => {
                        proof {
                            assert(out@.sql =~= old(out)@.sql + (" DO UPDATE SET "@
                                + self.spec_changeset().sql_spec()));
                        }
                        Ok(u)
                    },
                    Err(e) => Err(e),
                }
            },
        }
    }

    fn is_noop(&self) -> (r: QueryResult<bool>) {
        Ok(false)
    }
}

/// An `excluded.<column>` reference, produced by [`excluded`].
#[derive(Debug, Clone, Copy)]
pub struct Excluded<T>(T);

impl<T> Excluded<T> {
    /// The wrapped column handle.
    pub closed spec fn spec_wrapped(&self) -> T {
        self.0
    }
}

impl<DB, T> QueryFragment<DB> for Excluded<T> where
    DB: Backend + SupportsOnConflictClause,
    T: Column,
 {
    open spec fn sql_spec(&self) -> Seq<char> {
        "excluded."@ + DB::spec_quoted(T::spec_name())
    }

    open spec fn walk_result_spec(&self) -> QueryResult<()> {
        Ok(())
    }

    open spec fn is_noop_spec(&self) -> QueryResult<bool> {
        Ok(false)
    }

    open spec fn preserves_cacheability(&self) -> bool {
        true
    }

    fn walk_ast(&self, out: &mut AstPass) -> (r: QueryResult<()>) {
        out.push_sql("excluded.");
        let name = T::name();
        match out.push_identifier::<DB>(name.as_str()) {
            Ok(u) => {
                proof {
                    assert(out@.sql =~= old(out)@.sql + ("excluded."@
                        + DB::spec_quoted(T::spec_name())));
                }
                Ok(u)
            },
            Err(e) => Err(e),
        }
    }

    fn is_noop(&self) -> (r: QueryResult<bool>) {
        Ok(false)
    }
}

/// An excluded-column reference has exactly the SQL value type of the
/// column it wraps: type identity, not coercion.
impl<T> Expression for Excluded<T> where T: Expression {
    type SqlType = T::SqlType;
}

/// An excluded-column reference appears on exactly the table its
/// column belongs to, and on no other — even a column of the same
/// name on another table gives a distinct, incompatible reference.
impl<T> AppearsOnTable<T::Table> for Excluded<T> where T: Column {

}

/// Law: against any backend with the conflict-clause capability,
/// rendering `DoNothing` always succeeds, emits exactly ` DO NOTHING`,
/// and leaves the statement's cacheability as it was.
pub proof fn lemma_do_nothing_renders_do_nothing<DB: Backend + SupportsOnConflictClause>(
    action: DoNothing,
)
    ensures
        <DoNothing as QueryFragment<DB>>::walk_result_spec(&action) == Ok::<(), BuildError>(()),
        <DoNothing as QueryFragment<DB>>::sql_spec(&action) == " DO NOTHING"@,
        <DoNothing as QueryFragment<DB>>::preserves_cacheability(&action),
{
}

/// Law: an update action over an assignment set whose emptiness
/// predicate answers "empty" renders exactly as `DoNothing` does —
/// ` DO NOTHING` — whatever the set otherwise holds, and always
/// succeeds.
pub proof fn lemma_empty_update_degrades_to_do_nothing<DB, T>(action: &DoUpdate<T>)
    where
        DB: Backend + SupportsOnConflictClause,
        T: QueryFragment<DB>,
    requires
        action.spec_changeset().is_noop_spec() == Ok::<bool, BuildError>(true),
    ensures
        <DoUpdate<T> as QueryFragment<DB>>::sql_spec(action)
            == <DoNothing as QueryFragment<DB>>::sql_spec(&DoNothing),
        <DoUpdate<T> as QueryFragment<DB>>::walk_result_spec(action) == Ok::<(), BuildError>(()),
{
}

/// Law: an update action over an assignment set whose emptiness
/// predicate answers "non-empty" renders ` DO UPDATE SET ` followed by
/// exactly the set's own rendering, and its outcome is exactly the
/// set's own rendering outcome. It never preserves cacheability, so
/// `walk_ast`'s contract leaves the statement marked uncacheable
/// after the call.
pub proof fn lemma_nonempty_update_renders_update<DB, T>(action: &DoUpdate<T>)
    where
        DB: Backend + SupportsOnConflictClause,
        T: QueryFragment<DB>,
    requires
        action.spec_changeset().is_noop_spec() == Ok::<bool, BuildError>(false),
    ensures
        <DoUpdate<T> as QueryFragment<DB>>::sql_spec(action)
            == " DO UPDATE SET "@ + action.spec_changeset().sql_spec(),
        <DoUpdate<T> as QueryFragment<DB>>::walk_result_spec(action)
            == action.spec_changeset().walk_result_spec(),
        !<DoUpdate<T> as QueryFragment<DB>>::preserves_cacheability(action),
{
}

} // verus!
