use vstd::prelude::*;

use crate::backend::Backend;
use crate::query_builder::{AstPass, BuildError, QueryFragment, QueryResult};

verus! {

/// One `column = value` pair of an update assignment set. The value is
/// already-rendered SQL text: a literal or an expression the caller
/// built upstream.
#[derive(Debug, Clone)]
pub struct Assignment {
    column: String,
    value: String,
}

impl Assignment {
    /// The assigned column's name.
    pub closed spec fn spec_column(&self) -> Seq<char> {
        self.column@
    }

    /// The SQL text of the right-hand side.
    pub closed spec fn spec_value(&self) -> Seq<char> {
        self.value@
    }

    /// An assignment is well formed when its column identifier is
    /// non-empty; one without a column cannot be rendered as valid
    /// `column = value` text.
    pub open spec fn well_formed(&self) -> bool {
        self.spec_column().len() > 0
    }

    /// The text this assignment renders as.
    pub open spec fn sql_spec(&self) -> Seq<char> {
        self.spec_column() + " = "@ + self.spec_value()
    }

    /// Pairs a column name with the SQL text of its new value.
    pub fn new(column: String, value: String) -> (r: Assignment)
        ensures
            r.spec_column() == column@,
            r.spec_value() == value@,
    {
        Assignment { column, value }
    }
}

/// Every assignment in the sequence is well formed.
pub open spec fn all_well_formed(items: Seq<Assignment>) -> bool {
    forall|i: int| 0 <= i < items.len() ==> (#[trigger] items[i]).well_formed()
}

/// The comma-separated rendering of a sequence of assignments.
pub open spec fn assignments_sql(items: Seq<Assignment>) -> Seq<char>
    decreases items.len(),
{
    if items.len() == 0 {
        Seq::<char>::empty()
    } else if items.len() == 1 {
        items[0].sql_spec()
    } else {
        assignments_sql(items.drop_last()) + ", "@ + items.last().sql_spec()
    }
}

/// An ordered collection of `column = value` pairs: the body of a
/// `DO UPDATE SET` action. Its emptiness is what decides whether that
/// action degrades to ` DO NOTHING`.
#[derive(Debug, Clone)]
pub struct AssignmentSet {
    items: Vec<Assignment>,
}

impl AssignmentSet {
    /// The assignments, in rendering order.
    pub closed spec fn spec_items(&self) -> Seq<Assignment> {
        self.items@
    }

    /// An empty assignment set.
    pub fn new() -> (r: AssignmentSet)
        ensures
            r.spec_items() == Seq::<Assignment>::empty(),
    {
        AssignmentSet { items: Vec::new() }
    }

    /// Appends one assignment; it will render after the ones already
    /// present.
    pub fn push(&mut self, assignment: Assignment)
        ensures
            final(self).spec_items() == old(self).spec_items().push(assignment),
    {
        self.items.push(assignment);
    }

    /// How many assignments the set holds.
    pub fn len(&self) -> (n: usize)
        ensures
            n == self.spec_items().len(),
    {
        self.items.len()
    }
}

impl<DB: Backend> QueryFragment<DB> for AssignmentSet {
    open spec fn sql_spec(&self) -> Seq<char> {
        assignments_sql(self.spec_items())
    }

    open spec fn walk_result_spec(&self) -> QueryResult<()> {
        if all_well_formed(self.spec_items()) {
            Ok(())
        } else {
            Err(BuildError::EmptyColumnName)
        }
    }

    open spec fn is_noop_spec(&self) -> QueryResult<bool> {
        if all_well_formed(self.spec_items()) {
            Ok(self.spec_items().len() == 0)
        } else {
            Err(BuildError::EmptyColumnName)
        }
    }

    open spec fn preserves_cacheability(&self) -> bool {
        true
    }

    fn walk_ast(&self, out: &mut AstPass) -> (r: QueryResult<()>) {
        let n = self.items.len();
        let mut i: usize = 0;
        while i < n
            invariant
                n == self.spec_items().len(),
                i <= n,
                all_well_formed(self.spec_items().take(i as int)),
                out@.sql == old(out)@.sql + assignments_sql(self.spec_items().take(i as int)),
                out@.cacheable == old(out)@.cacheable,
            decreases n - i,
        {
            let a = &self.items[i];
            if a.column.as_str().is_empty() {
                proof {
                    assert(!self.spec_items()[i as int].well_formed());
                }
                return Err(BuildError::EmptyColumnName);
            }
            if i > 0 {
                out.push_sql(", ");
            }
            out.push_sql(a.column.as_str());
            out.push_sql(" = ");
            out.push_sql(a.value.as_str());
            proof {
                let items = self.spec_items();
                let upto = items.take(i as int + 1);
                assert(upto.drop_last() =~= items.take(i as int));
                assert(upto.last() == items[i as int]);
                assert(out@.sql =~= old(out)@.sql + assignments_sql(upto));
            }
            i = i + 1;
        }
        proof {
            assert(self.spec_items().take(n as int) =~= self.spec_items());
        }
        Ok(())
    }

    fn is_noop(&self) -> (r: QueryResult<bool>) {
        let n = self.items.len();
        let mut i: usize = 0;
        while i < n
            invariant
                n == self.spec_items().len(),
                i <= n,
                all_well_formed(self.spec_items().take(i as int)),
            decreases n - i,
        {
            if self.items[i].column.as_str().is_empty() {
                proof {
                    assert(!self.spec_items()[i as int].well_formed());
                }
                return Err(BuildError::EmptyColumnName);
            }
            proof {
                assert(self.spec_items().take(i as int + 1).drop_last()
                    =~= self.spec_items().take(i as int));
            }
            i = i + 1;
        }
        proof {
            assert(self.spec_items().take(n as int) =~= self.spec_items());
        }
        Ok(n == 0)
    }
}

} // verus!
