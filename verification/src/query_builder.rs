use vstd::prelude::*;

use crate::backend::Backend;

verus! {

/// The errors a rendering pass can surface. They all originate in the
/// assignment-set collaborator: this crate's own fragments never fail
/// on their own, they only propagate an assignment set's failures
/// unchanged.
#[derive(Clone, Copy, Debug, PartialEq, Eq, Structural)]
pub enum BuildError {
    /// An assignment was built with an empty column identifier, so no
    /// valid `column = value` text can be produced for it.
    EmptyColumnName,
}

/// The result type of every query-construction operation.
pub type QueryResult<T> = Result<T, BuildError>;

/// The abstract state of an [`AstPass`]: the SQL text produced so far
/// and whether the statement is still eligible for plan caching.
pub struct AstPassView {
    pub sql: Seq<char>,
    pub cacheable: bool,
}

/// The output context of one rendering pass over a statement's AST.
/// It accumulates SQL text and carries the statement's cacheability
/// flag, which is a one-way downgrade: once cleared it is never set
/// again for the lifetime of the pass.
pub struct AstPass {
    sql: String,
    cacheable: bool,
}

impl View for AstPass {
    type V = AstPassView;

    closed spec fn view(&self) -> AstPassView {
        AstPassView { sql: self.sql@, cacheable: self.cacheable }
    }
}

impl AstPass {
    /// Starts a pass with no output and a cacheable statement.
    pub fn new() -> (pass: AstPass)
        ensures
            pass@.sql == Seq::<char>::empty(),
            pass@.cacheable,
    {
        AstPass { sql: String::new(), cacheable: true }
    }

    /// Appends literal SQL text to the output.
    pub fn push_sql(&mut self, text: &str)
        ensures
            final(self)@.sql == old(self)@.sql + text@,
            final(self)@.cacheable == old(self)@.cacheable,
    {
        self.sql.append(text);
    }

    /// Appends an identifier, quoted by the backend's rules.
    pub fn push_identifier<DB: Backend>(&mut self, ident: &str) -> (r: QueryResult<()>)
        ensures
            r is Ok,
            final(self)@.sql == old(self)@.sql + DB::spec_quoted(ident@),
            final(self)@.cacheable == old(self)@.cacheable,
    {
        let quoted = DB::quote_identifier(ident);
        self.sql.append(quoted.as_str());
        Ok(())
    }

    /// Marks the statement being built as not eligible for plan
    /// caching. The downgrade is one-way: no operation on a pass ever
    /// sets the flag back.
    pub fn unsafe_to_cache_prepared(&mut self)
        ensures
            final(self)@.sql == old(self)@.sql,
            !final(self)@.cacheable,
    {
        self.cacheable = false;
    }

    /// The SQL text produced so far.
    pub fn sql_str(&self) -> (r: &str)
        ensures
            r@ == self@.sql,
    {
        self.sql.as_str()
    }

    /// Whether the statement is still eligible for plan caching.
    pub fn is_safe_to_cache_prepared(&self) -> (r: bool)
        ensures
            r == self@.cacheable,
    {
        self.cacheable
    }
}

/// One node of a statement's AST, renderable against backend `DB`.
///
/// The contract of `walk_ast` pins rendering down completely on
/// success: the outcome and the text appended are pure functions of the
/// fragment alone, so rendering the same fragment twice appends the
/// same text both times, and the cacheability flag can only ever move
/// from set to cleared.
pub trait QueryFragment<DB: Backend>: Sized {
    /// The SQL text this fragment appends to the pass when rendering
    /// succeeds.
    spec fn sql_spec(&self) -> Seq<char>;

    /// The outcome of rendering this fragment.
    spec fn walk_result_spec(&self) -> QueryResult<()>;

    /// The answer of the no-op protocol: whether this fragment would
    /// render as nothing at all, or an error when that cannot be
    /// determined.
    spec fn is_noop_spec(&self) -> QueryResult<bool>;

    /// Whether rendering this fragment keeps the statement eligible
    /// for plan caching.
    spec fn preserves_cacheability(&self) -> bool;

    /// Renders this fragment into the pass.
    fn walk_ast(&self, out: &mut AstPass) -> (r: QueryResult<()>)
        ensures
            r == self.walk_result_spec(),
            r is Ok ==> final(out)@.sql == old(out)@.sql + self.sql_spec(),
            final(out)@.cacheable == (old(out)@.cacheable && self.preserves_cacheability()),
    ;

    /// Asks whether this fragment renders as nothing, without
    /// rendering any of it. It is a pure query: it never touches an
    /// output pass.
    fn is_noop(&self) -> (r: QueryResult<bool>)
        ensures
            r == self.is_noop_spec(),
    ;
}

/// Law: rendering is idempotent in the emitted text. Walking one
/// fragment twice (its state held fixed) appends byte-identical SQL
/// both times, because the text appended on success is a function of
/// the fragment alone. The two passes may start from different
/// prefixes; the appended suffixes still agree.
pub proof fn lemma_render_idempotent<DB, T>(
    fragment: &T,
    first_before: Seq<char>,
    first_after: Seq<char>,
    second_before: Seq<char>,
    second_after: Seq<char>,
)
    where
        DB: Backend,
        T: QueryFragment<DB>,
    requires
        first_after == first_before + fragment.sql_spec(),
        second_after == second_before + fragment.sql_spec(),
    ensures
        first_after.skip(first_before.len() as int)
            == second_after.skip(second_before.len() as int),
{
    assert(first_after.skip(first_before.len() as int) =~= fragment.sql_spec());
    assert(second_after.skip(second_before.len() as int) =~= fragment.sql_spec());
}

} // verus!
