use vstd::prelude::*;

verus! {

/// A database backend, as the query builder sees it. The only service the
/// conflict-action fragments need from a backend is identifier quoting;
/// everything else a backend does is out of this crate's scope.
pub trait Backend: Sized {
    /// The backend's quoted form of an identifier.
    spec fn spec_quoted(ident: Seq<char>) -> Seq<char>;

    /// Quotes an identifier for inclusion in SQL text.
    fn quote_identifier(ident: &str) -> (quoted: String)
        ensures
            quoted@ == Self::spec_quoted(ident@),
    ;
}

/// Capability marker: a backend whose SQL grammar accepts the
/// `ON CONFLICT` clause declares it by implementing this trait.
/// The conflict-action fragments can only be rendered against such a
/// backend — against any other, the rendering impls simply do not
/// exist, so a capability mismatch is unrepresentable rather than a
/// runtime error.
pub trait SupportsOnConflictClause {}

/// A PostgreSQL-flavoured backend, the canonical one with an
/// `ON CONFLICT` clause. It quotes identifiers by wrapping them in
/// double quotes, doubling any double quote the identifier itself
/// contains.
pub struct Pg;

/// An identifier's text with every embedded double quote doubled,
/// ready to be wrapped in double quotes.
pub open spec fn pg_escaped(ident: Seq<char>) -> Seq<char>
    decreases ident.len(),
{
    if ident.len() == 0 {
        Seq::<char>::empty()
    } else {
        pg_escaped(ident.drop_last()) + (if ident.last() == '"' {
            seq!['"', '"']
        } else {
            seq![ident.last()]
        })
    }
}

impl Backend for Pg {
    open spec fn spec_quoted(ident: Seq<char>) -> Seq<char> {
        "\""@ + pg_escaped(ident) + "\""@
    }

    fn quote_identifier(ident: &str) -> (quoted: String) {
        let n = ident.unicode_len();
        let mut quoted = "\"".to_owned();
        let mut i: usize = 0;
        while i < n
            invariant
                n == ident@.len(),
                i <= n,
                quoted@ == "\""@ + pg_escaped(ident@.take(i as int)),
            decreases n - i,
        {
            let c = ident.get_char(i);
            if c == '"' {
                quoted.append("\"\"");
            } else {
                quoted.append(ident.substring_char(i, i + 1));
            }
            proof {
                let upto = ident@.take(i as int + 1);
                assert(upto.drop_last() =~= ident@.take(i as int));
                if ident@[i as int] == '"' {
                    reveal_strlit("\"\"");
                    assert("\"\""@ =~= seq!['"', '"']);
                } else {
                    assert(ident@.subrange(i as int, i as int + 1) =~= seq![ident@[i as int]]);
                }
                assert(quoted@ =~= "\""@ + pg_escaped(upto));
            }
            i = i + 1;
        }
        quoted.append("\"");
        proof {
            assert(ident@.take(n as int) =~= ident@);
        }
        quoted
    }
}

impl SupportsOnConflictClause for Pg {}

} // verus!
