use vstd::prelude::*;

use crate::expression::{Column, Expression};

verus! {

/// The SQL `TEXT` value type, as a type-level tag.
pub struct Text;

/// A small example schema: the `users` table.
pub struct Users;

/// The `users.email` column, of SQL type `TEXT`.
pub struct Email;

impl Expression for Email {
    type SqlType = Text;
}

impl Column for Email {
    type Table = Users;

    open spec fn spec_name() -> Seq<char> {
        "email"@
    }

    fn name() -> (r: String) {
        "email".to_owned()
    }
}

} // verus!
