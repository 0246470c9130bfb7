//! What a record that is created or changed writes into its statement.

use vstd::prelude::*;
use crate::query::srql::{
    assignments, update_of, Assignment, SetExpr, Thing, UpdateStatement,
};

verus! {

/// The fields of a new record.
pub trait CreateObject: Sized {
    /// The assignments that the record writes, in their order.
    spec fn fields(&self) -> Seq<Assignment>;

    fn append(self, expr: &mut SetExpr)
        ensures
            assignments(final(expr)@) == assignments(old(expr)@) + self.fields(),
    ;
}

/// The changes to a record.
pub trait IntoUpdateQuery: Sized {
    /// The assignments that the change writes, in their order.
    spec fn changes(&self) -> Seq<Assignment>;

    /// The statement that makes the changes to `thing`: none where there is no change.
    fn into_update(self, thing: Thing) -> (statement: Option<UpdateStatement>)
        ensures
            match statement {
                Some(statement) => update_of(thing@, self.changes()) == Some(statement@),
                None => update_of(thing@, self.changes()) is None,
            },
    ;
}

} // verus!
