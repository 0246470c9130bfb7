//! How the values of a record are written into a statement.

use vstd::prelude::*;
use crate::query::srql::{
    assignments, Assignment, SetExpr, SetExprItem, SetOperator, Term, Thing, Value,
};

verus! {

/// A value that may be left out, cleared, or set.
#[derive(Debug, Clone, Copy, PartialEq, Eq, Hash)]
pub enum MaybeUndefined<T> {
    /// Not given: the field stays as it is.
    Undefined,
    /// Given as nothing: the field is cleared.
    Null,
    Value(T),
}

impl<T> Default for MaybeUndefined<T> {
    fn default() -> (value: Self)
        ensures
            value is Undefined,
    {
        MaybeUndefined::Undefined
    }
}

/// A point in time, in seconds since the epoch.
#[derive(Debug, Clone, Copy, PartialEq, Eq, Hash, Structural)]
pub struct Timestamp(pub i64);

/// The assignment of `term` to `field`.
pub open spec fn assigned(field: Seq<char>, term: Term) -> Assignment {
    Assignment { field, op: SetOperator::Equal, value: term }
}

/// `before` with what `term` adds for `field`: the assignment where there is a term, and
/// nothing where there is none.
pub open spec fn with_field(before: Seq<Assignment>, field: Seq<char>, term: Option<Term>) -> Seq<
    Assignment,
> {
    match term {
        Some(term) => before.push(assigned(field, term)),
        None => before,
    }
}

/// A value that can be written into a statement.
pub trait QueryValue: Sized {
    /// What the value is written as: nothing where it leaves its field alone.
    spec fn term(&self) -> Option<Term>;

    fn into_query_value(self, field: &str) -> (item: Option<SetExprItem>)
        ensures
            match item {
                Some(item) => self.term() == Some(item.value@) && item@ == assigned(
                    field@,
                    item.value@,
                ),
                None => self.term() is None,
            },
    ;

    /// Adds the assignment of the value to `field` to `expr`, where the value is written.
    fn push_field(self, field: &str, expr: &mut SetExpr)
        ensures
            assignments(final(expr)@) == with_field(assignments(old(expr)@), field@, self.term()),
    {
        let ghost before = expr@;
        if let Some(item) = self.into_query_value(field) {
            expr.push(item);
            assert(assignments(expr@) =~= assignments(before).push(item@));
        }
    }
}

impl QueryValue for String {
    open spec fn term(&self) -> Option<Term> {
        Some(Term::Strand(self@))
    }

    fn into_query_value(self, field: &str) -> (item: Option<SetExprItem>) {
        Some(
            SetExprItem {
                field: field.to_owned(),
                op: SetOperator::Equal,
                value: Value::Strand(self),
            },
        )
    }
}

impl QueryValue for Thing {
    open spec fn term(&self) -> Option<Term> {
        Some(Term::Thing(self@))
    }

    fn into_query_value(self, field: &str) -> (item: Option<SetExprItem>) {
        Some(
            SetExprItem { field: field.to_owned(), op: SetOperator::Equal, value: Value::Thing(self) },
        )
    }
}

impl QueryValue for Timestamp {
    open spec fn term(&self) -> Option<Term> {
        Some(Term::Datetime(self.0 as int))
    }

    fn into_query_value(self, field: &str) -> (item: Option<SetExprItem>) {
        Some(
            SetExprItem {
                field: field.to_owned(),
                op: SetOperator::Equal,
                value: Value::Datetime(self.0),
            },
        )
    }
}

impl<T: QueryValue> QueryValue for Option<T> {
    open spec fn term(&self) -> Option<Term> {
        match self {
            Some(value) => value.term(),
            None => None,
        }
    }

    fn into_query_value(self, field: &str) -> (item: Option<SetExprItem>) {
        match self {
            Some(value) => value.into_query_value(field),
            None => None,
        }
    }
}

impl<T: QueryValue> QueryValue for MaybeUndefined<T> {
    open spec fn term(&self) -> Option<Term> {
        match self {
            MaybeUndefined::Value(value) => value.term(),
            MaybeUndefined::Null => Some(Term::Null),
            MaybeUndefined::Undefined => None,
        }
    }

    fn into_query_value(self, field: &str) -> (item: Option<SetExprItem>) {
        match self {
            MaybeUndefined::Value(value) => value.into_query_value(field),
            MaybeUndefined::Null => Some(
                SetExprItem { field: field.to_owned(), op: SetOperator::Equal, value: Value::Null },
            ),
            MaybeUndefined::Undefined => None,
        }
    }
}

/// A value that can be written into an update.
pub trait QueryUpdateValue: Sized {
    /// What the value is written as: nothing where it leaves its field alone.
    spec fn update_term(&self) -> Option<Term>;

    fn apply_update(self, field: &str, update: &mut SetExpr)
        ensures
            assignments(final(update)@) == with_field(
                assignments(old(update)@),
                field@,
                self.update_term(),
            ),
    ;
}

impl<T: QueryValue> QueryUpdateValue for T {
    open spec fn update_term(&self) -> Option<Term> {
        self.term()
    }

    fn apply_update(self, field: &str, update: &mut SetExpr) {
        self.push_field(field, update)
    }
}

} // verus!
