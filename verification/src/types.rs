//! The pagination arguments as a tuple, as a resolver hands them on.

use vstd::prelude::*;
use vstd::std_specs::convert::FromSpecImpl;
use crate::query::pagination::PaginationArgs;

verus! {

/// `after`, `before`, `first` and `last`, in this order.
pub type PaginationTuple = (Option<String>, Option<String>, Option<i32>, Option<i32>);

/// The four arguments of `tuple` as [`PaginationArgs`].
pub open spec fn args_of(tuple: PaginationTuple) -> PaginationArgs {
    PaginationArgs { after: tuple.0, before: tuple.1, first: tuple.2, last: tuple.3 }
}

/// The four arguments of `args` as a tuple.
pub open spec fn tuple_of(args: PaginationArgs) -> PaginationTuple {
    (args.after, args.before, args.first, args.last)
}

impl FromSpecImpl<PaginationTuple> for PaginationArgs {
    open spec fn obeys_from_spec() -> bool {
        true
    }

    open spec fn from_spec(tuple: PaginationTuple) -> Self {
        args_of(tuple)
    }
}

impl From<PaginationTuple> for PaginationArgs {
    fn from(tuple: PaginationTuple) -> (args: Self) {
        let (after, before, first, last) = tuple;
        PaginationArgs { after, before, first, last }
    }
}

pub trait IntoPaginationTuple {
    /// The tuple that the value turns into.
    spec fn as_tuple(&self) -> PaginationTuple;

    fn into_pagination_tuple(self) -> (tuple: PaginationTuple)
        ensures
            tuple == self.as_tuple(),
    ;
}

impl IntoPaginationTuple for PaginationArgs {
    open spec fn as_tuple(&self) -> PaginationTuple {
        tuple_of(*self)
    }

    fn into_pagination_tuple(self) -> (tuple: PaginationTuple) {
        (self.after, self.before, self.first, self.last)
    }
}

impl IntoPaginationTuple for Option<PaginationArgs> {
    open spec fn as_tuple(&self) -> PaginationTuple {
        match self {
            Some(args) => tuple_of(*args),
            None => (None, None, None, None),
        }
    }

    fn into_pagination_tuple(self) -> (tuple: PaginationTuple) {
        match self {
            Some(args) => args.into_pagination_tuple(),
            None => (None, None, None, None),
        }
    }
}

/// A tuple made from arguments holds them, and arguments made from a tuple hold it.
pub proof fn lemma_tuple_round_trip(args: PaginationArgs, tuple: PaginationTuple)
    ensures
        args_of(tuple_of(args)) == args,
        tuple_of(args_of(tuple)) == tuple,
{
}

} // verus!
