//! The pagination arguments of a request, and their validation.

use vstd::prelude::*;
use vstd::std_specs::convert::TryFromSpecImpl;
use crate::error::Error;
use crate::query::cursor::{cursor_key, OpaqueCursor};
use crate::query::slice::text_of;

verus! {

/// Default and largest number of items on one page.
pub const MAX_LIMIT: i64 = 100;

/// Rows requested beyond the page size: one sentinel per boundary.
pub const PAGE_EXTRA: i64 = 2;

/// Which end of the window a page is counted from, and how many items it asks for.
#[derive(Debug, Clone, Copy, PartialEq, Eq, Hash, Structural)]
pub enum PaginationDirection {
    First(i64),
    Last(i64),
}

impl PaginationDirection {
    /// The requested page size.
    pub open spec fn count(self) -> int {
        match self {
            PaginationDirection::First(n) => n as int,
            PaginationDirection::Last(n) => n as int,
        }
    }

    pub fn limit(&self) -> (n: i64)
        ensures
            n == self.count(),
    {
        match self {
            PaginationDirection::First(lim) => *lim,
            PaginationDirection::Last(lim) => *lim,
        }
    }
}

/// The pagination arguments as a request hands them over.
#[derive(Debug, Clone, PartialEq, Eq, Hash)]
pub struct PaginationArgs {
    pub after: Option<String>,
    pub before: Option<String>,
    pub first: Option<i32>,
    pub last: Option<i32>,
}

/// [`PaginationArgs`] as a mathematical value.
pub struct RawRequest {
    pub after: Option<Seq<char>>,
    pub before: Option<Seq<char>>,
    pub first: Option<int>,
    pub last: Option<int>,
}

impl View for PaginationArgs {
    type V = RawRequest;

    open spec fn view(&self) -> RawRequest {
        RawRequest {
            after: text_of(self.after),
            before: text_of(self.before),
            first: match self.first {
                Some(n) => Some(n as int),
                None => None,
            },
            last: match self.last {
                Some(n) => Some(n as int),
                None => None,
            },
        }
    }
}

/// Validated pagination arguments: a direction with its page size, and the two boundary
/// keys.
#[derive(Debug, Default, Clone, PartialEq, Eq, Hash)]
pub struct PaginationInput {
    pub direction: Option<PaginationDirection>,
    pub after: Option<OpaqueCursor<String>>,
    pub before: Option<OpaqueCursor<String>>,
}

/// [`PaginationInput`] as a mathematical value.
pub struct Request {
    pub direction: Option<PaginationDirection>,
    pub after: Option<Seq<char>>,
    pub before: Option<Seq<char>>,
}

/// The key of an optional cursor.
pub open spec fn key_of(cursor: Option<OpaqueCursor<String>>) -> Option<Seq<char>> {
    match cursor {
        Some(cursor) => Some(cursor@),
        None => None,
    }
}

impl View for PaginationInput {
    type V = Request;

    open spec fn view(&self) -> Request {
        Request {
            direction: self.direction,
            after: key_of(self.after),
            before: key_of(self.before),
        }
    }
}

impl RawRequest {
    /// Why the page size arguments are refused, if they are: the first of the rules on
    /// `first` and `last` that is broken.
    pub open spec fn size_fault(self) -> Option<Seq<char>> {
        size_fault(self.first, self.last)
    }

    /// Both cursors, where given, stand for a key.
    pub open spec fn cursors_readable(self) -> bool {
        &&& self.after matches Some(cursor) ==> cursor_key(cursor) is Some
        &&& self.before matches Some(cursor) ==> cursor_key(cursor) is Some
    }

    /// The arguments pass validation.
    pub open spec fn valid(self) -> bool {
        self.size_fault() is None && self.cursors_readable()
    }

    /// `err` is a refusal of the arguments: they are not valid, and where a page size is
    /// at fault, the reason says how.
    pub open spec fn refused_with(self, err: Error) -> bool {
        &&& !self.valid()
        &&& err matches Error::PaginationInvalid(reason)
        &&& self.size_fault() matches Some(fault) ==> reason@ == fault
    }

    /// The direction that the arguments ask for.
    pub open spec fn direction(self) -> Option<PaginationDirection> {
        direction_of(self.first, self.last)
    }

    /// What valid arguments are validated to.
    pub open spec fn validated(self) -> Request {
        Request {
            direction: self.direction(),
            after: match self.after {
                Some(cursor) => cursor_key(cursor),
                None => None,
            },
            before: match self.before {
                Some(cursor) => cursor_key(cursor),
                None => None,
            },
        }
    }
}

/// Why the page size arguments `first` and `last` are refused, if they are: the first of
/// the rules on them that is broken.
pub open spec fn size_fault(first: Option<int>, last: Option<int>) -> Option<Seq<char>> {
    if first is Some && last is Some {
        Some("first and last mutually exclusive"@)
    } else if first is Some && first->0 < 0 {
        Some("first must be non-negative"@)
    } else if last is Some && last->0 < 0 {
        Some("last must be non-negative"@)
    } else {
        None
    }
}

/// The direction that `first` and `last` ask for.
pub open spec fn direction_of(first: Option<int>, last: Option<int>) -> Option<
    PaginationDirection,
> {
    match (first, last) {
        (Some(first), _) => Some(PaginationDirection::First(first as i64)),
        (None, Some(last)) => Some(PaginationDirection::Last(last as i64)),
        (None, None) => None,
    }
}

/// The number of an optional page size.
pub open spec fn size_of(size: Option<i32>) -> Option<int> {
    match size {
        Some(n) => Some(n as int),
        None => None,
    }
}

/// The cursor that was read, where one was given and read.
pub open spec fn read_cursor(cursor: Option<Result<OpaqueCursor<String>, Error>>) -> Option<
    OpaqueCursor<String>,
> {
    match cursor {
        Some(Ok(cursor)) => Some(cursor),
        _ => None,
    }
}

/// Why the cursors are refused, if they are: the failure to read `after`, and else the
/// failure to read `before`.
pub open spec fn cursor_fault(
    after: Option<Result<OpaqueCursor<String>, Error>>,
    before: Option<Result<OpaqueCursor<String>, Error>>,
) -> Option<Error> {
    match (after, before) {
        (Some(Err(err)), _) => Some(err),
        (_, Some(Err(err))) => Some(err),
        _ => None,
    }
}

/// Reads an optional cursor: nothing from nothing, and a key or a failure from a text.
fn decoded(cursor: Option<String>) -> (res: Option<Result<OpaqueCursor<String>, Error>>)
    ensures
        match text_of(cursor) {
            Some(text) => res matches Some(read) && match cursor_key(text) {
                Some(key) => read matches Ok(cursor) && cursor@ == key,
                None => read is Err,
            },
            None => res is None,
        },
{
    match cursor {
        Some(cursor) => Some(OpaqueCursor::decode_cursor(cursor.as_str())),
        None => None,
    }
}

impl PaginationInput {
    /// The request for `direction` between the two cursors as they were read. A cursor
    /// that could not be read refuses the request, `after` before `before`, with the
    /// reason that reading it gave.
    pub fn from_decoded(
        direction: Option<PaginationDirection>,
        after: Option<Result<OpaqueCursor<String>, Error>>,
        before: Option<Result<OpaqueCursor<String>, Error>>,
    ) -> (res: Result<Self, Error>)
        ensures
            match cursor_fault(after, before) {
                Some(fault) => res matches Err(Error::PaginationInvalid(reason)) && reason@
                    == fault.message_text(),
                None => res == Ok::<Self, Error>(
                    PaginationInput {
                        direction,
                        after: read_cursor(after),
                        before: read_cursor(before),
                    },
                ),
            },
    {
        let after = match after {
            Some(Ok(cursor)) => Some(cursor),
            Some(Err(err)) => {
                return Err(Error::PaginationInvalid(err.message()));
            },
            None => None,
        };
        let before = match before {
            Some(Ok(cursor)) => Some(cursor),
            Some(Err(err)) => {
                return Err(Error::PaginationInvalid(err.message()));
            },
            None => None,
        };
        Ok(PaginationInput { direction, after, before })
    }

    /// A request for the first page of the default size.
    pub fn new() -> (input: Self)
        ensures
            input@ == (Request { direction: None, after: None, before: None }),
    {
        PaginationInput { direction: None, after: None, before: None }
    }

    /// The same request, for the `first` items after the start of the window.
    #[must_use]
    pub fn forward(self, first: i64) -> (input: Self)
        ensures
            input@ == (Request {
                direction: Some(PaginationDirection::First(first)),
                ..self@
            }),
    {
        let mut input = self;
        input.direction = Some(PaginationDirection::First(first));
        input
    }

    /// The same request, for the `last` items before the end of the window.
    #[must_use]
    pub fn backward(self, last: i64) -> (input: Self)
        ensures
            input@ == (Request { direction: Some(PaginationDirection::Last(last)), ..self@ }),
    {
        let mut input = self;
        input.direction = Some(PaginationDirection::Last(last));
        input
    }

    /// The same request, with the window starting after `after`.
    #[must_use]
    pub fn set_after(self, after: Option<OpaqueCursor<String>>) -> (input: Self)
        ensures
            input@ == (Request { after: key_of(after), ..self@ }),
    {
        let mut input = self;
        input.after = after;
        input
    }

    /// The same request, with the window ending before `before`.
    #[must_use]
    pub fn set_before(self, before: Option<OpaqueCursor<String>>) -> (input: Self)
        ensures
            input@ == (Request { before: key_of(before), ..self@ }),
    {
        let mut input = self;
        input.before = before;
        input
    }
}

/// What the conversion gives is stated by its own `ensures`, over views: it reads
/// cursors, and builds the reason of a refusal.
impl TryFromSpecImpl<PaginationArgs> for PaginationInput {
    open spec fn obeys_try_from_spec() -> bool {
        false
    }

    open spec fn try_from_spec(args: PaginationArgs) -> Result<Self, Error> {
        arbitrary()
    }
}

impl TryFrom<PaginationArgs> for PaginationInput {
    type Error = Error;

    /// Validates pagination arguments. They are refused when both `first` and `last` are
    /// given, when the one given is negative, and when a cursor stands for no key; the
    /// reason names the first of these that holds.
    fn try_from(args: PaginationArgs) -> (res: Result<Self, Error>)
        ensures
            match res {
                Ok(input) => args@.valid() && input@ == args@.validated(),
                Err(err) => args@.refused_with(err),
            },
    {
        let PaginationArgs { after, before, first, last } = args;
        let direction = match PaginationArgs::direction(first, last) {
            Ok(direction) => direction,
            Err(err) => {
                return Err(err);
            },
        };
        PaginationInput::from_decoded(direction, decoded(after), decoded(before))
    }
}

impl PaginationArgs {
    /// The direction that the page size arguments ask for, or the refusal of the first
    /// rule that they break: not both of them, and none of them negative.
    pub fn direction(first: Option<i32>, last: Option<i32>) -> (res: Result<
        Option<PaginationDirection>,
        Error,
    >)
        ensures
            match res {
                Ok(direction) => size_fault(size_of(first), size_of(last)) is None && direction
                    == direction_of(size_of(first), size_of(last)),
                Err(err) => err matches Error::PaginationInvalid(reason) && size_fault(
                    size_of(first),
                    size_of(last),
                ) == Some(reason@),
            },
    {
        match (first, last) {
            (Some(_), Some(_)) => Err(
                Error::PaginationInvalid("first and last mutually exclusive".to_owned()),
            ),
            (Some(first), None) => {
                if first >= 0 {
                    Ok(Some(PaginationDirection::First(first as i64)))
                } else {
                    Err(Error::PaginationInvalid("first must be non-negative".to_owned()))
                }
            },
            (None, Some(last)) => {
                if last >= 0 {
                    Ok(Some(PaginationDirection::Last(last as i64)))
                } else {
                    Err(Error::PaginationInvalid("last must be non-negative".to_owned()))
                }
            },
            (None, None) => Ok(None),
        }
    }

    /// Validates the arguments: see [`PaginationInput::try_from`].
    pub fn validate(self) -> (res: Result<PaginationInput, Error>)
        ensures
            match res {
                Ok(input) => self@.valid() && input@ == self@.validated(),
                Err(err) => self@.refused_with(err),
            },
    {
        PaginationInput::try_from(self)
    }
}

/// `first` and `last` exclude each other: arguments that hold both never pass
/// validation. Arguments that hold one of them or neither, not negative, pass exactly if
/// the cursors they hold stand for keys; with no cursor, or readable ones, always.
pub proof fn lemma_first_and_last_exclusive(raw: RawRequest)
    ensures
        raw.first is Some && raw.last is Some ==> !raw.valid(),
        !(raw.first is Some && raw.last is Some) && (raw.first matches Some(n) ==> n >= 0) && (
        raw.last matches Some(n) ==> n >= 0) ==> (raw.valid() <==> raw.cursors_readable()),
{
}

} // verus!
