//! Boards: what a board is created with and changed by.

use vstd::prelude::*;
use crate::account::{CurrentAccount, ACC_TABLE_NAME};
use crate::conv::{AsMaybeStr, ToGqlId};
use crate::error::Error;
use crate::query::list::BOARD_TABLE_NAME;
use crate::query::object::{CreateObject, IntoUpdateQuery};
use crate::query::slice::text_of;
use crate::query::srql::{
    assignments, obj_create_query_id, obj_update_query, thing, Assignment, Assignments,
    CreateStatement, Creation, Id, Key, Output, Record, SetExpr, Term, Thing, UpdateStatement, stamp,
    update_of,
};
use crate::query::value::{with_field, MaybeUndefined, QueryValue};

verus! {

/// A board as the store holds it.
#[derive(Debug, Clone, PartialEq, Eq)]
pub struct Board {
    pub id: Thing,
    pub creator_id: Option<Thing>,
    /// The board's unique handle. This is used to refer to the board in URLs
    /// and by users. It must be unique, but can be changed (if the server allows it).
    pub handle: String,
    /// The board's display name. If not present, the handle is (usually) used instead.
    pub name: Option<String>,
    /// The board's description.
    pub description: Option<String>,
    /// When the board was last changed, in seconds since the epoch.
    pub updated_at: i64,
}

#[derive(Debug, Clone, PartialEq, Eq)]
pub struct CreateBoard {
    /// The board's unique handle.
    ///
    /// This will default to the user's ID if not present.
    pub handle: Option<String>,
    /// The board's display name. If not present, the handle is (usually) used instead.
    pub name: Option<String>,
    /// The board's description.
    pub description: Option<String>,
}

#[derive(Debug, Clone, PartialEq, Eq)]
pub struct UpdateBoard {
    /// The new handle. If not given, the handle is not changed.
    pub handle: Option<String>,
    /// The new name. If not given, the name is not changed. If null is given,
    /// the name is cleared.
    pub name: MaybeUndefined<String>,
    /// The new description. If not given, the description is not changed. If
    /// null is given, the description is cleared.
    pub description: MaybeUndefined<String>,
}

/// The boards, as the account of the current session may see and change them.
#[derive(Debug, Clone, PartialEq, Eq)]
pub struct BoardPersist {
    pub current: CurrentAccount,
}

impl AsMaybeStr for Board {
    open spec fn maybe_str(&self) -> Option<Seq<char>> {
        self.id.maybe_str()
    }

    fn as_maybe_str(&self) -> (s: Option<&str>) {
        self.id.as_maybe_str()
    }
}

impl ToGqlId for Board {
    open spec fn gql_id(&self) -> Seq<char> {
        self.id.gql_id()
    }

    fn to_gql_id(&self) -> (id: String) {
        self.id.to_gql_id()
    }
}

/// The text as a term, where there is one.
pub open spec fn strand(text: Option<Seq<char>>) -> Option<Term> {
    match text {
        Some(text) => Some(Term::Strand(text)),
        None => None,
    }
}

/// The record of the account of a session, as a term, where the session is logged in.
pub open spec fn account_term(current: CurrentAccount) -> Option<Term> {
    match current.account {
        Some(account) => Some(
            Term::Thing(Record { tb: ACC_TABLE_NAME@, id: Key::Text(account.id@) }),
        ),
        None => None,
    }
}

/// The assignments of a new board with this handle, name and description, as far as
/// they are given.
pub open spec fn board_fields(
    handle: Option<Seq<char>>,
    name: Option<Seq<char>>,
    description: Option<Seq<char>>,
) -> Seq<Assignment> {
    with_field(
        with_field(with_field(Seq::empty(), "handle"@, strand(handle)), "name"@, strand(name)),
        "description"@,
        strand(description),
    )
}

/// The handle that a board is created with: the one given, and else the name that the
/// account of the session logs in with.
pub open spec fn chosen_handle(board: CreateBoard, current: CurrentAccount) -> Option<Seq<char>> {
    match (board.handle, current.account) {
        (Some(handle), _) => Some(handle@),
        (None, Some(account)) => Some(account.user_id@),
        (None, None) => None,
    }
}

impl CreateObject for CreateBoard {
    open spec fn fields(&self) -> Seq<Assignment> {
        board_fields(text_of(self.handle), text_of(self.name), text_of(self.description))
    }

    fn append(self, expr: &mut SetExpr) {
        let ghost before = assignments(expr@);
        self.handle.push_field("handle", expr);
        self.name.push_field("name", expr);
        self.description.push_field("description", expr);
        assert(assignments(expr@) =~= before + self.fields());
    }
}

impl IntoUpdateQuery for UpdateBoard {
    open spec fn changes(&self) -> Seq<Assignment> {
        with_field(
            with_field(
                with_field(Seq::empty(), "handle"@, self.handle.term()),
                "name"@,
                self.name.term(),
            ),
            "description"@,
            self.description.term(),
        )
    }

    fn into_update(self, thing: Thing) -> (statement: Option<UpdateStatement>) {
        let mut update: SetExpr = Vec::new();
        assert(assignments(update@) =~= Seq::<Assignment>::empty());
        self.handle.push_field("handle", &mut update);
        self.name.push_field("name", &mut update);
        self.description.push_field("description", &mut update);
        obj_update_query(thing, update)
    }
}

impl Board {
    /// The assignments of a new board: who created it, where that is known, and then
    /// what it is created with.
    pub open spec fn creation_fields(creator_id: Option<Thing>, params: CreateBoard) -> Seq<
        Assignment,
    > {
        with_field(Seq::empty(), "creator_id"@, creator_id.term()) + params.fields()
    }

    /// The statement that creates the board `id` with `params`.
    pub fn create(creator_id: Option<Thing>, params: CreateBoard, id: Id) -> (statement:
        CreateStatement)
        ensures
            statement@ == (Creation {
                what: Record { tb: BOARD_TABLE_NAME@, id: id@ },
                data: Assignments::SetExpression(
                    Board::creation_fields(creator_id, params).push(stamp()),
                ),
                output: Output::After,
            }),
    {
        let mut create: SetExpr = Vec::new();
        assert(assignments(create@) =~= Seq::<Assignment>::empty());
        creator_id.push_field("creator_id", &mut create);
        params.append(&mut create);
        obj_create_query_id(BOARD_TABLE_NAME, create, id)
    }

    /// The identifier of the account that created the board, where that is known.
    pub fn creator_id(&self) -> (id: Option<String>)
        ensures
            match self.creator_id {
                Some(creator) => text_of(id) == Some(creator.gql_id()),
                None => id is None,
            },
    {
        match &self.creator_id {
            Some(creator) => Some(creator.to_gql_id()),
            None => None,
        }
    }
}

impl BoardPersist {
    pub fn new(current: CurrentAccount) -> (persist: Self)
        ensures
            persist.current == current,
    {
        BoardPersist { current }
    }

    /// What the board is created with: as given, with the name that the account logs in
    /// with for a handle where none is given. A board without a handle cannot be created
    /// by a session that is not logged in.
    pub fn with_handle(&self, board: CreateBoard) -> (res: Result<CreateBoard, Error>)
        ensures
            match (board.handle, self.current.account) {
                (Some(_), _) => res == Ok::<CreateBoard, Error>(board),
                (None, Some(account)) => res matches Ok(named) && text_of(named.handle) == Some(
                    account.user_id@,
                ) && named.name == board.name && named.description == board.description,
                (None, None) => res matches Err(Error::MissingIdent),
            },
    {
        let mut board = board;
        if board.handle.is_none() {
            match self.current.user_id() {
                Ok(user_id) => {
                    board.handle = Some(user_id.to_owned());
                },
                Err(_) => {
                    return Err(Error::MissingIdent);
                },
            }
        }
        Ok(board)
    }

    /// The statement that creates the board `id`, by the account of the session and
    /// under the handle chosen for it; or why it cannot be created.
    pub fn create(&self, board: CreateBoard, id: Id) -> (res: Result<CreateStatement, Error>)
        ensures
            match res {
                Ok(statement) => chosen_handle(board, self.current) is Some && statement@ == (
                Creation {
                    what: Record { tb: BOARD_TABLE_NAME@, id: id@ },
                    data: Assignments::SetExpression(
                        (with_field(Seq::empty(), "creator_id"@, account_term(self.current))
                            + board_fields(
                            chosen_handle(board, self.current),
                            text_of(board.name),
                            text_of(board.description),
                        )).push(stamp()),
                    ),
                    output: Output::After,
                }),
                Err(err) => err is MissingIdent && chosen_handle(board, self.current) is None,
            },
    {
        match self.with_handle(board) {
            Ok(board) => Ok(Board::create(self.current.thing(), board, id)),
            Err(err) => Err(err),
        }
    }

    /// The statement that changes the board `id`: none where nothing is to change, and
    /// the board is only to be read.
    pub fn update(&self, id: &str, update: UpdateBoard) -> (statement: Option<UpdateStatement>)
        ensures
            match statement {
                Some(statement) => update_of(
                    Record { tb: BOARD_TABLE_NAME@, id: Key::Text(id@) },
                    update.changes(),
                ) == Some(statement@),
                None => update.changes().len() == 0,
            },
    {
        update.into_update(thing(BOARD_TABLE_NAME, id))
    }
}

} // verus!
