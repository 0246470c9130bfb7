//! Posts: what a post is created with and changed by.

use vstd::prelude::*;
use crate::account::{created, CurrentAccount};
use crate::board::{account_term, strand};
use crate::conv::{AsMaybeStr, ToGqlId};
use crate::error::Error;
use crate::query::list::{BOARD_TABLE_NAME, POST_TABLE_NAME};
use crate::query::object::{CreateObject, IntoUpdateQuery};
use crate::query::slice::text_of;
use crate::query::srql::{
    assignments, obj_create_query_id, obj_update_query, stamp, thing, trans_begin, trans_end,
    update_of, Assignment, Assignments, CreateStatement, Creation, Id, Key, Output, Record,
    RelateStatement, SetExpr, Statement, Term, Thing, UpdateStatement,
};
use crate::query::value::{with_field, MaybeUndefined, QueryValue};

verus! {

/// The name that the edges from a board to its posts are stored under.
pub const CONTAINS_TABLE_NAME: &'static str = "contains_post";

/// A post as the store holds it.
#[derive(Debug, Clone, PartialEq, Eq)]
pub struct Post {
    pub id: Thing,
    pub creator_id: Option<Thing>,
    pub board_id: Option<Thing>,
    /// The post's title.
    pub title: Option<String>,
    /// The post's content.
    pub content: Option<String>,
    /// When the post was last changed, in seconds since the epoch; not present where it
    /// never was.
    pub updated_at: Option<i64>,
}

#[derive(Debug, Clone, PartialEq, Eq)]
pub struct CreatePost {
    /// The ID of the board that this post belongs to. This cannot be changed.
    pub board_id: Option<String>,
    /// The post's title.
    pub title: Option<String>,
    /// The post's content.
    pub content: Option<String>,
}

#[derive(Debug, Clone, PartialEq, Eq)]
pub struct UpdatePost {
    /// The post's title. If not given, the title is not changed. If null is given,
    /// the title is cleared.
    pub title: MaybeUndefined<String>,
    /// The post's content. If not given, the content is not changed. If null is given,
    /// the content is cleared.
    pub content: MaybeUndefined<String>,
}

/// The posts, as the account of the current session may see and change them.
#[derive(Debug, Clone, PartialEq, Eq)]
pub struct PostPersist {
    pub current: CurrentAccount,
}

impl AsMaybeStr for Post {
    open spec fn maybe_str(&self) -> Option<Seq<char>> {
        self.id.maybe_str()
    }

    fn as_maybe_str(&self) -> (s: Option<&str>) {
        self.id.as_maybe_str()
    }
}

impl ToGqlId for Post {
    open spec fn gql_id(&self) -> Seq<char> {
        self.id.gql_id()
    }

    fn to_gql_id(&self) -> (id: String) {
        self.id.to_gql_id()
    }
}

/// The board with the key `board_id`, as a term, where one is given.
pub open spec fn board_term(board_id: Option<Seq<char>>) -> Option<Term> {
    match board_id {
        Some(id) => Some(Term::Thing(Record { tb: BOARD_TABLE_NAME@, id: Key::Text(id) })),
        None => None,
    }
}

/// The assignments of a new post on this board, with this title and content, as far as
/// they are given.
pub open spec fn post_fields(
    board_id: Option<Seq<char>>,
    title: Option<Seq<char>>,
    content: Option<Seq<char>>,
) -> Seq<Assignment> {
    with_field(
        with_field(
            with_field(Seq::empty(), "board_id"@, board_term(board_id)),
            "title"@,
            strand(title),
        ),
        "content"@,
        strand(content),
    )
}

impl CreateObject for CreatePost {
    open spec fn fields(&self) -> Seq<Assignment> {
        post_fields(text_of(self.board_id), text_of(self.title), text_of(self.content))
    }

    fn append(self, expr: &mut SetExpr) {
        let ghost before = assignments(expr@);
        let board = match self.board_id {
            Some(id) => Some(thing(BOARD_TABLE_NAME, id.as_str())),
            None => None,
        };
        board.push_field("board_id", expr);
        self.title.push_field("title", expr);
        self.content.push_field("content", expr);
        assert(assignments(expr@) =~= before + self.fields());
    }
}

impl IntoUpdateQuery for UpdatePost {
    open spec fn changes(&self) -> Seq<Assignment> {
        with_field(
            with_field(Seq::empty(), "title"@, self.title.term()),
            "content"@,
            self.content.term(),
        )
    }

    fn into_update(self, thing: Thing) -> (statement: Option<UpdateStatement>) {
        let mut update: SetExpr = Vec::new();
        assert(assignments(update@) =~= Seq::<Assignment>::empty());
        self.title.push_field("title", &mut update);
        self.content.push_field("content", &mut update);
        obj_update_query(thing, update)
    }
}

/// The statement that creates the post `id` with `params`, by `creator`.
pub open spec fn post_creation(creator: Option<Term>, params: CreatePost, id: Seq<char>)
    -> Creation {
    Creation {
        what: Record { tb: POST_TABLE_NAME@, id: Key::Text(id) },
        data: Assignments::SetExpression(
            (with_field(Seq::empty(), "creator_id"@, creator) + params.fields()).push(stamp()),
        ),
        output: Output::After,
    }
}

impl Post {
    /// The statement that creates the post `id` with `params`, and, where the post is on
    /// a board, the board together with the key of the post: the two ends of the edge
    /// that is to tie them.
    pub fn create(creator_id: Option<Thing>, params: CreatePost, id: String) -> (res: (
        Option<(Thing, String)>,
        CreateStatement,
    ))
        ensures
            res.1@ == post_creation(creator_id.term(), params, id@),
            match params.board_id {
                Some(board_id) => res.0 matches Some((board, post)) && board@ == (Record {
                    tb: BOARD_TABLE_NAME@,
                    id: Key::Text(board_id@),
                }) && post@ == id@,
                None => res.0 is None,
            },
    {
        let mut create: SetExpr = Vec::new();
        assert(assignments(create@) =~= Seq::<Assignment>::empty());
        creator_id.push_field("creator_id", &mut create);
        let ends = match &params.board_id {
            Some(board_id) => Some((thing(BOARD_TABLE_NAME, board_id.as_str()), id.clone())),
            None => None,
        };
        params.append(&mut create);
        (ends, obj_create_query_id(POST_TABLE_NAME, create, Id::String(id)))
    }
}

impl PostPersist {
    pub fn new(current: CurrentAccount) -> (persist: Self)
        ensures
            persist.current == current,
    {
        PostPersist { current }
    }

    /// The statements that create the post `id`, by the account of the session. A post on
    /// a board is created and tied to its board in one transaction; a post on no board
    /// is created by one statement.
    pub fn create(&self, post: CreatePost, id: String) -> (query: Vec<Statement>)
        ensures
            match post.board_id {
                Some(board_id) => {
                    &&& query@.len() == 4
                    &&& query@[0] is Begin
                    &&& query@[1] matches Statement::Create(create) && create@ == post_creation(
                        account_term(self.current),
                        post,
                        id@,
                    )
                    &&& query@[2] matches Statement::Relate(relate) && relate.kind@
                        == CONTAINS_TABLE_NAME@ && relate.from@ == (Record {
                        tb: BOARD_TABLE_NAME@,
                        id: Key::Text(board_id@),
                    }) && relate.with@ == (Record { tb: POST_TABLE_NAME@, id: Key::Text(id@) })
                    &&& query@[3] is Commit
                },
                None => query@.len() == 1 && (query@[0] matches Statement::Create(create)
                    && create@ == post_creation(account_term(self.current), post, id@)),
            },
    {
        let (ids, create) = Post::create(self.current.thing(), post, id);
        let mut query: Vec<Statement> = Vec::new();
        match ids {
            Some((board_id, post_id)) => {
                query.push(trans_begin());
                query.push(Statement::Create(create));
                query.push(
                    Statement::Relate(
                        RelateStatement {
                            kind: CONTAINS_TABLE_NAME.to_owned(),
                            from: board_id,
                            with: thing(POST_TABLE_NAME, post_id.as_str()),
                        },
                    ),
                );
                query.push(trans_end());
            },
            None => {
                query.push(Statement::Create(create));
            },
        }
        query
    }

    /// What the store answered the creation with: the post, or an error where there is
    /// none.
    pub fn created(post: Option<Post>) -> (res: Result<Post, Error>)
        ensures
            match post {
                Some(post) => res == Ok::<Post, Error>(post),
                None => res matches Err(Error::UnavailableIdent),
            },
    {
        created(post)
    }

    /// The statement that changes the post `id`: none where nothing is to change, and
    /// the post is only to be read.
    pub fn update(&self, id: &str, update: UpdatePost) -> (statement: Option<UpdateStatement>)
        ensures
            match statement {
                Some(statement) => update_of(
                    Record { tb: POST_TABLE_NAME@, id: Key::Text(id@) },
                    update.changes(),
                ) == Some(statement@),
                None => update.changes().len() == 0,
            },
    {
        update.into_update(thing(POST_TABLE_NAME, id))
    }
}

} // verus!
