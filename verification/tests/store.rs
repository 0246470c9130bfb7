use plazer_service::account::{created, CurrentAccount, PartialAccount, ACC_TABLE_NAME};
use plazer_service::auth::DbFailure;
use plazer_service::board::{Board, BoardPersist, CreateBoard, UpdateBoard};
use plazer_service::conv::{AsMaybeStr, IntoGqlId, ToGqlId};
use plazer_service::error::Error;
use plazer_service::migration::{
    iterate_complete_update, AccountMigration, Action, Applied, BoardMigration, CompleteUpdate,
    Migration, Migrations, LOCK_JITTER_MILLIS, UPDATE_TABLE,
};
use plazer_service::persist::{LockStep, Persist, LOCK_TABLE};
use plazer_service::post::{CreatePost, Post, PostPersist, UpdatePost, CONTAINS_TABLE_NAME};
use plazer_service::query::object::{CreateObject, IntoUpdateQuery};
use plazer_service::query::srql::{
    define_uniq_index, obj_create_query_id, obj_update_query, thing, time_now, trans_begin,
    trans_end, CreateStatement, Data, DefineIndexStatement, Holds, Id, Output, RelateStatement,
    SetExprItem, SetOperator, Statement, Thing, UpdateStatement, Value,
};
use plazer_service::query::value::{MaybeUndefined, QueryUpdateValue, QueryValue, Timestamp};
use plazer_service::query::{paginate, ResultSliceOptions};

fn set(field: &str, value: Value) -> SetExprItem {
    SetExprItem { field: field.to_string(), op: SetOperator::Equal, value }
}

fn strand(text: &str) -> Value {
    Value::Strand(text.to_string())
}

fn stamp() -> SetExprItem {
    set("updated_at", Value::Function("time::now".to_string()))
}

fn record(tb: &str, id: &str) -> Thing {
    Thing { tb: tb.to_string(), id: Id::String(id.to_string()) }
}

fn logged_in() -> CurrentAccount {
    CurrentAccount::new(PartialAccount { id: "acc1".to_string(), user_id: "alice".to_string() })
}

#[test]
fn test_thing_and_time_now() {
    assert_eq!(thing("board", "b1"), record("board", "b1"));
    assert_eq!(time_now(), Value::Function("time::now".to_string()));
    assert_eq!(trans_begin(), Statement::Begin);
    assert_eq!(trans_end(), Statement::Commit);
    assert_eq!(thing("board", "b1").copy(), record("board", "b1"));
    assert_eq!(Id::Number(7).copy(), Id::Number(7));
}

#[test]
fn test_ids_as_keys() {
    let text = Id::String("abc".to_string());
    let number = Id::Number(-42);
    assert_eq!(text.as_maybe_str(), Some("abc"));
    assert_eq!(number.as_maybe_str(), None);
    assert_eq!(text.to_gql_id(), "abc");
    assert_eq!(number.to_gql_id(), "-42");
    assert_eq!(text.clone().into_gql_id(), "abc");
    assert_eq!(number.clone().into_gql_id(), "-42");
    for (n, digits) in [
        (0_i64, "0"),
        (7, "7"),
        (10, "10"),
        (1005, "1005"),
        (-1, "-1"),
        (i64::MAX, "9223372036854775807"),
        (i64::MIN, "-9223372036854775808"),
    ] {
        assert_eq!(Id::Number(n).to_gql_id(), digits);
        assert_eq!(Id::Number(n).into_gql_id(), digits);
    }
    let numbered = Thing { tb: "t".to_string(), id: number };
    assert_eq!(numbered.as_maybe_str(), None);
    assert_eq!(numbered.to_gql_id(), "-42");
    assert_eq!(numbered.into_gql_id(), "-42");
    assert_eq!(record("t", "k").as_maybe_str(), Some("k"));
    assert_eq!(record("t", "k").into_gql_id(), "k");
}

#[test]
fn test_obj_create_query_id() {
    let statement =
        obj_create_query_id("board", vec![set("handle", strand("h"))], Id::String("b1".to_string()));
    assert_eq!(
        statement,
        CreateStatement {
            what: record("board", "b1"),
            data: Data::SetExpression(vec![set("handle", strand("h")), stamp()]),
            output: Output::After,
        }
    );
    let empty = obj_create_query_id("board", vec![], Id::Number(3));
    assert_eq!(empty.data, Data::SetExpression(vec![stamp()]));
    assert_eq!(empty.what.id, Id::Number(3));
}

#[test]
fn test_obj_update_query() {
    assert_eq!(obj_update_query(record("board", "b1"), vec![]), None);
    let statement = obj_update_query(record("board", "b1"), vec![set("name", Value::Null)]);
    assert_eq!(
        statement,
        Some(UpdateStatement {
            what: record("board", "b1"),
            data: Data::UpdateExpression(vec![set("name", Value::Null), stamp()]),
            output: Output::After,
            cond: Some(Holds { field: "id".to_string(), thing: record("board", "b1") }),
        })
    );
}

#[test]
fn test_define_uniq_index() {
    let statement = define_uniq_index("idx", "board", vec!["handle".to_string()]);
    assert_eq!(
        statement,
        Statement::Define(DefineIndexStatement {
            name: "idx".to_string(),
            what: "board".to_string(),
            cols: vec!["handle".to_string()],
            uniq: true,
        })
    );
}

#[test]
fn test_query_values() {
    assert_eq!("v".to_string().into_query_value("f"), Some(set("f", strand("v"))));
    assert_eq!(
        record("t", "k").into_query_value("f"),
        Some(set("f", Value::Thing(record("t", "k"))))
    );
    assert_eq!(Timestamp(17).into_query_value("at"), Some(set("at", Value::Datetime(17))));
    assert_eq!(Some("v".to_string()).into_query_value("f"), Some(set("f", strand("v"))));
    assert_eq!(None::<String>.into_query_value("f"), None);
    assert_eq!(
        MaybeUndefined::Value("v".to_string()).into_query_value("f"),
        Some(set("f", strand("v")))
    );
    assert_eq!(MaybeUndefined::<String>::Null.into_query_value("f"), Some(set("f", Value::Null)));
    assert_eq!(MaybeUndefined::<String>::Undefined.into_query_value("f"), None);
    assert_eq!(MaybeUndefined::<String>::default(), MaybeUndefined::Undefined);
}

#[test]
fn test_push_field_and_apply_update() {
    let mut expr = vec![set("a", strand("1"))];
    Some("2".to_string()).push_field("b", &mut expr);
    None::<String>.push_field("c", &mut expr);
    MaybeUndefined::<String>::Null.push_field("d", &mut expr);
    MaybeUndefined::<String>::Undefined.push_field("e", &mut expr);
    assert_eq!(expr, vec![set("a", strand("1")), set("b", strand("2")), set("d", Value::Null)]);
    let mut update = vec![];
    "x".to_string().apply_update("f", &mut update);
    None::<String>.apply_update("g", &mut update);
    MaybeUndefined::Value("y".to_string()).apply_update("h", &mut update);
    assert_eq!(update, vec![set("f", strand("x")), set("h", strand("y"))]);
}

#[test]
fn test_create_board_append() {
    let mut expr = vec![];
    CreateBoard { handle: Some("h".to_string()), name: None, description: Some("d".to_string()) }
        .append(&mut expr);
    assert_eq!(expr, vec![set("handle", strand("h")), set("description", strand("d"))]);
}

#[test]
fn test_board_create() {
    let params = CreateBoard { handle: Some("h".to_string()), name: Some("n".to_string()), description: None };
    let statement = Board::create(Some(record("account", "acc1")), params.clone(), Id::String("b1".to_string()));
    assert_eq!(
        statement,
        CreateStatement {
            what: record("board", "b1"),
            data: Data::SetExpression(vec![
                set("creator_id", Value::Thing(record("account", "acc1"))),
                set("handle", strand("h")),
                set("name", strand("n")),
                stamp(),
            ]),
            output: Output::After,
        }
    );
    let anonymous = Board::create(None, params, Id::String("b1".to_string()));
    assert_eq!(
        anonymous.data,
        Data::SetExpression(vec![set("handle", strand("h")), set("name", strand("n")), stamp()])
    );
}

#[test]
fn test_board_persist_create_defaults_the_handle() {
    let no_handle = CreateBoard { handle: None, name: None, description: None };
    let persist = BoardPersist::new(logged_in());
    let named = persist.with_handle(no_handle.clone()).unwrap();
    assert_eq!(named.handle, Some("alice".to_string()));
    let statement = persist.create(no_handle.clone(), Id::String("b1".to_string())).unwrap();
    assert_eq!(
        statement.data,
        Data::SetExpression(vec![
            set("creator_id", Value::Thing(record(ACC_TABLE_NAME, "acc1"))),
            set("handle", strand("alice")),
            stamp(),
        ])
    );
    let given = CreateBoard { handle: Some("mine".to_string()), name: None, description: None };
    assert_eq!(persist.with_handle(given.clone()), Ok(given.clone()));

    let anonymous = BoardPersist::new(CurrentAccount::default());
    assert_eq!(anonymous.with_handle(no_handle.clone()), Err(Error::MissingIdent));
    assert_eq!(anonymous.create(no_handle, Id::String("b1".to_string())), Err(Error::MissingIdent));
    let statement = anonymous.create(given, Id::String("b1".to_string())).unwrap();
    assert_eq!(statement.data, Data::SetExpression(vec![set("handle", strand("mine")), stamp()]));
}

#[test]
fn test_update_board_into_update() {
    let nothing = UpdateBoard {
        handle: None,
        name: MaybeUndefined::Undefined,
        description: MaybeUndefined::Undefined,
    };
    assert_eq!(nothing.clone().into_update(record("board", "b1")), None);
    assert_eq!(BoardPersist::new(logged_in()).update("b1", nothing), None);
    let update = UpdateBoard {
        handle: Some("h2".to_string()),
        name: MaybeUndefined::Null,
        description: MaybeUndefined::Value("d2".to_string()),
    };
    let statement = BoardPersist::new(logged_in()).update("b1", update.clone()).unwrap();
    assert_eq!(Some(statement.clone()), update.into_update(record("board", "b1")));
    assert_eq!(
        statement.data,
        Data::UpdateExpression(vec![
            set("handle", strand("h2")),
            set("name", Value::Null),
            set("description", strand("d2")),
            stamp(),
        ])
    );
    assert_eq!(statement.what, record("board", "b1"));
    assert_eq!(statement.cond, Some(Holds { field: "id".to_string(), thing: record("board", "b1") }));
}

#[test]
fn test_post_create() {
    let params = CreatePost {
        board_id: Some("b1".to_string()),
        title: Some("t".to_string()),
        content: None,
    };
    let (ends, statement) = Post::create(None, params.clone(), "p1".to_string());
    assert_eq!(ends, Some((record("board", "b1"), "p1".to_string())));
    assert_eq!(
        statement,
        CreateStatement {
            what: record("post", "p1"),
            data: Data::SetExpression(vec![
                set("board_id", Value::Thing(record("board", "b1"))),
                set("title", strand("t")),
                stamp(),
            ]),
            output: Output::After,
        }
    );
    let query = PostPersist::new(logged_in()).create(params, "p1".to_string());
    assert_eq!(query.len(), 4);
    assert_eq!(query[0], Statement::Begin);
    assert_eq!(
        query[2],
        Statement::Relate(RelateStatement {
            kind: CONTAINS_TABLE_NAME.to_string(),
            from: record("board", "b1"),
            with: record("post", "p1"),
        })
    );
    assert_eq!(query[3], Statement::Commit);
    match &query[1] {
        Statement::Create(create) => assert_eq!(
            create.data,
            Data::SetExpression(vec![
                set("creator_id", Value::Thing(record("account", "acc1"))),
                set("board_id", Value::Thing(record("board", "b1"))),
                set("title", strand("t")),
                stamp(),
            ])
        ),
        other => panic!("expected a creation, got {other:?}"),
    }
}

#[test]
fn test_post_create_on_no_board() {
    let params = CreatePost { board_id: None, title: None, content: Some("c".to_string()) };
    let (ends, _) = Post::create(None, params.clone(), "p1".to_string());
    assert_eq!(ends, None);
    let query = PostPersist::new(CurrentAccount::default()).create(params, "p1".to_string());
    assert_eq!(
        query,
        vec![Statement::Create(CreateStatement {
            what: record("post", "p1"),
            data: Data::SetExpression(vec![set("content", strand("c")), stamp()]),
            output: Output::After,
        })]
    );
}

#[test]
fn test_update_post_into_update() {
    let nothing =
        UpdatePost { title: MaybeUndefined::Undefined, content: MaybeUndefined::Undefined };
    assert_eq!(PostPersist::new(logged_in()).update("p1", nothing), None);
    let update =
        UpdatePost { title: MaybeUndefined::Null, content: MaybeUndefined::Value("c".to_string()) };
    let statement = update.into_update(record("post", "p1")).unwrap();
    assert_eq!(
        statement.data,
        Data::UpdateExpression(vec![set("title", Value::Null), set("content", strand("c")), stamp()])
    );
}

#[test]
fn test_created_rows() {
    assert_eq!(created(Some(5)), Ok(5));
    assert_eq!(created(None::<u8>), Err(Error::UnavailableIdent));
    assert_eq!(PostPersist::created(None), Err(Error::UnavailableIdent));
}

#[test]
fn test_current_account() {
    let current = logged_in();
    assert_eq!(current.id(), Ok("acc1"));
    assert_eq!(current.user_id(), Ok("alice"));
    assert_eq!(current.thing(), Some(record("account", "acc1")));
    let anonymous = CurrentAccount::default();
    assert_eq!(anonymous.id(), Err(Error::Unauthenticated));
    assert_eq!(anonymous.user_id(), Err(Error::Unauthenticated));
    assert_eq!(anonymous.thing(), None);
}

#[test]
fn test_boards_and_posts_are_rows() {
    let board = |id: &str| Board {
        id: record("board", id),
        creator_id: Some(Thing { tb: "account".to_string(), id: Id::Number(5) }),
        handle: format!("h-{id}"),
        name: None,
        description: None,
        updated_at: 0,
    };
    assert_eq!(board("b3").as_maybe_str(), Some("b3"));
    assert_eq!(board("b3").to_gql_id(), "b3");
    assert_eq!(board("b3").creator_id(), Some("5".to_string()));
    let rows = vec![board("b3"), board("b2"), board("b1")];
    let opts = ResultSliceOptions {
        reverse_results: false,
        limit: 1,
        after: Some("b3".to_string()),
        before: None,
    };
    let connection = paginate(rows, opts);
    assert_eq!(connection.edges.len(), 1);
    assert_eq!(connection.edges[0].node, board("b2"));
    assert_eq!(connection.edges[0].cursor, "ImIyIg");
    assert!(connection.has_previous_page);
    assert!(connection.has_next_page);
    let post = Post {
        id: record("post", "p1"),
        creator_id: None,
        board_id: None,
        title: None,
        content: None,
        updated_at: None,
    };
    assert_eq!(post.as_maybe_str(), Some("p1"));
    assert_eq!(post.to_gql_id(), "p1");
}

#[test]
fn test_migration_steps() {
    assert_eq!(AccountMigration::subsystem(), "subsys_account");
    assert_eq!(BoardMigration::subsystem(), "subsys_board");
    assert_eq!(AccountMigration::initial(), AccountMigration::Init);
    assert_eq!(AccountMigration::default(), AccountMigration::Init);
    assert_eq!(BoardMigration::default(), BoardMigration::Init);
    assert_eq!(AccountMigration::Init.next(), None);
    assert_eq!(BoardMigration::Init.next(), None);
    assert_eq!(AccountMigration::Init.name(), "Init");
    let mut statements = vec![Statement::Begin];
    AccountMigration::Init.build(&mut statements);
    BoardMigration::Init.build(&mut statements);
    assert_eq!(
        statements,
        vec![
            Statement::Begin,
            define_uniq_index("account_user_id_index", "account", vec!["user_id".to_string()]),
            define_uniq_index("board_handle_index", "board", vec!["handle".to_string()]),
        ]
    );
}

#[test]
fn test_migration_run() {
    assert_eq!(Migrations::next_update::<BoardMigration>(None), Some(BoardMigration::Init));
    assert_eq!(Migrations::next_update(Some(BoardMigration::Init)), None);
    let mut run = Migrations::new();
    assert_eq!(run.iterate::<AccountMigration>(None), Action::Apply(AccountMigration::Init));
    assert_eq!(run.iterate(Some(AccountMigration::Init)), Action::Finish(false));
    assert_eq!(
        run.applied::<AccountMigration>(Applied::Locked, 120),
        Some(Action::Wait(5120))
    );
    assert_eq!(
        run.applied::<AccountMigration>(Applied::Locked, LOCK_JITTER_MILLIS),
        Some(Action::Wait(15000))
    );
    assert!(!run.migrated);
    assert_eq!(run.applied::<AccountMigration>(Applied::Done, 0), None);
    assert!(run.migrated);
    assert_eq!(run.iterate(Some(AccountMigration::Init)), Action::Finish(true));
}

#[test]
fn test_iterate_complete_update() {
    assert_eq!(
        iterate_complete_update("subsys_board", "Init"),
        CompleteUpdate {
            what: record(UPDATE_TABLE, "subsys_board"),
            current: strand("Init"),
            timestamp: time_now(),
            update: strand("Init"),
        }
    );
}

#[test]
fn test_lock_decisions() {
    assert_eq!(LOCK_TABLE, "locks");
    assert_eq!(Persist::lock("subsys_board"), record("locks", "subsys_board"));
    assert_eq!(Persist::acquired(Ok(())), Ok(LockStep::Run));
    assert_eq!(
        Persist::acquired(Err(DbFailure::RecordExists("exists".to_string()))),
        Ok(LockStep::Skip)
    );
    assert_eq!(
        Persist::acquired(Err(DbFailure::Other("down".to_string()))),
        Err(DbFailure::Other("down".to_string()))
    );
    assert_eq!(Persist::acquired(Err(DbFailure::IndexExists)), Err(DbFailure::IndexExists));
    assert_eq!(Persist::released(5, Ok(())), Ok(Some(5)));
    assert_eq!(
        Persist::released(5, Err(DbFailure::Other("down".to_string()))),
        Err(DbFailure::Other("down".to_string()))
    );
    assert_eq!(Persist::skipped::<u8>(), Ok(None));
}
