use plazer_service::api::account::{Account, LoginReq};
use plazer_service::api::{account, Message, Method, Response};
use plazer_service::conv::{AsMaybeStr, IntoGqlId, Keyed, ToGqlId};
use plazer_service::db::{Db, DbAccount, DbClient};
use plazer_service::error::{Error, ErrorData};
use plazer_service::query::list::{BOARD_TABLE_NAME, POST_TABLE_NAME};
use plazer_service::query::plan::PaginationOptions;
use plazer_service::query::{
    extract_backward_page, extract_forward_page, BoardListRequest, Comparison, Cond, Connection,
    Edge, OpaqueCursor, Operator, PaginationDirection, PaginationInput, Paginator,
    PaginatorState, PostListRequest, ResultSliceOptions,
};
use plazer_service::types::{IntoPaginationTuple, PaginationTuple};
use plazer_service::query::PaginationArgs;

fn all_errors() -> Vec<(Error, &'static str, &'static str, u16)> {
    let detail = || "detail".to_string();
    vec![
        (Error::Unauthenticated, "Unauthenticated", "Unauthenticated", 401),
        (Error::Unauthorized, "Unauthorized", "Unauthorized", 403),
        (Error::CredentialsInvalid, "CredentialsInvalid", "Credentials are invalid", 401),
        (Error::UnavailableIdent, "UnavailableIdent", "This identifier is already in use", 409),
        (Error::MissingIdent, "MissingIdent", "Missing identifier", 400),
        (Error::JwtMalformed, "JwtMalformed", "JWT is malformed", 400),
        (Error::JwtExpired, "JwtExpired", "JWT is expired", 401),
        (Error::JwtInvalid, "JwtInvalid", "JWT is invalid", 401),
        (
            Error::WsInitNotObject,
            "WsInitNotObject",
            "GraphQL WebSocket init must be an object, null, or undefined",
            400,
        ),
        (
            Error::WsInitTokenNotString,
            "WsInitTokenNotString",
            "GraphQL WebSocket init `token` must be a string or undefined",
            400,
        ),
        (Error::CursorMalformed(detail()), "CursorMalformed", "detail", 400),
        (Error::PaginationInvalid(detail()), "PaginationInvalid", "detail", 400),
        (
            Error::ServerMisconfigured(detail()),
            "ServerMisconfigured",
            "The server is misconfigured",
            500,
        ),
        (
            Error::InternalServerError(detail()),
            "InternalServerError",
            "An internal server error occurred",
            500,
        ),
        (Error::NotImplemented, "NotImplemented", "Feature is not implemented yet", 500),
    ]
}

#[test]
fn test_error_code_message_and_status() {
    for (error, code, message, status) in all_errors() {
        assert_eq!(error.code(), code);
        assert_eq!(error.message(), message);
        assert_eq!(error.as_status_code(), status);
        assert_eq!(
            error.data(),
            ErrorData { code: code.to_string(), message: message.to_string() }
        );
    }
}

#[test]
fn test_error_from_err_keeps_the_text() {
    assert_eq!(Error::from_err("boom"), Error::InternalServerError("boom".to_string()));
    assert_eq!(Error::from_err(42), Error::InternalServerError("42".to_string()));
}

#[test]
fn test_keys_of_rows() {
    let text = "abc".to_string();
    assert_eq!(text.as_maybe_str(), Some("abc"));
    assert_eq!("abc".as_maybe_str(), Some("abc"));
    assert_eq!(text.to_gql_id(), "abc");
    assert_eq!("abc".to_gql_id(), "abc");
    assert_eq!("abc".into_gql_id(), "abc");
    assert_eq!(text.into_gql_id(), "abc");
    let row = Keyed { id: "k".to_string(), node: 5_u8 };
    assert_eq!(row.as_maybe_str(), Some("k"));
    assert_eq!(row.to_gql_id(), "k");
    assert_eq!(row.into_gql_id(), "k");
}

#[test]
fn test_pagination_tuple() {
    let tuple: PaginationTuple = (Some("a".to_string()), None, Some(3), None);
    let args = PaginationArgs::from(tuple.clone());
    assert_eq!(
        args,
        PaginationArgs { after: Some("a".to_string()), before: None, first: Some(3), last: None }
    );
    assert_eq!(args.clone().into_pagination_tuple(), tuple);
    assert_eq!(Some(args).into_pagination_tuple(), tuple);
    assert_eq!(None::<PaginationArgs>.into_pagination_tuple(), (None, None, None, None));
}

fn connection(keys: &[&str], has_previous_page: bool, has_next_page: bool) -> Connection<String> {
    Connection::new(plazer_service::query::ResultSlice {
        results: keys.iter().map(|key| key.to_string()).collect(),
        has_previous_page,
        has_next_page,
    })
}

#[test]
fn test_connection_pairs_items_with_cursors() {
    let page = connection(&["b", "a"], true, false);
    assert_eq!(
        page,
        Connection {
            edges: vec![
                Edge { cursor: OpaqueCursor("b".to_string()).encode_cursor(), node: "b".to_string() },
                Edge { cursor: OpaqueCursor("a".to_string()).encode_cursor(), node: "a".to_string() },
            ],
            has_previous_page: true,
            has_next_page: false,
        }
    );
    assert_eq!(page.edges[0].cursor, "ImIi");
    let empty = connection(&[], false, true);
    assert_eq!(empty.edges, vec![]);
    assert!(empty.has_next_page);
}

#[test]
fn test_extract_forward_page() {
    let (items, state) = extract_forward_page(connection(&["c", "b"], true, true));
    assert_eq!(items, Some(vec!["c".to_string(), "b".to_string()]));
    assert_eq!(state, PaginatorState::Next(OpaqueCursor("b".to_string()).encode_cursor()));
    let (items, state) = extract_forward_page(connection(&["c", "b"], true, false));
    assert_eq!(items, Some(vec!["c".to_string(), "b".to_string()]));
    assert_eq!(state, PaginatorState::Done);
    let (items, state) = extract_forward_page(connection(&[], false, true));
    assert_eq!(items, None);
    assert_eq!(state, PaginatorState::Done);
}

#[test]
fn test_extract_backward_page() {
    let (items, state) = extract_backward_page(connection(&["c", "b"], true, true));
    assert_eq!(items, Some(vec!["c".to_string(), "b".to_string()]));
    assert_eq!(state, PaginatorState::Next(OpaqueCursor("c".to_string()).encode_cursor()));
    let (items, state) = extract_backward_page(connection(&["c", "b"], false, true));
    assert_eq!(items, Some(vec!["c".to_string(), "b".to_string()]));
    assert_eq!(state, PaginatorState::Done);
    let (items, state) = extract_backward_page(connection(&[], true, false));
    assert_eq!(items, None);
    assert_eq!(state, PaginatorState::Done);
}

#[test]
fn test_paginator_steps() {
    let mut walk = Paginator::new();
    assert_eq!(walk.state, PaginatorState::Initial);
    assert!(!walk.reversed);
    assert_eq!(walk.request(), Some(None));
    assert_eq!(walk.state, PaginatorState::Done);
    assert_eq!(walk.accept(connection(&["b"], false, true)), Some(vec!["b".to_string()]));
    let cursor = OpaqueCursor("b".to_string()).encode_cursor();
    assert_eq!(walk.state, PaginatorState::Next(cursor.clone()));
    assert_eq!(walk.request(), Some(Some(cursor)));
    assert_eq!(walk.accept(connection(&["a"], true, false)), Some(vec!["a".to_string()]));
    assert_eq!(walk.request(), None);
    assert_eq!(walk.request(), None);

    let mut walk = Paginator::new().reversed();
    assert!(walk.reversed);
    assert_eq!(walk.request(), Some(None));
    assert_eq!(walk.accept(connection(&["b", "a"], true, true)), Some(vec!["b".to_string(), "a".to_string()]));
    assert_eq!(walk.state, PaginatorState::Next(OpaqueCursor("b".to_string()).encode_cursor()));
}

#[test]
fn test_list_requests_plan_on_their_table() {
    assert_eq!(BOARD_TABLE_NAME, "board");
    assert_eq!(POST_TABLE_NAME, "post");
    let input = PaginationInput::new()
        .forward(3)
        .set_after(Some(OpaqueCursor("k".to_string())));
    let boards = BoardListRequest::new().with_pagination(input.clone()).plan();
    assert_eq!(boards, PaginationOptions::from((input.clone(), "board")));
    assert_eq!(
        boards.cond,
        Some(Cond::Single(Comparison {
            field: "id".to_string(),
            op: Operator::LessThanOrEqual,
            table: "board".to_string(),
            key: "k".to_string(),
        }))
    );
    let posts = PostListRequest::new().with_pagination(input.clone()).plan();
    assert_eq!(posts, PaginationOptions::from((input, "post")));
    let whole = BoardListRequest::new().plan();
    assert_eq!(whole, PaginationOptions::from((PaginationInput::new(), "board")));
    assert_eq!((whole.cond, whole.limit, whole.result_slice_opts.limit), (None, Some(102), 100));
    assert_eq!(
        PostListRequest::new().plan(),
        PaginationOptions::from((PaginationInput::new(), "post"))
    );
    assert_eq!(PaginationDirection::First(3).limit(), 3);
}

#[test]
fn test_list_requests_make_a_connection() {
    let rows = vec!["k".to_string(), "j".to_string(), "i".to_string(), "h".to_string()];
    let opts = ResultSliceOptions {
        reverse_results: false,
        limit: 2,
        after: Some("k".to_string()),
        before: None,
    };
    let boards = BoardListRequest::connection(rows.clone(), opts.clone());
    let posts = PostListRequest::connection(rows, opts);
    assert_eq!(boards, posts);
    assert_eq!(boards, connection(&["j", "i"], true, true));
}

#[test]
fn test_db_client_answers_in_process() {
    let db = Db::new();
    let client = db.client();
    assert!(client.connected());
    assert!(DbClient::new().connected());
    let req = LoginReq { uname: "user", pword: "secret" };
    let expected = Account { id: "test".to_string(), name: Some("Test".to_string()) };
    assert_eq!(client.account().login(req), Ok(expected.clone()));
    assert_eq!(DbAccount::new().login(req), Ok(expected.clone()));
    let method = Method::from(account::Method::from(req));
    assert_eq!(method, Method::Account(account::Method::Login(req)));
    let message = client.dispatch(17, method);
    assert_eq!(message, Message { nonce: 17, payload: Response::Account(Ok(expected.clone())) });
    assert_eq!(Response::from(Ok(expected.clone())), Response::Account(Ok(expected)));
}
