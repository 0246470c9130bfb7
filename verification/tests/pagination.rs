use plazer_service::error::Error;
use plazer_service::query::plan::PaginationOptions;
use plazer_service::query::{
    Comparison, Cond, OpaqueCursor, Operator, Order, PaginationArgs, PaginationDirection,
    PaginationInput, ResultSliceOptions, MAX_LIMIT, PAGE_EXTRA, SRQL_ORDER_ASC, SRQL_ORDER_DESC,
};

const TABLE_NAME: &str = "test_table";

fn encoded_cursor(id: &str) -> String {
    OpaqueCursor(id.to_string()).encode_cursor()
}

fn args(
    after: Option<&str>,
    before: Option<&str>,
    first: Option<i32>,
    last: Option<i32>,
) -> PaginationArgs {
    PaginationArgs {
        after: after.map(encoded_cursor),
        before: before.map(encoded_cursor),
        first,
        last,
    }
}

fn input(
    direction: Option<PaginationDirection>,
    after: Option<&str>,
    before: Option<&str>,
) -> PaginationInput {
    PaginationInput {
        direction,
        after: after.map(|key| OpaqueCursor(key.to_string())),
        before: before.map(|key| OpaqueCursor(key.to_string())),
    }
}

fn upper(key: &str) -> Comparison {
    Comparison {
        field: "id".to_string(),
        op: Operator::LessThanOrEqual,
        table: TABLE_NAME.to_string(),
        key: key.to_string(),
    }
}

fn lower(key: &str) -> Comparison {
    Comparison {
        field: "id".to_string(),
        op: Operator::MoreThanOrEqual,
        table: TABLE_NAME.to_string(),
        key: key.to_string(),
    }
}

fn order(direction: bool) -> Option<Order> {
    Some(Order { field: "id".to_string(), direction })
}

fn reason_of(res: Result<PaginationInput, Error>) -> String {
    match res {
        Err(Error::PaginationInvalid(reason)) => reason,
        other => panic!("expected a refusal, got {other:?}"),
    }
}

#[test]
fn query_test_pagination_direction_limit() {
    let first_direction = PaginationDirection::First(10);
    assert_eq!(first_direction.limit(), 10);

    let last_direction = PaginationDirection::Last(5);
    assert_eq!(last_direction.limit(), 5);
}

#[test]
fn test_test_pagination_direction_limit() {
    let first_direction = PaginationDirection::First(10);
    assert_eq!(first_direction.limit(), 10);

    let last_direction = PaginationDirection::Last(5);
    assert_eq!(last_direction.limit(), 5);
}

#[test]
fn test_pagination_input_try_from_after_and_first() {
    let result = PaginationInput::try_from(args(Some("abc"), None, Some(10), None));
    assert_eq!(result, Ok(input(Some(PaginationDirection::First(10)), Some("abc"), None)));
}

#[test]
fn test_pagination_input_try_from_before_and_last() {
    let result = PaginationInput::try_from(args(None, Some("def"), None, Some(5)));
    assert_eq!(result, Ok(input(Some(PaginationDirection::Last(5)), None, Some("def"))));
}

#[test]
fn test_pagination_input_try_from_after_and_before() {
    let result = PaginationInput::try_from(args(Some("abc"), Some("def"), None, None));
    assert_eq!(result, Ok(input(None, Some("abc"), Some("def"))));
}

#[test]
fn test_pagination_input_try_from_none() {
    let result = PaginationInput::try_from(args(None, None, None, None));
    assert_eq!(result, Ok(input(None, None, None)));
}

#[test]
fn test_pagination_input_try_from_after_and_before_and_first() {
    let result = PaginationInput::try_from(args(Some("abc"), Some("def"), Some(10), None));
    assert_eq!(
        result,
        Ok(input(Some(PaginationDirection::First(10)), Some("abc"), Some("def")))
    );
}

#[test]
fn test_pagination_input_try_from_zero_is_a_size() {
    let result = PaginationInput::try_from(args(None, None, Some(0), None));
    assert_eq!(result, Ok(input(Some(PaginationDirection::First(0)), None, None)));
    let result = PaginationInput::try_from(args(None, None, None, Some(0)));
    assert_eq!(result, Ok(input(Some(PaginationDirection::Last(0)), None, None)));
}

#[test]
fn test_pagination_input_try_from_err_all_four() {
    let result = PaginationInput::try_from(args(Some("abc"), Some("def"), Some(10), Some(5)));
    assert!(result.is_err());
    assert!(matches!(result.unwrap_err(), Error::PaginationInvalid(_)));
}

#[test]
fn test_pagination_input_try_from_err_first_and_last() {
    let result = PaginationInput::try_from(args(None, None, Some(10), Some(5)));
    assert!(result.is_err());
    assert_eq!(reason_of(result), "first and last mutually exclusive");
}

#[test]
fn test_pagination_input_try_from_err_first_negative() {
    let result = PaginationInput::try_from(args(None, None, Some(-10), None));
    assert!(result.is_err());
    assert_eq!(reason_of(result), "first must be non-negative");
}

#[test]
fn test_pagination_input_try_from_err_last_negative() {
    let result = PaginationInput::try_from(args(None, None, None, Some(-5)));
    assert!(result.is_err());
    assert_eq!(reason_of(result), "last must be non-negative");
}

#[test]
fn test_pagination_input_try_from_err_both_wins_over_negative() {
    let result = PaginationInput::try_from(args(None, None, Some(-1), Some(-1)));
    assert_eq!(reason_of(result), "first and last mutually exclusive");
}

#[test]
fn test_pagination_input_try_from_err_malformed_after() {
    let raw = PaginationArgs {
        after: Some("not a cursor!".to_string()),
        before: None,
        first: Some(3),
        last: None,
    };
    assert!(matches!(PaginationInput::try_from(raw), Err(Error::PaginationInvalid(_))));
}

#[test]
fn test_pagination_input_try_from_err_malformed_before() {
    // Valid base64, but the bytes are no JSON string.
    let raw = PaginationArgs {
        after: None,
        before: Some("YWJj".to_string()),
        first: None,
        last: Some(3),
    };
    assert!(matches!(PaginationInput::try_from(raw), Err(Error::PaginationInvalid(_))));
}

#[test]
fn test_pagination_input_try_from_err_size_wins_over_cursor() {
    let raw = PaginationArgs {
        after: Some("not a cursor!".to_string()),
        before: None,
        first: Some(-3),
        last: None,
    };
    assert_eq!(reason_of(PaginationInput::try_from(raw)), "first must be non-negative");
}

#[test]
fn test_pagination_args_validate_is_try_from() {
    let validated = args(Some("abc"), None, Some(10), None).validate();
    assert_eq!(validated, Ok(input(Some(PaginationDirection::First(10)), Some("abc"), None)));
    assert!(args(None, None, Some(1), Some(1)).validate().is_err());
}

#[test]
fn test_pagination_input_builders() {
    let built = PaginationInput::new()
        .forward(7)
        .set_after(Some(OpaqueCursor("abc".to_string())))
        .set_before(Some(OpaqueCursor("def".to_string())));
    assert_eq!(built, input(Some(PaginationDirection::First(7)), Some("abc"), Some("def")));
    let built = PaginationInput::new().forward(7).backward(2).set_after(None);
    assert_eq!(built, input(Some(PaginationDirection::Last(2)), None, None));
    assert_eq!(PaginationInput::new(), input(None, None, None));
}

#[test]
fn test_pagination_options_from_first_and_after() {
    let opts = PaginationOptions::from((
        input(Some(PaginationDirection::First(10)), Some("abc"), None),
        TABLE_NAME,
    ));
    assert_eq!(
        opts,
        PaginationOptions {
            cond: Some(Cond::Single(upper("abc"))),
            order: order(SRQL_ORDER_DESC),
            limit: Some(12),
            result_slice_opts: ResultSliceOptions {
                reverse_results: false,
                limit: 10,
                after: Some("abc".to_string()),
                before: None,
            },
        }
    );
}

#[test]
fn test_pagination_options_from_last_and_before() {
    let opts = PaginationOptions::from((
        input(Some(PaginationDirection::Last(5)), None, Some("def")),
        TABLE_NAME,
    ));
    assert_eq!(
        opts,
        PaginationOptions {
            cond: Some(Cond::Single(lower("def"))),
            order: order(SRQL_ORDER_ASC),
            limit: Some(7),
            result_slice_opts: ResultSliceOptions {
                reverse_results: true,
                limit: 5,
                after: None,
                before: Some("def".to_string()),
            },
        }
    );
}

#[test]
fn test_pagination_options_from_last_and_before_over_max() {
    let opts = PaginationOptions::from((
        input(Some(PaginationDirection::Last(111)), None, Some("def")),
        TABLE_NAME,
    ));
    assert_eq!(
        opts,
        PaginationOptions {
            cond: Some(Cond::Single(lower("def"))),
            order: order(SRQL_ORDER_ASC),
            limit: Some(MAX_LIMIT + PAGE_EXTRA),
            result_slice_opts: ResultSliceOptions {
                reverse_results: true,
                limit: MAX_LIMIT,
                after: None,
                before: Some("def".to_string()),
            },
        }
    );
}

#[test]
fn test_pagination_options_from_after_and_before() {
    let opts = PaginationOptions::from((input(None, Some("abc"), Some("def")), TABLE_NAME));
    assert_eq!(
        opts,
        PaginationOptions {
            cond: Some(Cond::And(upper("abc"), lower("def"))),
            order: order(SRQL_ORDER_DESC),
            limit: Some(MAX_LIMIT + PAGE_EXTRA),
            result_slice_opts: ResultSliceOptions {
                reverse_results: false,
                limit: MAX_LIMIT,
                after: Some("abc".to_string()),
                before: Some("def".to_string()),
            },
        }
    );
}

#[test]
fn test_pagination_options_from_nothing() {
    let opts = PaginationOptions::from((input(None, None, None), TABLE_NAME));
    assert_eq!(opts.cond, None);
    assert_eq!(opts.order, order(SRQL_ORDER_DESC));
    assert_eq!(opts.limit, Some(102));
    assert_eq!(opts.result_slice_opts.limit, 100);
    assert!(!opts.result_slice_opts.reverse_results);
}

#[test]
fn test_pagination_options_from_no_pagination() {
    let opts = PaginationOptions::from((None::<PaginationInput>, TABLE_NAME));
    assert_eq!(opts, PaginationOptions::from((input(None, None, None), TABLE_NAME)));
    assert_eq!(opts.cond, None);
    assert_eq!(opts.order, order(SRQL_ORDER_DESC));
    assert_eq!(opts.limit, Some(102));
    assert_eq!(
        opts.result_slice_opts,
        ResultSliceOptions { reverse_results: false, limit: 100, after: None, before: None }
    );

    let with = PaginationOptions::from((Some(input(None, None, None)), TABLE_NAME));
    assert_eq!(with, opts);
}

#[test]
fn test_pagination_options_default_is_blank() {
    let opts = PaginationOptions::default();
    assert_eq!(opts.cond, None);
    assert_eq!(opts.order, None);
    assert_eq!(opts.limit, None);
    assert_eq!(opts.result_slice_opts, ResultSliceOptions::default());
    assert_eq!(opts.result_slice_opts.limit, 0);
}

#[test]
fn test_clamping_first_100000_is_first_max() {
    let huge = PaginationInput::try_from(args(Some("abc"), None, Some(100_000), None)).unwrap();
    let max =
        PaginationInput::try_from(args(Some("abc"), None, Some(MAX_LIMIT as i32), None)).unwrap();
    assert_eq!(
        PaginationOptions::from((huge, TABLE_NAME)),
        PaginationOptions::from((max, TABLE_NAME))
    );
    let huge = PaginationInput::try_from(args(None, Some("abc"), None, Some(100_000))).unwrap();
    let max =
        PaginationInput::try_from(args(None, Some("abc"), None, Some(MAX_LIMIT as i32))).unwrap();
    assert_eq!(
        PaginationOptions::from((huge, TABLE_NAME)),
        PaginationOptions::from((max, TABLE_NAME))
    );
}

#[test]
fn test_limit_is_the_smaller_of_size_and_max() {
    for (asked, served) in [(0_i64, 0_i64), (1, 1), (99, 99), (100, 100), (101, 100)] {
        let opts = PaginationOptions::from((
            input(Some(PaginationDirection::First(asked)), None, None),
            TABLE_NAME,
        ));
        assert_eq!(opts.result_slice_opts.limit, served);
        assert_eq!(opts.limit, Some(served + 2));
    }
}

#[test]
fn test_direction_of_first_and_last() {
    assert_eq!(PaginationArgs::direction(None, None), Ok(None));
    assert_eq!(PaginationArgs::direction(Some(0), None), Ok(Some(PaginationDirection::First(0))));
    assert_eq!(PaginationArgs::direction(Some(7), None), Ok(Some(PaginationDirection::First(7))));
    assert_eq!(PaginationArgs::direction(None, Some(7)), Ok(Some(PaginationDirection::Last(7))));
    assert_eq!(
        PaginationArgs::direction(Some(i32::MAX), None),
        Ok(Some(PaginationDirection::First(2_147_483_647)))
    );
    let refused = |reason: &str| Err(Error::PaginationInvalid(reason.to_string()));
    assert_eq!(PaginationArgs::direction(Some(1), Some(1)), refused("first and last mutually exclusive"));
    assert_eq!(PaginationArgs::direction(Some(-1), None), refused("first must be non-negative"));
    assert_eq!(PaginationArgs::direction(None, Some(i32::MIN)), refused("last must be non-negative"));
}

#[test]
fn test_input_from_decoded_cursors() {
    let read = |key: &str| Some(Ok(OpaqueCursor(key.to_string())));
    let failed = |reason: &str| Some(Err(Error::CursorMalformed(reason.to_string())));
    let direction = Some(PaginationDirection::First(3));
    assert_eq!(
        PaginationInput::from_decoded(direction, read("a"), read("b")),
        Ok(input(direction, Some("a"), Some("b")))
    );
    assert_eq!(PaginationInput::from_decoded(None, None, None), Ok(input(None, None, None)));
    assert_eq!(
        PaginationInput::from_decoded(direction, failed("bad after"), failed("bad before")),
        Err(Error::PaginationInvalid("bad after".to_string()))
    );
    assert_eq!(
        PaginationInput::from_decoded(direction, read("a"), failed("bad before")),
        Err(Error::PaginationInvalid("bad before".to_string()))
    );
    assert_eq!(
        PaginationInput::from_decoded(direction, failed("bad after"), None),
        Err(Error::PaginationInvalid("bad after".to_string()))
    );
}
