//! Request validation, query planning and result slicing for cursor pagination.

pub mod connection;
pub mod cursor;
pub mod laws;
pub mod list;
pub mod model;
pub mod object;
pub mod outside;
pub mod pagination;
pub mod paginator;
pub mod plan;
pub mod slice;
pub mod srql;
pub mod value;
pub mod window;

pub use connection::{paginate, Connection, Edge};
pub use cursor::OpaqueCursor;
pub use plan::{
    Comparison, Cond, Operator, Order, PaginationOptions, SRQL_ORDER_ASC, SRQL_ORDER_DESC,
};
pub use slice::{ResultSlice, ResultSliceOptions};
pub use list::{BoardListRequest, PostListRequest};
pub use paginator::{extract_backward_page, extract_forward_page, Paginator, PaginatorState};
pub use pagination::{
    PaginationArgs, PaginationDirection, PaginationInput, MAX_LIMIT, PAGE_EXTRA,
};
