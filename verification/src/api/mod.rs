//! The messages that a client and the service exchange.

pub mod account;

use vstd::prelude::*;
use vstd::std_specs::convert::FromSpecImpl;

verus! {

/// A payload with the number that pairs a response with its request.
#[derive(Debug, Clone, PartialEq, Eq)]
pub struct Message<T> {
    pub nonce: u64,
    pub payload: T,
}

#[derive(Debug, Clone, Copy, PartialEq, Eq)]
pub enum Method<'a> {
    Account(account::Method<'a>),
}

#[derive(Debug, PartialEq, Eq)]
pub enum Response {
    Account(account::LoginRes),
}

impl<'a> FromSpecImpl<account::Method<'a>> for Method<'a> {
    open spec fn obeys_from_spec() -> bool {
        true
    }

    open spec fn from_spec(method: account::Method<'a>) -> Self {
        Method::Account(method)
    }
}

impl<'a> From<account::Method<'a>> for Method<'a> {
    fn from(method: account::Method<'a>) -> (wrapped: Self) {
        Method::Account(method)
    }
}

impl FromSpecImpl<account::LoginRes> for Response {
    open spec fn obeys_from_spec() -> bool {
        true
    }

    open spec fn from_spec(res: account::LoginRes) -> Self {
        Response::Account(res)
    }
}

impl From<account::LoginRes> for Response {
    fn from(res: account::LoginRes) -> (wrapped: Self) {
        Response::Account(res)
    }
}

} // verus!
