//! The messages of the account service.

use vstd::prelude::*;
use vstd::std_specs::convert::FromSpecImpl;

verus! {

#[derive(Debug, Clone, Copy, PartialEq, Eq)]
pub enum Method<'a> {
    Login(LoginReq<'a>),
}

#[derive(Debug, Clone, Copy, PartialEq, Eq)]
pub struct LoginReq<'a> {
    pub uname: &'a str,
    pub pword: &'a str,
}

pub type LoginRes = Result<Account, ()>;

#[derive(Debug, Clone, PartialEq, Eq)]
pub struct Account {
    pub id: String,
    pub name: Option<String>,
}

impl<'a> FromSpecImpl<LoginReq<'a>> for Method<'a> {
    open spec fn obeys_from_spec() -> bool {
        true
    }

    open spec fn from_spec(req: LoginReq<'a>) -> Self {
        Method::Login(req)
    }
}

impl<'a> From<LoginReq<'a>> for Method<'a> {
    fn from(req: LoginReq<'a>) -> (method: Self) {
        Method::Login(req)
    }
}

} // verus!
