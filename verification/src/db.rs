//! The client that answers from the process itself, with no connection in between.

use vstd::prelude::*;
use crate::api::account::{Account, LoginReq, LoginRes};
use crate::api::{Message, Method, Response};
use crate::query::slice::text_of;

verus! {

#[derive(Clone, Debug)]
pub struct Db;

#[derive(Debug)]
pub struct DbClient;

#[derive(Debug)]
pub struct DbAccount;

impl Db {
    pub fn new() -> Self {
        Db
    }

    pub fn client(&self) -> DbClient {
        DbClient::new()
    }
}

impl DbClient {
    pub fn new() -> Self {
        DbClient
    }

    /// A client in the process is always connected.
    pub fn connected(&self) -> (connected: bool)
        ensures
            connected,
    {
        true
    }

    pub fn account(&self) -> DbAccount {
        DbAccount::new()
    }

    /// Answers a request: the response to it, under the number of the request.
    pub fn dispatch(&self, nonce: u64, req: Method<'_>) -> (message: Message<Response>)
        ensures
            message.nonce == nonce,
            message.payload matches Response::Account(Ok(account)) && account.id@ == "test"@
                && text_of(account.name) == Some("Test"@),
    {
        match req {
            Method::Account(req) => {
                let account = self.account();
                match req {
                    crate::api::account::Method::Login(req) => Message {
                        nonce,
                        payload: Response::Account(account.login(req)),
                    },
                }
            },
        }
    }
}

impl DbAccount {
    pub fn new() -> Self {
        DbAccount
    }

    /// Logs in. Whoever asks is the test account.
    pub fn login(&self, req: LoginReq<'_>) -> (res: LoginRes)
        ensures
            res matches Ok(account) && account.id@ == "test"@ && text_of(account.name) == Some(
                "Test"@,
            ),
    {
        Ok(Account { id: "test".to_owned(), name: Some("Test".to_owned()) })
    }
}

} // verus!
