//! Who a request is made by.

use vstd::prelude::*;
use crate::error::Error;
use crate::query::srql::{Id, Key, Record, Thing};

verus! {

/// The name that the accounts are stored under.
pub const ACC_TABLE_NAME: &'static str = "account";

/// What a session knows of its account.
#[derive(Debug, Clone, PartialEq, Eq)]
pub struct PartialAccount {
    pub id: String,
    pub user_id: String,
}

/// The account of the current session: none for a session that is not logged in.
#[derive(Debug, Clone, PartialEq, Eq)]
pub struct CurrentAccount {
    pub account: Option<PartialAccount>,
}

impl Default for CurrentAccount {
    fn default() -> (current: Self)
        ensures
            current.account is None,
    {
        CurrentAccount { account: None }
    }
}

impl CurrentAccount {
    pub fn new(account: PartialAccount) -> (current: Self)
        ensures
            current.account == Some(account),
    {
        CurrentAccount { account: Some(account) }
    }

    /// The key of the account; an error for a session that is not logged in.
    pub fn id(&self) -> (res: Result<&str, Error>)
        ensures
            match self.account {
                Some(account) => res matches Ok(id) && id@ == account.id@,
                None => res matches Err(Error::Unauthenticated),
            },
    {
        match &self.account {
            Some(account) => Ok(account.id.as_str()),
            None => Err(Error::Unauthenticated),
        }
    }

    /// The name that the account logs in with; an error for a session that is not logged
    /// in.
    pub fn user_id(&self) -> (res: Result<&str, Error>)
        ensures
            match self.account {
                Some(account) => res matches Ok(id) && id@ == account.user_id@,
                None => res matches Err(Error::Unauthenticated),
            },
    {
        match &self.account {
            Some(account) => Ok(account.user_id.as_str()),
            None => Err(Error::Unauthenticated),
        }
    }

    /// The record of the account, where the session is logged in.
    pub fn thing(&self) -> (thing: Option<Thing>)
        ensures
            match self.account {
                Some(account) => thing matches Some(thing) && thing@ == (Record {
                    tb: ACC_TABLE_NAME@,
                    id: Key::Text(account.id@),
                }),
                None => thing is None,
            },
    {
        match &self.account {
            Some(account) => Some(
                Thing { tb: ACC_TABLE_NAME.to_owned(), id: Id::String(account.id.clone()) },
            ),
            None => None,
        }
    }
}

/// What a store answered a creation with: the record, or nothing where its identifier
/// is taken.
pub fn created<T>(row: Option<T>) -> (res: Result<T, Error>)
    ensures
        match row {
            Some(row) => res == Ok::<T, Error>(row),
            None => res matches Err(Error::UnavailableIdent),
        },
{
    match row {
        Some(row) => Ok(row),
        None => Err(Error::UnavailableIdent),
    }
}

} // verus!
