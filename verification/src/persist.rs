//! The lock that lets one process at a time work on a subsystem of the store.
//!
//! The lock is a record: who creates it holds the lock, and who finds it there does not.

use vstd::prelude::*;
use crate::auth::DbFailure;
use crate::query::srql::{Key, Record, Thing, thing};

verus! {

/// The name that the locks are stored under.
pub const LOCK_TABLE: &'static str = "locks";

/// What to do once the lock was asked for.
#[derive(Debug, Clone, Copy, PartialEq, Eq, Structural)]
pub enum LockStep {
    /// The lock is held: do the work, and release the lock.
    Run,
    /// Another process holds the lock: do nothing.
    Skip,
}

/// The store, as far as its locks go.
#[derive(Debug, Clone, Copy, PartialEq, Eq)]
pub struct Persist;

impl Persist {
    /// The record that stands for the lock `id`.
    pub fn lock(id: &str) -> (lock: Thing)
        ensures
            lock@ == (Record { tb: LOCK_TABLE@, id: Key::Text(id@) }),
    {
        thing(LOCK_TABLE, id)
    }

    /// What to do once the lock was asked for: run where it was created, skip where it
    /// exists already, and fail where the store failed otherwise.
    pub fn acquired(attempt: Result<(), DbFailure>) -> (res: Result<LockStep, DbFailure>)
        ensures
            match attempt {
                Ok(_) => res == Ok::<LockStep, DbFailure>(LockStep::Run),
                Err(DbFailure::RecordExists(_)) => res == Ok::<LockStep, DbFailure>(
                    LockStep::Skip,
                ),
                Err(failure) => res == Err::<LockStep, DbFailure>(failure),
            },
    {
        match attempt {
            Ok(_) => Ok(LockStep::Run),
            Err(DbFailure::RecordExists(_)) => Ok(LockStep::Skip),
            Err(failure) => Err(failure),
        }
    }

    /// The outcome of work done under the lock, once the lock was released: the result of
    /// the work, and the failure where the lock could not be released.
    pub fn released<O>(done: O, release: Result<(), DbFailure>) -> (res: Result<
        Option<O>,
        DbFailure,
    >)
        ensures
            match release {
                Ok(_) => res == Ok::<Option<O>, DbFailure>(Some(done)),
                Err(failure) => res == Err::<Option<O>, DbFailure>(failure),
            },
    {
        match release {
            Ok(_) => Ok(Some(done)),
            Err(failure) => Err(failure),
        }
    }

    /// The outcome where the lock was held by another process: no result, and no failure.
    pub fn skipped<O>() -> (res: Result<Option<O>, DbFailure>)
        ensures
            res == Ok::<Option<O>, DbFailure>(None),
    {
        Ok(None)
    }
}

} // verus!
