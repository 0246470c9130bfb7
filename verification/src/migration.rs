//! The steps that bring the store of a subsystem up to date, one after another.

use vstd::prelude::*;
use crate::account::ACC_TABLE_NAME;
use crate::query::list::BOARD_TABLE_NAME;
use crate::query::srql::{
    define_uniq_index, names, now, thing, time_now, IndexDefinition, Key, Record, Statement, Term,
    Thing, Value,
};

verus! {

/// The steps of one subsystem, in their order.
pub trait Migration: Sized {
    /// The name of the subsystem.
    spec fn subsystem_name() -> Seq<char>;

    /// The first step.
    spec fn first() -> Self;

    /// The step after this one, where there is one.
    spec fn following(&self) -> Option<Self>;

    /// The statements that this step adds.
    spec fn indexes(&self) -> Seq<IndexDefinition>;

    /// The name that the store records the step under.
    spec fn step_name(&self) -> Seq<char>;

    fn name(&self) -> (name: &'static str)
        ensures
            name@ == self.step_name(),
    ;

    fn subsystem() -> (name: &'static str)
        ensures
            name@ == Self::subsystem_name(),
    ;

    fn initial() -> (step: Self)
        ensures
            step == Self::first(),
    ;

    fn next(self) -> (step: Option<Self>)
        ensures
            step == self.following(),
    ;

    /// Adds the statements of this step to `statements`.
    fn build(&self, statements: &mut Vec<Statement>)
        ensures
            adds_indexes(old(statements)@, final(statements)@, self.indexes()),
    ;
}

/// `after` is `before`, followed by the definitions of `indexes`, in their order.
pub open spec fn adds_indexes(
    before: Seq<Statement>,
    after: Seq<Statement>,
    indexes: Seq<IndexDefinition>,
) -> bool {
    &&& after.len() == before.len() + indexes.len()
    &&& after.subrange(0, before.len() as int) == before
    &&& forall|i: int|
        0 <= i < indexes.len() ==> (#[trigger] after[before.len() + i] matches Statement::Define(
            definition,
        ) && definition@ == indexes[i])
}

#[derive(Debug, Clone, Copy, PartialEq, Eq, Structural)]
pub enum AccountMigration {
    Init,
}

#[derive(Debug, Clone, Copy, PartialEq, Eq, Structural)]
pub enum BoardMigration {
    Init,
}

/// The index that lets no two accounts log in with the same name.
pub open spec fn account_user_id_index() -> IndexDefinition {
    IndexDefinition {
        name: "account_user_id_index"@,
        what: ACC_TABLE_NAME@,
        cols: seq!["user_id"@],
        uniq: true,
    }
}

/// The index that lets no two boards have the same handle.
pub open spec fn board_handle_index() -> IndexDefinition {
    IndexDefinition {
        name: "board_handle_index"@,
        what: BOARD_TABLE_NAME@,
        cols: seq!["handle"@],
        uniq: true,
    }
}

/// The one field `field`, as a list of fields.
fn one_field(field: &str) -> (fields: Vec<String>)
    ensures
        names(fields@) == seq![field@],
{
    let mut fields: Vec<String> = Vec::new();
    fields.push(field.to_owned());
    assert(names(fields@) =~= seq![field@]);
    fields
}

impl AccountMigration {
    pub fn build_init(statements: &mut Vec<Statement>)
        ensures
            adds_indexes(old(statements)@, final(statements)@, seq![account_user_id_index()]),
    {
        let ghost before = statements@;
        statements.push(
            define_uniq_index("account_user_id_index", ACC_TABLE_NAME, one_field("user_id")),
        );
        assert(statements@.subrange(0, before.len() as int) =~= before);
    }
}

impl BoardMigration {
    pub fn build_init(statements: &mut Vec<Statement>)
        ensures
            adds_indexes(old(statements)@, final(statements)@, seq![board_handle_index()]),
    {
        let ghost before = statements@;
        statements.push(
            define_uniq_index("board_handle_index", BOARD_TABLE_NAME, one_field("handle")),
        );
        assert(statements@.subrange(0, before.len() as int) =~= before);
    }
}

impl Default for AccountMigration {
    fn default() -> (step: Self)
        ensures
            step == AccountMigration::Init,
    {
        AccountMigration::Init
    }
}

impl Default for BoardMigration {
    fn default() -> (step: Self)
        ensures
            step == BoardMigration::Init,
    {
        BoardMigration::Init
    }
}

impl Migration for AccountMigration {
    open spec fn subsystem_name() -> Seq<char> {
        "subsys_account"@
    }

    open spec fn first() -> Self {
        AccountMigration::Init
    }

    open spec fn following(&self) -> Option<Self> {
        match self {
            AccountMigration::Init => None,
        }
    }

    open spec fn indexes(&self) -> Seq<IndexDefinition> {
        match self {
            AccountMigration::Init => seq![account_user_id_index()],
        }
    }

    fn subsystem() -> (name: &'static str) {
        "subsys_account"
    }

    fn initial() -> (step: Self) {
        AccountMigration::Init
    }

    fn next(self) -> (step: Option<Self>) {
        match self {
            AccountMigration::Init => None,
        }
    }

    open spec fn step_name(&self) -> Seq<char> {
        match self {
            AccountMigration::Init => "Init"@,
        }
    }

    fn name(&self) -> (name: &'static str) {
        match self {
            AccountMigration::Init => "Init",
        }
    }

    fn build(&self, statements: &mut Vec<Statement>) {
        match self {
            AccountMigration::Init => AccountMigration::build_init(statements),
        }
    }
}

impl Migration for BoardMigration {
    open spec fn subsystem_name() -> Seq<char> {
        "subsys_board"@
    }

    open spec fn first() -> Self {
        BoardMigration::Init
    }

    open spec fn following(&self) -> Option<Self> {
        match self {
            BoardMigration::Init => None,
        }
    }

    open spec fn indexes(&self) -> Seq<IndexDefinition> {
        match self {
            BoardMigration::Init => seq![board_handle_index()],
        }
    }

    fn subsystem() -> (name: &'static str) {
        "subsys_board"
    }

    fn initial() -> (step: Self) {
        BoardMigration::Init
    }

    fn next(self) -> (step: Option<Self>) {
        match self {
            BoardMigration::Init => None,
        }
    }

    open spec fn step_name(&self) -> Seq<char> {
        match self {
            BoardMigration::Init => "Init"@,
        }
    }

    fn name(&self) -> (name: &'static str) {
        match self {
            BoardMigration::Init => "Init",
        }
    }

    fn build(&self, statements: &mut Vec<Statement>) {
        match self {
            BoardMigration::Init => BoardMigration::build_init(statements),
        }
    }
}

/// The name that the applied steps are recorded under.
pub const UPDATE_TABLE: &'static str = "updates";

/// The record of a step that was applied: the step becomes the current one of its
/// subsystem, and is added to the history of the subsystem with the time it was applied
/// at.
#[derive(Debug, Clone, PartialEq, Eq)]
pub struct CompleteUpdate {
    /// The record of the subsystem.
    pub what: Thing,
    /// What `current` is set to.
    pub current: Value,
    /// What the entry that `history` grows by holds under `timestamp`.
    pub timestamp: Value,
    /// What the entry that `history` grows by holds under `update`.
    pub update: Value,
}

/// The record of the step `update` of `subsystem`.
pub fn iterate_complete_update(subsystem: &str, update: &str) -> (record: CompleteUpdate)
    ensures
        record.what@ == (Record { tb: UPDATE_TABLE@, id: Key::Text(subsystem@) }),
        record.current@ == Term::Strand(update@),
        record.timestamp@ == now(),
        record.update@ == Term::Strand(update@),
{
    CompleteUpdate {
        what: thing(UPDATE_TABLE, subsystem),
        current: Value::Strand(update.to_owned()),
        timestamp: time_now(),
        update: Value::Strand(update.to_owned()),
    }
}

/// What the store answered an attempt to apply a step with.
#[derive(Debug, Clone, PartialEq, Eq)]
pub enum Applied {
    /// The step was applied.
    Done,
    /// Another process holds the lock of the subsystem.
    Locked,
}

/// What to do next when bringing a subsystem up to date.
#[derive(Debug, Clone, PartialEq, Eq)]
pub enum Action<M> {
    /// Apply this step, under the lock of the subsystem.
    Apply(M),
    /// Wait for the lock holder, for about this many milliseconds, and look again.
    Wait(u64),
    /// Every step is applied. The flag says whether this run applied any.
    Finish(bool),
}

/// The shortest wait for a lock holder, in milliseconds.
pub const LOCK_WAIT_MILLIS: u64 = 5000;

/// The most that chance adds to the wait, in milliseconds.
pub const LOCK_JITTER_MILLIS: u64 = 10000;

/// The run of the steps of all subsystems.
#[derive(Debug, Clone, Copy, PartialEq, Eq)]
pub struct Migrations {
    /// A step was applied in this run.
    pub migrated: bool,
}

/// The step to apply after the last step that the store records as applied: the first
/// step where it records none, the step after the recorded one where there is one, and
/// none where the recorded step is the last.
pub open spec fn step_after<M: Migration>(current: Option<M>) -> Option<M> {
    match current {
        Some(current) => current.following(),
        None => Some(M::first()),
    }
}

impl Migrations {
    pub fn new() -> (run: Self)
        ensures
            !run.migrated,
    {
        Migrations { migrated: false }
    }

    /// The step to apply next, from the last step that the store records as applied.
    pub fn next_update<M: Migration>(current: Option<M>) -> (step: Option<M>)
        ensures
            step == step_after(current),
    {
        match current {
            Some(current) => current.next(),
            None => Some(M::initial()),
        }
    }

    /// What to do from the state of the store: apply the next step where one is left,
    /// and else finish.
    pub fn iterate<M: Migration>(&self, current: Option<M>) -> (action: Action<M>)
        ensures
            action == match step_after(current) {
                Some(step) => Action::Apply(step),
                None => Action::<M>::Finish(self.migrated),
            },
    {
        match Migrations::next_update(current) {
            Some(step) => Action::Apply(step),
            None => Action::Finish(self.migrated),
        }
    }

    /// What to do after an attempt to apply a step: look at the store again at once where
    /// the step was applied, and after a wait where the subsystem is locked. The wait is
    /// the shortest one and the `jitter` that chance gave, up to [`LOCK_JITTER_MILLIS`],
    /// so that waiting processes do not all come back at once.
    pub fn applied<M>(&mut self, outcome: Applied, jitter: u64) -> (action: Option<Action<M>>)
        requires
            LOCK_WAIT_MILLIS + jitter <= u64::MAX,
        ensures
            match outcome {
                Applied::Done => final(self).migrated && action is None,
                Applied::Locked => final(self).migrated == old(self).migrated && action == Some(
                    Action::<M>::Wait((LOCK_WAIT_MILLIS + jitter) as u64),
                ),
            },
    {
        match outcome {
            Applied::Done => {
                self.migrated = true;
                None
            },
            Applied::Locked => Some(Action::Wait(LOCK_WAIT_MILLIS + jitter)),
        }
    }
}

} // verus!
