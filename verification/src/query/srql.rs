//! The statements that the service sends to its store, as plain values.
//!
//! Nothing here talks to a store: a statement is built here and handed to whoever does.

use vstd::prelude::*;
use crate::conv::{AsMaybeStr, IntoGqlId, ToGqlId};

verus! {

/// The key of a record within its table.
#[derive(Debug, Clone, PartialEq, Eq, Hash)]
pub enum Id {
    Number(i64),
    String(String),
}

/// A record: its table and its key.
#[derive(Debug, Clone, PartialEq, Eq, Hash)]
pub struct Thing {
    pub tb: String,
    pub id: Id,
}

/// What a field is set to.
#[derive(Debug, Clone, PartialEq, Eq, Hash)]
pub enum Value {
    /// No value: the field is cleared.
    Null,
    Strand(String),
    Thing(Thing),
    /// A point in time, in seconds since the epoch.
    Datetime(i64),
    /// A call of a function of the store, without arguments.
    Function(String),
}

/// How a field is set.
#[derive(Debug, Clone, Copy, PartialEq, Eq, Hash, Structural)]
pub enum SetOperator {
    Equal,
    Inc,
}

/// One assignment of a statement: `field op value`.
#[derive(Debug, Clone, PartialEq, Eq, Hash)]
pub struct SetExprItem {
    pub field: String,
    pub op: SetOperator,
    pub value: Value,
}

pub type SetExpr = Vec<SetExprItem>;

/// What a statement answers with.
#[derive(Debug, Clone, Copy, PartialEq, Eq, Hash, Structural)]
pub enum Output {
    Nothing,
    After,
}

/// The assignments of a statement, and the way they are written.
#[derive(Debug, Clone, PartialEq, Eq, Hash)]
pub enum Data {
    SetExpression(SetExpr),
    UpdateExpression(SetExpr),
}

#[derive(Debug, Clone, PartialEq, Eq, Hash)]
pub struct CreateStatement {
    pub what: Thing,
    pub data: Data,
    pub output: Output,
}

/// The condition of an update: the field holds the record.
#[derive(Debug, Clone, PartialEq, Eq, Hash)]
pub struct Holds {
    pub field: String,
    pub thing: Thing,
}

#[derive(Debug, Clone, PartialEq, Eq, Hash)]
pub struct UpdateStatement {
    pub what: Thing,
    pub data: Data,
    pub output: Output,
    pub cond: Option<Holds>,
}

#[derive(Debug, Clone, PartialEq, Eq, Hash)]
pub struct DefineIndexStatement {
    pub name: String,
    pub what: String,
    pub cols: Vec<String>,
    pub uniq: bool,
}

/// The statement that relates two records: an edge of the table `kind` from `from` to
/// `with`.
#[derive(Debug, Clone, PartialEq, Eq, Hash)]
pub struct RelateStatement {
    pub kind: String,
    pub from: Thing,
    pub with: Thing,
}

#[derive(Debug, Clone, PartialEq, Eq, Hash)]
pub enum Statement {
    Begin,
    Commit,
    Create(CreateStatement),
    Update(UpdateStatement),
    Relate(RelateStatement),
    Define(DefineIndexStatement),
}

/// [`Id`] as a mathematical value.
pub enum Key {
    Number(int),
    Text(Seq<char>),
}

/// [`Thing`] as a mathematical value.
pub struct Record {
    pub tb: Seq<char>,
    pub id: Key,
}

/// [`Value`] as a mathematical value.
pub enum Term {
    Null,
    Strand(Seq<char>),
    Thing(Record),
    Datetime(int),
    Function(Seq<char>),
}

/// [`SetExprItem`] as a mathematical value.
pub struct Assignment {
    pub field: Seq<char>,
    pub op: SetOperator,
    pub value: Term,
}

/// [`Data`] as a mathematical value.
pub enum Assignments {
    SetExpression(Seq<Assignment>),
    UpdateExpression(Seq<Assignment>),
}

/// [`CreateStatement`] as a mathematical value.
pub struct Creation {
    pub what: Record,
    pub data: Assignments,
    pub output: Output,
}

/// [`UpdateStatement`] as a mathematical value.
pub struct Change {
    pub what: Record,
    pub data: Assignments,
    pub output: Output,
    pub cond: Option<(Seq<char>, Record)>,
}

/// [`DefineIndexStatement`] as a mathematical value.
pub struct IndexDefinition {
    pub name: Seq<char>,
    pub what: Seq<char>,
    pub cols: Seq<Seq<char>>,
    pub uniq: bool,
}

impl View for Id {
    type V = Key;

    open spec fn view(&self) -> Key {
        match self {
            Id::Number(n) => Key::Number(*n as int),
            Id::String(text) => Key::Text(text@),
        }
    }
}

impl View for Thing {
    type V = Record;

    open spec fn view(&self) -> Record {
        Record { tb: self.tb@, id: self.id@ }
    }
}

impl View for Value {
    type V = Term;

    open spec fn view(&self) -> Term {
        match self {
            Value::Null => Term::Null,
            Value::Strand(text) => Term::Strand(text@),
            Value::Thing(thing) => Term::Thing(thing@),
            Value::Datetime(at) => Term::Datetime(*at as int),
            Value::Function(name) => Term::Function(name@),
        }
    }
}

impl View for SetExprItem {
    type V = Assignment;

    open spec fn view(&self) -> Assignment {
        Assignment { field: self.field@, op: self.op, value: self.value@ }
    }
}

/// The assignments of `items`, in the same order.
pub open spec fn assignments(items: Seq<SetExprItem>) -> Seq<Assignment> {
    items.map_values(|item: SetExprItem| item@)
}

/// The texts of `names`, in the same order.
pub open spec fn names(names: Seq<String>) -> Seq<Seq<char>> {
    names.map_values(|name: String| name@)
}

impl View for Data {
    type V = Assignments;

    open spec fn view(&self) -> Assignments {
        match self {
            Data::SetExpression(items) => Assignments::SetExpression(assignments(items@)),
            Data::UpdateExpression(items) => Assignments::UpdateExpression(assignments(items@)),
        }
    }
}

impl View for CreateStatement {
    type V = Creation;

    open spec fn view(&self) -> Creation {
        Creation { what: self.what@, data: self.data@, output: self.output }
    }
}

impl View for UpdateStatement {
    type V = Change;

    open spec fn view(&self) -> Change {
        Change {
            what: self.what@,
            data: self.data@,
            output: self.output,
            cond: match self.cond {
                Some(holds) => Some((holds.field@, holds.thing@)),
                None => None,
            },
        }
    }
}

impl View for DefineIndexStatement {
    type V = IndexDefinition;

    open spec fn view(&self) -> IndexDefinition {
        IndexDefinition {
            name: self.name@,
            what: self.what@,
            cols: names(self.cols@),
            uniq: self.uniq,
        }
    }
}

/// The character of the decimal digit `d`.
pub open spec fn digit_char(d: int) -> char {
    ((48 + d) as u8) as char
}

/// A natural number in decimal, with no zero in front.
pub open spec fn digits_text(n: nat) -> Seq<char>
    decreases n,
{
    if n < 10 {
        seq![digit_char(n as int)]
    } else {
        digits_text(n / 10).push(digit_char((n % 10) as int))
    }
}

/// A whole number in decimal: its digits, after a minus sign where it is below zero.
pub open spec fn decimal_text(n: int) -> Seq<char> {
    if n < 0 {
        seq!['-'] + digits_text((-n) as nat)
    } else {
        digits_text(n as nat)
    }
}

/// Calls `i64::to_string`. Trusted: the number comes back in decimal, with no zero in
/// front and a minus sign before a number below zero.
#[verifier::external_body]
fn number_text(n: i64) -> (text: String)
    ensures
        text@ == decimal_text(n as int),
{
    n.to_string()
}

impl Id {
    /// The key written out: a text as it is, a number in decimal.
    pub open spec fn raw(self) -> Seq<char> {
        match self {
            Id::Number(n) => decimal_text(n as int),
            Id::String(text) => text@,
        }
    }

    /// A copy of the key.
    pub fn copy(&self) -> (id: Self)
        ensures
            id@ == self@,
    {
        match self {
            Id::Number(n) => Id::Number(*n),
            Id::String(text) => Id::String(text.clone()),
        }
    }
}

impl Thing {
    /// A copy of the record.
    pub fn copy(&self) -> (thing: Self)
        ensures
            thing@ == self@,
    {
        Thing { tb: self.tb.clone(), id: self.id.copy() }
    }
}

impl AsMaybeStr for Id {
    open spec fn maybe_str(&self) -> Option<Seq<char>> {
        match self {
            Id::String(text) => Some(text@),
            Id::Number(_) => None,
        }
    }

    fn as_maybe_str(&self) -> (s: Option<&str>) {
        match self {
            Id::String(text) => Some(text.as_str()),
            Id::Number(_) => None,
        }
    }
}

impl AsMaybeStr for Thing {
    open spec fn maybe_str(&self) -> Option<Seq<char>> {
        self.id.maybe_str()
    }

    fn as_maybe_str(&self) -> (s: Option<&str>) {
        self.id.as_maybe_str()
    }
}

impl ToGqlId for Id {
    open spec fn gql_id(&self) -> Seq<char> {
        self.raw()
    }

    fn to_gql_id(&self) -> (id: String) {
        match self {
            Id::String(text) => text.clone(),
            Id::Number(n) => number_text(*n),
        }
    }
}

impl ToGqlId for Thing {
    open spec fn gql_id(&self) -> Seq<char> {
        self.id.raw()
    }

    fn to_gql_id(&self) -> (id: String) {
        self.id.to_gql_id()
    }
}

impl IntoGqlId for Id {
    open spec fn gql_id(&self) -> Seq<char> {
        self.raw()
    }

    fn into_gql_id(self) -> (id: String) {
        match self {
            Id::String(text) => text,
            Id::Number(n) => number_text(n),
        }
    }
}

impl IntoGqlId for Thing {
    open spec fn gql_id(&self) -> Seq<char> {
        self.id.raw()
    }

    fn into_gql_id(self) -> (id: String) {
        self.id.into_gql_id()
    }
}

/// The record `id` of the table `tb`.
pub fn thing(tb: &str, id: &str) -> (thing: Thing)
    ensures
        thing@ == (Record { tb: tb@, id: Key::Text(id@) }),
{
    Thing { tb: tb.to_owned(), id: Id::String(id.to_owned()) }
}

/// The call that gives the time at which the statement runs.
pub open spec fn now() -> Term {
    Term::Function("time::now"@)
}

pub fn time_now() -> (value: Value)
    ensures
        value@ == now(),
{
    Value::Function("time::now".to_owned())
}

/// The assignment that stamps a record with the time of its change.
pub open spec fn stamp() -> Assignment {
    Assignment { field: "updated_at"@, op: SetOperator::Equal, value: now() }
}

/// The statement that opens a transaction.
pub fn trans_begin() -> (statement: Statement)
    ensures
        statement is Begin,
{
    Statement::Begin
}

/// The statement that closes a transaction.
pub fn trans_end() -> (statement: Statement)
    ensures
        statement is Commit,
{
    Statement::Commit
}

/// Adds the time stamp to `data`.
fn stamped(data: SetExpr) -> (out: SetExpr)
    ensures
        assignments(out@) == assignments(data@).push(stamp()),
{
    let mut out = data;
    out.push(
        SetExprItem { field: "updated_at".to_owned(), op: SetOperator::Equal, value: time_now() },
    );
    assert(assignments(out@) =~= assignments(data@).push(stamp()));
    out
}

/// The statement that creates the record `id` of `table` with `data`, stamped with the
/// time, and answers with the record.
pub fn obj_create_query_id(table: &str, data: SetExpr, id: Id) -> (statement: CreateStatement)
    ensures
        statement@ == (Creation {
            what: Record { tb: table@, id: id@ },
            data: Assignments::SetExpression(assignments(data@).push(stamp())),
            output: Output::After,
        }),
{
    CreateStatement {
        what: Thing { tb: table.to_owned(), id },
        data: Data::SetExpression(stamped(data)),
        output: Output::After,
    }
}

/// The change that `update` makes to `thing`: none where it holds nothing.
pub open spec fn update_of(thing: Record, update: Seq<Assignment>) -> Option<Change> {
    if update.len() == 0 {
        None
    } else {
        Some(
            Change {
                what: thing,
                data: Assignments::UpdateExpression(update.push(stamp())),
                output: Output::After,
                cond: Some(("id"@, thing)),
            },
        )
    }
}

/// The statement that changes `thing` by `update`, stamps it with the time, and answers
/// with the record; none where `update` holds nothing.
pub fn obj_update_query(thing: Thing, update: SetExpr) -> (statement: Option<UpdateStatement>)
    ensures
        match statement {
            Some(statement) => update_of(thing@, assignments(update@)) == Some(statement@),
            None => update_of(thing@, assignments(update@)) is None,
        },
{
    if update.len() == 0 {
        return None;
    }
    let what = thing.copy();
    Some(
        UpdateStatement {
            what,
            data: Data::UpdateExpression(stamped(update)),
            output: Output::After,
            cond: Some(Holds { field: "id".to_owned(), thing }),
        },
    )
}

/// The statement that defines the index `index` on `fields` of `table`, which lets no
/// two records agree on them.
pub fn define_uniq_index(index: &str, table: &str, fields: Vec<String>) -> (statement: Statement)
    ensures
        statement matches Statement::Define(definition) && definition@ == (IndexDefinition {
            name: index@,
            what: table@,
            cols: names(fields@),
            uniq: true,
        }),
{
    Statement::Define(
        DefineIndexStatement {
            name: index.to_owned(),
            what: table.to_owned(),
            cols: fields,
            uniq: true,
        },
    )
}

} // verus!
