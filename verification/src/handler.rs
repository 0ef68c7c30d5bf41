//! The endpoints. Each is a short exchange with the storage: the endpoint
//! turns a request into a [`Step`], the caller runs the statement that the
//! step asks for, and [`resume`] turns the storage's outcome into the next
//! step, until a step holds the final result.

use vstd::prelude::*;
use crate::exchange::{Outcome, OutcomeView, Statement, StatementView};
use crate::ident::{parse_uuid, parsed_uuid};
use crate::record::{records, Fields, Record, Row, Table};

verus! {

/// Why a request ends without a reply.
#[derive(Clone, Copy, Debug, PartialEq, Eq, Structural)]
pub enum Fault {
    /// The identifier in the request is not a UUID. No statement was asked
    /// for.
    MalformedId,
    /// The storage holds no row with the identifier.
    NotFound,
    /// The storage refused the statement because of a constraint.
    Constraint,
    /// The storage failed otherwise, or answered what the statement cannot
    /// give.
    Storage,
    /// The product of page and page size, the number of rows to skip, does
    /// not fit in 64 bits.
    OffsetRange,
}

/// What a request is answered with.
#[derive(Debug, PartialEq, Eq)]
pub enum Reply {
    /// The record that was created, found or updated.
    Record(Row),
    /// Nothing: the reply to a delete.
    Empty,
    /// One page of a table, with the number of rows in the whole table.
    Listing { total_items: i64, items: Vec<Row> },
}

/// The view of a [`Reply`].
pub enum ReplyView {
    Record(Record),
    Empty,
    Listing { total_items: i64, items: Seq<Record> },
}

impl View for Reply {
    type V = ReplyView;

    open spec fn view(&self) -> ReplyView {
        match *self {
            Reply::Record(row) => ReplyView::Record(row@),
            Reply::Empty => ReplyView::Empty,
            Reply::Listing { total_items, items } => ReplyView::Listing {
                total_items,
                items: records(items@),
            },
        }
    }
}

/// The view of a request's result.
pub open spec fn result_view(result: Result<Reply, Fault>) -> Result<ReplyView, Fault> {
    match result {
        Ok(reply) => Ok(reply@),
        Err(fault) => Err(fault),
    }
}

/// What an endpoint is waiting for while its statement runs.
#[derive(Clone, Copy, Debug, PartialEq, Eq, Structural)]
pub enum Pending {
    /// The one row of a create, get or update.
    Record,
    /// The completion of a delete.
    Removal,
    /// The row count of a list, after which the page is fetched.
    Total { table: Table, page: i64, pagesize: i64 },
    /// The rows of a list's page; the count is already known.
    Items { total_items: i64 },
}

/// One step of an endpoint.
#[derive(Debug, PartialEq, Eq)]
pub enum Step {
    /// Run `statement` and come back with its outcome and `pending`.
    Ask { statement: Statement, pending: Pending },
    /// The request is done.
    Finish(Result<Reply, Fault>),
}

/// The view of a [`Step`].
pub enum StepView {
    Ask { statement: StatementView, pending: Pending },
    Finish(Result<ReplyView, Fault>),
}

impl View for Step {
    type V = StepView;

    open spec fn view(&self) -> StepView {
        match *self {
            Step::Ask { statement, pending } => StepView::Ask { statement: statement@, pending },
            Step::Finish(Ok(reply)) => StepView::Finish(Ok(reply@)),
            Step::Finish(Err(fault)) => StepView::Finish(Err(fault)),
        }
    }
}

/// The number of rows that a list skips: page times page size, where that
/// fits in 64 bits.
pub open spec fn page_offset(page: i64, pagesize: i64) -> Option<i64> {
    if i64::MIN <= page * pagesize <= i64::MAX {
        Some((page * pagesize) as i64)
    } else {
        None
    }
}

/// The one step before the reply of a create: insert a row with the
/// payload's fields.
pub open spec fn create_spec(table: Table, fields: Fields) -> StepView {
    StepView::Ask { statement: StatementView::Insert { table, fields }, pending: Pending::Record }
}

/// The first step of a get, given what the identifier in the request was
/// read as: select the row, or end with [`Fault::MalformedId`] where the
/// text was no UUID.
pub open spec fn get_spec(table: Table, id: Option<u128>) -> StepView {
    match id {
        Some(id) => StepView::Ask {
            statement: StatementView::Select { table, id },
            pending: Pending::Record,
        },
        None => StepView::Finish(Err(Fault::MalformedId)),
    }
}

/// The first step of an update: set the payload's fields on the row, or end
/// with [`Fault::MalformedId`].
pub open spec fn update_spec(table: Table, id: Option<u128>, fields: Fields) -> StepView {
    match id {
        Some(id) => StepView::Ask {
            statement: StatementView::Update { table, id, fields },
            pending: Pending::Record,
        },
        None => StepView::Finish(Err(Fault::MalformedId)),
    }
}

/// The first step of a delete: remove the row, or end with
/// [`Fault::MalformedId`].
pub open spec fn delete_spec(table: Table, id: Option<u128>) -> StepView {
    match id {
        Some(id) => StepView::Ask {
            statement: StatementView::Delete { table, id },
            pending: Pending::Removal,
        },
        None => StepView::Finish(Err(Fault::MalformedId)),
    }
}

/// The first step of a list: count the rows of the table.
pub open spec fn list_spec(table: Table, page: i64, pagesize: i64) -> StepView {
    StepView::Ask {
        statement: StatementView::Count { table },
        pending: Pending::Total { table, page, pagesize },
    }
}

/// The step that follows an outcome of the storage.
///
/// A failure of the storage ends the request with the matching fault,
/// whatever was pending. A row ends a create, get or update with that row. A
/// completion ends a delete with an empty reply, whether or not a row was
/// removed. A count, while a list waits for it, is followed by the statement
/// for the page: `pagesize` rows at most, after the first `page * pagesize`;
/// where that product does not fit, the request ends with
/// [`Fault::OffsetRange`]. The rows of the page end the list with the count
/// and those rows. An outcome that is not the one awaited ends the request
/// with [`Fault::Storage`].
pub open spec fn resume_spec(pending: Pending, outcome: OutcomeView) -> StepView {
    match (pending, outcome) {
        (_, OutcomeView::NotFound) => StepView::Finish(Err(Fault::NotFound)),
        (_, OutcomeView::Constraint) => StepView::Finish(Err(Fault::Constraint)),
        (_, OutcomeView::Failure) => StepView::Finish(Err(Fault::Storage)),
        (Pending::Record, OutcomeView::Row(record)) => StepView::Finish(
            Ok(ReplyView::Record(record)),
        ),
        (Pending::Removal, OutcomeView::Done(_)) => StepView::Finish(Ok(ReplyView::Empty)),
        (Pending::Total { table, page, pagesize }, OutcomeView::Count(total_items)) => {
            match page_offset(page, pagesize) {
                Some(offset) => StepView::Ask {
                    statement: StatementView::Page { table, limit: pagesize, offset },
                    pending: Pending::Items { total_items },
                },
                None => StepView::Finish(Err(Fault::OffsetRange)),
            }
        },
        (Pending::Items { total_items }, OutcomeView::Rows(items)) => StepView::Finish(
            Ok(ReplyView::Listing { total_items, items }),
        ),
        _ => StepView::Finish(Err(Fault::Storage)),
    }
}

/// Starts a create in `table`. The payload goes to the storage as it is; the
/// identifier is the storage's to assign.
pub fn create(table: Table, fields: Vec<Option<String>>) -> (step: Step)
    ensures
        step@ == create_spec(table, fields.deep_view()),
{
    Step::Ask { statement: Statement::Insert { table, fields }, pending: Pending::Record }
}

/// Starts a get in `table` for the identifier that the request's text was
/// read as, `None` where it was no UUID.
pub fn get(table: Table, id: Option<u128>) -> (step: Step)
    ensures
        step@ == get_spec(table, id),
{
    match id {
        Some(id) => Step::Ask { statement: Statement::Select { table, id }, pending: Pending::Record },
        None => Step::Finish(Err(Fault::MalformedId)),
    }
}

/// Starts an update in `table`: the fields present in the payload are to be
/// set on the row with the identifier.
pub fn update(table: Table, id: Option<u128>, fields: Vec<Option<String>>) -> (step: Step)
    ensures
        step@ == update_spec(table, id, fields.deep_view()),
{
    match id {
        Some(id) => Step::Ask {
            statement: Statement::Update { table, id, fields },
            pending: Pending::Record,
        },
        None => Step::Finish(Err(Fault::MalformedId)),
    }
}

/// Starts a delete in `table`.
pub fn delete(table: Table, id: Option<u128>) -> (step: Step)
    ensures
        step@ == delete_spec(table, id),
{
    match id {
        Some(id) => Step::Ask {
            statement: Statement::Delete { table, id },
            pending: Pending::Removal,
        },
        None => Step::Finish(Err(Fault::MalformedId)),
    }
}

/// Starts a list of `table`: page number `page`, counted from 0, of pages of
/// `pagesize` rows. The row count is asked for first. Neither number is
/// checked here: what the storage makes of a negative limit or offset is
/// its own affair.
pub fn list(table: Table, page: i64, pagesize: i64) -> (step: Step)
    ensures
        step@ == list_spec(table, page, pagesize),
{
    Step::Ask {
        statement: Statement::Count { table },
        pending: Pending::Total { table, page, pagesize },
    }
}

/// Takes the outcome of the statement that the last step asked for, and
/// gives the next step.
pub fn resume(pending: Pending, outcome: Outcome) -> (step: Step)
    ensures
        step@ == resume_spec(pending, outcome@),
{
    match outcome {
        Outcome::NotFound => Step::Finish(Err(Fault::NotFound)),
        Outcome::Constraint => Step::Finish(Err(Fault::Constraint)),
        Outcome::Failure => Step::Finish(Err(Fault::Storage)),
        Outcome::Row(row) => match pending {
            Pending::Record => Step::Finish(Ok(Reply::Record(row))),
            _ => Step::Finish(Err(Fault::Storage)),
        },
        Outcome::Done(_) => match pending {
            Pending::Removal => Step::Finish(Ok(Reply::Empty)),
            _ => Step::Finish(Err(Fault::Storage)),
        },
        Outcome::Count(total_items) => match pending {
            Pending::Total { table, page, pagesize } => match page.checked_mul(pagesize) {
                Some(offset) => Step::Ask {
                    statement: Statement::Page { table, limit: pagesize, offset },
                    pending: Pending::Items { total_items },
                },
                None => Step::Finish(Err(Fault::OffsetRange)),
            },
            _ => Step::Finish(Err(Fault::Storage)),
        },
        Outcome::Rows(items) => match pending {
            Pending::Items { total_items } => Step::Finish(
                Ok(Reply::Listing { total_items, items }),
            ),
            _ => Step::Finish(Err(Fault::Storage)),
        },
    }
}

/// `POST /brainlog/type/create`: stores a new entry type.
pub fn type_create(fields: Vec<Option<String>>) -> (step: Step)
    ensures
        step@ == create_spec(Table::EntryType, fields.deep_view()),
{
    create(Table::EntryType, fields)
}

/// `GET /brainlog/type/get?<id>`: the entry type with the identifier that
/// `id` spells.
pub fn type_get(id: &str) -> (step: Step)
    ensures
        step@ == get_spec(Table::EntryType, parsed_uuid(id@)),
{
    get(Table::EntryType, parse_uuid(id))
}

/// `POST /brainlog/type/update?<id>`: changes an entry type.
pub fn type_update(id: &str, fields: Vec<Option<String>>) -> (step: Step)
    ensures
        step@ == update_spec(Table::EntryType, parsed_uuid(id@), fields.deep_view()),
{
    update(Table::EntryType, parse_uuid(id), fields)
}

/// `GET /brainlog/type/delete?<id>`: removes an entry type.
pub fn type_delete(id: &str) -> (step: Step)
    ensures
        step@ == delete_spec(Table::EntryType, parsed_uuid(id@)),
{
    delete(Table::EntryType, parse_uuid(id))
}

/// `GET /brainlog/type/list?<page>&<pagesize>`: one page of the entry types.
pub fn type_list(page: i64, pagesize: i64) -> (step: Step)
    ensures
        step@ == list_spec(Table::EntryType, page, pagesize),
{
    list(Table::EntryType, page, pagesize)
}

/// `POST /brainlog/create`: stores a new entry.
pub fn log_create(fields: Vec<Option<String>>) -> (step: Step)
    ensures
        step@ == create_spec(Table::Entry, fields.deep_view()),
{
    create(Table::Entry, fields)
}

/// `GET /brainlog/get?<id>`: the entry with the identifier that `id` spells.
pub fn log_get(id: &str) -> (step: Step)
    ensures
        step@ == get_spec(Table::Entry, parsed_uuid(id@)),
{
    get(Table::Entry, parse_uuid(id))
}

/// `POST /brainlog/update?<id>`: changes an entry.
pub fn log_update(id: &str, fields: Vec<Option<String>>) -> (step: Step)
    ensures
        step@ == update_spec(Table::Entry, parsed_uuid(id@), fields.deep_view()),
{
    update(Table::Entry, parse_uuid(id), fields)
}

/// `GET /brainlog/delete?<id>`: removes an entry.
pub fn log_delete(id: &str) -> (step: Step)
    ensures
        step@ == delete_spec(Table::Entry, parsed_uuid(id@)),
{
    delete(Table::Entry, parse_uuid(id))
}

/// `GET /brainlog/list?<page>&<pagesize>`: one page of the entries.
pub fn log_list(page: i64, pagesize: i64) -> (step: Step)
    ensures
        step@ == list_spec(Table::Entry, page, pagesize),
{
    list(Table::Entry, page, pagesize)
}

} // verus!
