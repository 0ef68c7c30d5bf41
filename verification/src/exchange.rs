//! What passes between the endpoints and the storage: the statements that an
//! endpoint asks for, and the outcomes that come back.

use vstd::prelude::*;
use crate::record::{records, Fields, Record, Row, Table};

verus! {

/// One statement against one table of the storage.
#[derive(Debug, PartialEq, Eq)]
pub enum Statement {
    /// Insert a new row with these fields; the storage assigns the identifier
    /// and hands the stored row back.
    Insert { table: Table, fields: Vec<Option<String>> },
    /// Fetch the row with this identifier.
    Select { table: Table, id: u128 },
    /// Set the fields that are present on the row with this identifier, and
    /// hand the changed row back.
    Update { table: Table, id: u128, fields: Vec<Option<String>> },
    /// Remove the row with this identifier.
    Delete { table: Table, id: u128 },
    /// Count all rows of the table.
    Count { table: Table },
    /// Fetch at most `limit` rows, skipping the first `offset`.
    Page { table: Table, limit: i64, offset: i64 },
}

/// The view of a [`Statement`].
pub enum StatementView {
    Insert { table: Table, fields: Fields },
    Select { table: Table, id: u128 },
    Update { table: Table, id: u128, fields: Fields },
    Delete { table: Table, id: u128 },
    Count { table: Table },
    Page { table: Table, limit: i64, offset: i64 },
}

impl StatementView {
    /// The table that the statement is about.
    pub open spec fn table(self) -> Table {
        match self {
            StatementView::Insert { table, .. } => table,
            StatementView::Select { table, .. } => table,
            StatementView::Update { table, .. } => table,
            StatementView::Delete { table, .. } => table,
            StatementView::Count { table } => table,
            StatementView::Page { table, .. } => table,
        }
    }
}

impl Statement {
    /// The table that the statement is about.
    pub fn table(&self) -> (table: Table)
        ensures
            table == self@.table(),
    {
        match self {
            Statement::Insert { table, .. } => *table,
            Statement::Select { table, .. } => *table,
            Statement::Update { table, .. } => *table,
            Statement::Delete { table, .. } => *table,
            Statement::Count { table } => *table,
            Statement::Page { table, .. } => *table,
        }
    }
}

impl View for Statement {
    type V = StatementView;

    open spec fn view(&self) -> StatementView {
        match *self {
            Statement::Insert { table, fields } => StatementView::Insert {
                table,
                fields: fields.deep_view(),
            },
            Statement::Select { table, id } => StatementView::Select { table, id },
            Statement::Update { table, id, fields } => StatementView::Update {
                table,
                id,
                fields: fields.deep_view(),
            },
            Statement::Delete { table, id } => StatementView::Delete { table, id },
            Statement::Count { table } => StatementView::Count { table },
            Statement::Page { table, limit, offset } => StatementView::Page { table, limit, offset },
        }
    }
}

/// What the storage made of a statement.
#[derive(Debug, PartialEq, Eq)]
pub enum Outcome {
    /// The one row that the statement stored, found or changed.
    Row(Row),
    /// The rows of a page.
    Rows(Vec<Row>),
    /// The number of rows in the table.
    Count(i64),
    /// The statement ran and hands nothing back but the number of rows it
    /// touched.
    Done(usize),
    /// No row has the identifier.
    NotFound,
    /// The statement would break a constraint of the table.
    Constraint,
    /// Any other failure of the storage.
    Failure,
}

/// The view of an [`Outcome`].
pub enum OutcomeView {
    Row(Record),
    Rows(Seq<Record>),
    Count(i64),
    Done(usize),
    NotFound,
    Constraint,
    Failure,
}

impl View for Outcome {
    type V = OutcomeView;

    open spec fn view(&self) -> OutcomeView {
        match *self {
            Outcome::Row(row) => OutcomeView::Row(row@),
            Outcome::Rows(rows) => OutcomeView::Rows(records(rows@)),
            Outcome::Count(n) => OutcomeView::Count(n),
            Outcome::Done(n) => OutcomeView::Done(n),
            Outcome::NotFound => OutcomeView::NotFound,
            Outcome::Constraint => OutcomeView::Constraint,
            Outcome::Failure => OutcomeView::Failure,
        }
    }
}

} // verus!
