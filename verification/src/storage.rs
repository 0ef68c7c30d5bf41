//! The storage as the endpoints rely on it: a mathematical account of what
//! each statement does to the tables and what it hands back, and of what a
//! request comes to when its steps are served against tables that behave so.
//!
//! The account is the yardstick for [`crate::memory::MemoryStore`] and for
//! the laws of [`crate::laws`]. A database behind the service is taken to
//! behave the same way; that is not proved of any database.

use vstd::prelude::*;
use crate::exchange::{OutcomeView, StatementView};
use crate::handler::{resume_spec, Fault, Pending, ReplyView, StepView};
use crate::record::{Fields, Record, Table};

verus! {

/// The contents of the storage: the rows of each table, in the order in
/// which they were inserted.
pub struct Tables {
    pub entry_types: Seq<Record>,
    pub entries: Seq<Record>,
}

/// Whether a row of `rows` has the identifier.
pub open spec fn holds(rows: Seq<Record>, id: u128) -> bool {
    exists|i: int| 0 <= i < rows.len() && #[trigger] rows[i].id == id
}

/// Where in `rows` the row with the identifier stands, if there is one.
pub open spec fn index_of(rows: Seq<Record>, id: u128) -> int {
    choose|i: int| 0 <= i < rows.len() && #[trigger] rows[i].id == id
}

/// No two rows share an identifier.
pub open spec fn unique_ids(rows: Seq<Record>) -> bool {
    forall|i: int, j: int|
        0 <= i < j < rows.len() ==> #[trigger] rows[i].id != #[trigger] rows[j].id
}

/// Among rows with unique identifiers, the row with an identifier stands
/// where `index_of` says.
pub proof fn lemma_index_of(rows: Seq<Record>, at: int)
    requires
        unique_ids(rows),
        0 <= at < rows.len(),
    ensures
        holds(rows, rows[at].id),
        index_of(rows, rows[at].id) == at,
{
    assert(rows[index_of(rows, rows[at].id)].id == rows[at].id);
}

/// The fields of a row after an update: each slot that the payload fills
/// takes the payload's value, every other slot keeps its own.
pub open spec fn merged(stored: Fields, payload: Fields) -> Fields {
    Seq::new(
        stored.len(),
        |k: int|
            if k < payload.len() && payload[k] is Some {
                payload[k]
            } else {
                stored[k]
            },
    )
}

/// The rows of a page: at most `limit` rows after the first `offset`, as far
/// as the table goes.
pub open spec fn page_of(rows: Seq<Record>, limit: int, offset: int) -> Seq<Record>
    recommends
        0 <= limit,
        0 <= offset,
{
    let start = if offset < rows.len() { offset } else { rows.len() as int };
    let end = if offset + limit < rows.len() { offset + limit } else { rows.len() as int };
    rows.subrange(start, end)
}

/// What a statement does to the rows of its table and what it hands back.
///
/// An insert appends the row under `fresh`, the identifier that the storage
/// assigns, and hands it back; where `fresh` is taken, it breaks the table's
/// constraint and changes nothing. A select hands back the row with the
/// identifier. An update merges the payload into that row and hands back the
/// result. Both find nothing where no row has the identifier. A delete
/// removes the row if there is one and reports how many rows it removed. A
/// count gives the number of rows. A page gives the rows of [`page_of`]; a
/// negative limit or offset fails.
pub open spec fn applied(rows: Seq<Record>, statement: StatementView, fresh: u128) -> (
    Seq<Record>,
    OutcomeView,
) {
    match statement {
        StatementView::Insert { fields, .. } => {
            let record = Record { id: fresh, fields };
            if holds(rows, fresh) {
                (rows, OutcomeView::Constraint)
            } else {
                (rows.push(record), OutcomeView::Row(record))
            }
        },
        StatementView::Select { id, .. } => {
            if holds(rows, id) {
                (rows, OutcomeView::Row(rows[index_of(rows, id)]))
            } else {
                (rows, OutcomeView::NotFound)
            }
        },
        StatementView::Update { id, fields, .. } => {
            let at = index_of(rows, id);
            let record = Record { id, fields: merged(rows[at].fields, fields) };
            if holds(rows, id) {
                (rows.update(at, record), OutcomeView::Row(record))
            } else {
                (rows, OutcomeView::NotFound)
            }
        },
        StatementView::Delete { id, .. } => {
            if holds(rows, id) {
                (rows.remove(index_of(rows, id)), OutcomeView::Done(1))
            } else {
                (rows, OutcomeView::Done(0))
            }
        },
        StatementView::Count { .. } => {
            if rows.len() <= i64::MAX {
                (rows, OutcomeView::Count(rows.len() as i64))
            } else {
                (rows, OutcomeView::Failure)
            }
        },
        StatementView::Page { limit, offset, .. } => {
            if limit < 0 || offset < 0 {
                (rows, OutcomeView::Failure)
            } else {
                (rows, OutcomeView::Rows(page_of(rows, limit as int, offset as int)))
            }
        },
    }
}

impl Tables {
    /// The storage with no rows.
    pub open spec fn empty() -> Tables {
        Tables { entry_types: Seq::empty(), entries: Seq::empty() }
    }

    /// The rows of one table.
    pub open spec fn rows(self, table: Table) -> Seq<Record> {
        match table {
            Table::EntryType => self.entry_types,
            Table::Entry => self.entries,
        }
    }

    /// These tables with the rows of one table replaced.
    pub open spec fn put(self, table: Table, rows: Seq<Record>) -> Tables {
        match table {
            Table::EntryType => Tables { entry_types: rows, ..self },
            Table::Entry => Tables { entries: rows, ..self },
        }
    }

    /// Within each table, identifiers are unique.
    pub open spec fn wf(self) -> bool {
        unique_ids(self.entry_types) && unique_ids(self.entries)
    }

    /// What a statement does to the tables and what it hands back: it is
    /// [`applied`] to the rows of its table, and no statement touches the
    /// other table. `fresh` is the identifier that the storage would assign
    /// to a row inserted now.
    pub open spec fn execute(self, statement: StatementView, fresh: u128) -> (Tables, OutcomeView) {
        let table = statement.table();
        let (rows, outcome) = applied(self.rows(table), statement, fresh);
        (self.put(table, rows), outcome)
    }

    /// What a request comes to: the tables and the result once every
    /// statement that its steps ask for has been executed, starting from
    /// `step`.
    pub open spec fn served(self, step: StepView, fresh: u128) -> (Tables, Result<ReplyView, Fault>)
        decreases statements_ahead(step),
    {
        match step {
            StepView::Finish(result) => (self, result),
            StepView::Ask { statement, pending } => {
                let (tables, outcome) = self.execute(statement, fresh);
                tables.served(resume_spec(pending, outcome), fresh)
            },
        }
    }
}

/// An upper bound on the statements that a step and its successors ask for:
/// a list asks for two, every other endpoint for one.
pub open spec fn statements_ahead(step: StepView) -> nat {
    match step {
        StepView::Finish(_) => 0,
        StepView::Ask { pending: Pending::Total { .. }, .. } => 2,
        StepView::Ask { .. } => 1,
    }
}

} // verus!
