//! A storage held in memory that behaves as [`crate::storage`] says, so that
//! the endpoints can be run from end to end without a database.

use vstd::prelude::*;
use crate::exchange::{Outcome, Statement};
use crate::handler::{result_view, resume, Fault, Reply, Step};
use crate::laws::law_identifiers_stable;
use crate::record::{copy_slot, records, Row, Table};
use crate::storage::{
    applied, holds, index_of, lemma_index_of, merged, page_of, statements_ahead, unique_ids,
    Tables,
};

verus! {

/// The two tables, each a list of rows in the order of their insertion.
pub struct MemoryStore {
    entry_types: Vec<Row>,
    entries: Vec<Row>,
}

/// Where the row with the identifier stands.
fn find(rows: &Vec<Row>, id: u128) -> (at: Option<usize>)
    requires
        unique_ids(records(rows@)),
    ensures
        at is Some <==> holds(records(rows@), id),
        at matches Some(at) ==> at == index_of(records(rows@), id),
{
    let ghost listed = records(rows@);
    let mut k: usize = 0;
    while k < rows.len()
        invariant
            k <= rows.len(),
            listed == records(rows@),
            unique_ids(listed),
            forall|j: int| 0 <= j < k ==> listed[j].id != id,
        decreases rows.len() - k,
    {
        if rows[k].id == id {
            proof {
                lemma_index_of(listed, k as int);
            }
            return Some(k);
        }
        k += 1;
    }
    None
}

/// The stored fields with the payload's values set where it has any.
fn merge(stored: &Vec<Option<String>>, payload: &Vec<Option<String>>) -> (fields: Vec<
    Option<String>,
>)
    ensures
        fields.deep_view() == merged(stored.deep_view(), payload.deep_view()),
{
    let ghost wanted = merged(stored.deep_view(), payload.deep_view());
    let mut fields: Vec<Option<String>> = Vec::new();
    let mut k: usize = 0;
    while k < stored.len()
        invariant
            k <= stored.len(),
            fields.len() == k,
            wanted == merged(stored.deep_view(), payload.deep_view()),
            forall|j: int| 0 <= j < k ==> fields[j].deep_view() == wanted[j],
        decreases stored.len() - k,
    {
        let slot = if k < payload.len() && payload[k].is_some() {
            copy_slot(&payload[k])
        } else {
            copy_slot(&stored[k])
        };
        fields.push(slot);
        k += 1;
    }
    fields
}

/// Copies of the rows of a page.
fn page(rows: &Vec<Row>, limit: i64, offset: i64) -> (items: Vec<Row>)
    requires
        0 <= limit,
        0 <= offset,
    ensures
        records(items@) == page_of(records(rows@), limit as int, offset as int),
{
    let len: usize = rows.len();
    let start: usize = if (offset as u64) < (len as u64) {
        offset as usize
    } else {
        len
    };
    let end: usize = if (offset as u64) + (limit as u64) < (len as u64) {
        ((offset as u64) + (limit as u64)) as usize
    } else {
        len
    };
    let mut items: Vec<Row> = Vec::new();
    let mut k: usize = start;
    while k < end
        invariant
            start <= k <= end <= rows.len(),
            items.len() == k - start,
            forall|j: int| 0 <= j < items.len() ==> items[j]@ == rows[start + j]@,
        decreases end - k,
    {
        items.push(rows[k].clone());
        k += 1;
    }
    items
}

/// Executes a statement on the rows of its table.
fn apply(rows: &mut Vec<Row>, statement: Statement, fresh: u128) -> (outcome: Outcome)
    requires
        unique_ids(records(old(rows)@)),
    ensures
        (records(final(rows)@), outcome@) == applied(records(old(rows)@), statement@, fresh),
{
    match statement {
        Statement::Insert { fields, .. } => match find(rows, fresh) {
            Some(_) => Outcome::Constraint,
            None => {
                let row = Row { id: fresh, fields };
                let stored = row.clone();
                rows.push(row);
                Outcome::Row(stored)
            },
        },
        Statement::Select { id, .. } => match find(rows, id) {
            Some(at) => Outcome::Row(rows[at].clone()),
            None => Outcome::NotFound,
        },
        Statement::Update { id, fields, .. } => match find(rows, id) {
            Some(at) => {
                let row = Row { id, fields: merge(&rows[at].fields, &fields) };
                let changed = row.clone();
                rows[at] = row;
                Outcome::Row(changed)
            },
            None => Outcome::NotFound,
        },
        Statement::Delete { id, .. } => match find(rows, id) {
            Some(at) => {
                rows.remove(at);
                Outcome::Done(1)
            },
            None => Outcome::Done(0),
        },
        Statement::Count { .. } => {
            let len: usize = rows.len();
            if len as u64 <= i64::MAX as u64 {
                Outcome::Count(len as i64)
            } else {
                Outcome::Failure
            }
        },
        Statement::Page { limit, offset, .. } => {
            if limit < 0 || offset < 0 {
                Outcome::Failure
            } else {
                Outcome::Rows(page(rows, limit, offset))
            }
        },
    }
}

impl View for MemoryStore {
    type V = Tables;

    closed spec fn view(&self) -> Tables {
        Tables { entry_types: records(self.entry_types@), entries: records(self.entries@) }
    }
}

impl MemoryStore {
    /// Within each table, identifiers are unique. Every store is made so and
    /// stays so.
    pub open spec fn wf(&self) -> bool {
        self@.wf()
    }

    /// A storage with no rows.
    pub fn new() -> (store: MemoryStore)
        ensures
            store@ == Tables::empty(),
            store.wf(),
    {
        let store = MemoryStore { entry_types: Vec::new(), entries: Vec::new() };
        assert(store@.entry_types =~= Seq::empty() && store@.entries =~= Seq::empty());
        store
    }

    /// Executes one statement. `fresh` is the identifier that a row inserted
    /// now is stored under.
    pub fn execute(&mut self, statement: Statement, fresh: u128) -> (outcome: Outcome)
        requires
            old(self).wf(),
        ensures
            (final(self)@, outcome@) == old(self)@.execute(statement@, fresh),
            final(self).wf(),
    {
        proof {
            law_identifiers_stable(self@, statement@, fresh);
        }
        match statement.table() {
            Table::EntryType => apply(&mut self.entry_types, statement, fresh),
            Table::Entry => apply(&mut self.entries, statement, fresh),
        }
    }

    /// Serves a request: executes the statements that its steps ask for,
    /// from `step` on, and gives the result.
    pub fn serve(&mut self, step: Step, fresh: u128) -> (result: Result<Reply, Fault>)
        requires
            old(self).wf(),
        ensures
            (final(self)@, result_view(result)) == old(self)@.served(step@, fresh),
            final(self).wf(),
    {
        let mut next = step;
        loop
            invariant
                self.wf(),
                self@.served(next@, fresh) == old(self)@.served(step@, fresh),
            decreases statements_ahead(next@),
        {
            match next {
                Step::Finish(result) => {
                    return result;
                },
                Step::Ask { statement, pending } => {
                    let outcome = self.execute(statement, fresh);
                    next = resume(pending, outcome);
                },
            }
        }
    }
}

} // verus!
