//! What holds of the endpoints when their statements are served by tables
//! that behave as [`crate::storage::Tables::execute`] says.

use vstd::prelude::*;
use crate::exchange::StatementView;
use crate::handler::{create_spec, delete_spec, get_spec, list_spec, update_spec, Fault, ReplyView};
use crate::record::{Fields, Record, Table};
use crate::storage::{holds, index_of, lemma_index_of, merged, unique_ids, Tables};

verus! {

/// A create stores the payload's fields under the identifier that the
/// storage assigns, an identifier that no row of the table had, and replies
/// with that very row. Where the storage offers an identifier that is
/// taken, the create fails on the constraint and stores nothing.
pub proof fn law_create_returns_stored_row(
    tables: Tables,
    table: Table,
    fields: Fields,
    fresh: u128,
)
    ensures
        ({
            let rows = tables.rows(table);
            let record = Record { id: fresh, fields };
            tables.served(create_spec(table, fields), fresh) == if holds(rows, fresh) {
                (tables, Err::<ReplyView, Fault>(Fault::Constraint))
            } else {
                (tables.put(table, rows.push(record)), Ok(ReplyView::Record(record)))
            }
        }),
{
    reveal_with_fuel(Tables::served, 3);
}

/// A get of the identifier that a create replied with gives the identical
/// record, and changes nothing.
pub proof fn law_get_after_create(
    tables: Tables,
    table: Table,
    fields: Fields,
    fresh: u128,
    later: u128,
)
    requires
        !holds(tables.rows(table), fresh),
    ensures
        ({
            let (after, created) = tables.served(create_spec(table, fields), fresh);
            &&& created == Ok::<ReplyView, Fault>(ReplyView::Record(Record { id: fresh, fields }))
            &&& after.served(get_spec(table, Some(fresh)), later) == (after, created)
        }),
{
    reveal_with_fuel(Tables::served, 3);
    let stored = tables.rows(table).push(Record { id: fresh, fields });
    assert(stored[stored.len() - 1].id == fresh);
    assert(stored[index_of(stored, fresh)].id == fresh);
}

/// An update of a stored row changes exactly the fields that the payload
/// fills: the reply has the row's identifier, the payload's value in each
/// slot that the payload fills and the row's own value in every other slot.
/// The row is replaced where it stood, no other row changes, and a get of
/// the identifier then gives the reply's record.
pub proof fn law_update_changes_present_fields(
    tables: Tables,
    table: Table,
    id: u128,
    payload: Fields,
    fresh: u128,
    later: u128,
)
    requires
        tables.wf(),
        holds(tables.rows(table), id),
    ensures
        ({
            let rows = tables.rows(table);
            let at = index_of(rows, id);
            let (after, updated) = tables.served(update_spec(table, Some(id), payload), fresh);
            &&& updated matches Ok(ReplyView::Record(record))
            &&& record.id == id
            &&& record.fields.len() == rows[at].fields.len()
            &&& forall|k: int|
                0 <= k < record.fields.len() ==> #[trigger] record.fields[k] == if k
                    < payload.len() && payload[k] is Some {
                    payload[k]
                } else {
                    rows[at].fields[k]
                }
            &&& after == tables.put(table, rows.update(at, record))
            &&& after.served(get_spec(table, Some(id)), later) == (after, updated)
        }),
{
    reveal_with_fuel(Tables::served, 3);
    let rows = tables.rows(table);
    let at = index_of(rows, id);
    let record = Record { id, fields: merged(rows[at].fields, payload) };
    lemma_index_of(rows.update(at, record), at);
}

/// An update of a row that a create has just stored replies with the
/// identifier that the create replied with, and with the created fields
/// merged with the payload.
pub proof fn law_update_after_create(
    tables: Tables,
    table: Table,
    fields: Fields,
    payload: Fields,
    fresh: u128,
    later: u128,
)
    requires
        tables.wf(),
        !holds(tables.rows(table), fresh),
    ensures
        ({
            let (after, created) = tables.served(create_spec(table, fields), fresh);
            let (last, updated) = after.served(update_spec(table, Some(fresh), payload), later);
            updated == Ok::<ReplyView, Fault>(
                ReplyView::Record(Record { id: fresh, fields: merged(fields, payload) }),
            )
        }),
{
    reveal_with_fuel(Tables::served, 3);
    let rows = tables.rows(table);
    let record = Record { id: fresh, fields };
    lemma_push_ids(rows, record);
    lemma_index_of(rows.push(record), rows.len() as int);
}

/// After a delete, a get of the same identifier finds nothing. The delete
/// itself replies with nothing, whether or not the row was there.
pub proof fn law_get_after_delete(
    tables: Tables,
    table: Table,
    id: u128,
    fresh: u128,
    later: u128,
)
    requires
        tables.wf(),
    ensures
        ({
            let (after, deleted) = tables.served(delete_spec(table, Some(id)), fresh);
            &&& deleted == Ok::<ReplyView, Fault>(ReplyView::Empty)
            &&& !holds(after.rows(table), id)
            &&& after.served(get_spec(table, Some(id)), later) == (
                after,
                Err::<ReplyView, Fault>(Fault::NotFound),
            )
        }),
{
    reveal_with_fuel(Tables::served, 3);
    let rows = tables.rows(table);
    if holds(rows, id) {
        lemma_remove_ids(rows, index_of(rows, id));
    }
}

/// A get or an update of an identifier that no row has fails with
/// [`Fault::NotFound`] and changes nothing.
pub proof fn law_absent_row_not_found(
    tables: Tables,
    table: Table,
    id: u128,
    payload: Fields,
    fresh: u128,
)
    requires
        !holds(tables.rows(table), id),
    ensures
        tables.served(get_spec(table, Some(id)), fresh) == (
            tables,
            Err::<ReplyView, Fault>(Fault::NotFound),
        ),
        tables.served(update_spec(table, Some(id), payload), fresh) == (
            tables,
            Err::<ReplyView, Fault>(Fault::NotFound),
        ),
{
    reveal_with_fuel(Tables::served, 3);
}

/// A request whose identifier is no UUID fails with [`Fault::MalformedId`]
/// before any statement: the tables are not looked at.
pub proof fn law_malformed_id_asks_nothing(
    tables: Tables,
    table: Table,
    payload: Fields,
    fresh: u128,
)
    ensures
        tables.served(get_spec(table, None), fresh) == (
            tables,
            Err::<ReplyView, Fault>(Fault::MalformedId),
        ),
        tables.served(update_spec(table, None, payload), fresh) == (
            tables,
            Err::<ReplyView, Fault>(Fault::MalformedId),
        ),
        tables.served(delete_spec(table, None), fresh) == (
            tables,
            Err::<ReplyView, Fault>(Fault::MalformedId),
        ),
{
    reveal_with_fuel(Tables::served, 3);
}

/// A list replies with the number of rows in the table and with the rows of
/// the page: those from `page * pagesize` up to, and not including,
/// `(page + 1) * pagesize`, as far as the table goes. It changes nothing.
pub proof fn law_list_pages(tables: Tables, table: Table, page: i64, pagesize: i64, fresh: u128)
    requires
        0 <= page,
        0 <= pagesize,
        page * pagesize <= i64::MAX,
        tables.rows(table).len() <= i64::MAX,
    ensures
        ({
            let rows = tables.rows(table);
            let from = page * pagesize;
            let to = (page + 1) * pagesize;
            let start = if from < rows.len() { from } else { rows.len() as int };
            let end = if to < rows.len() { to } else { rows.len() as int };
            &&& start <= end
            &&& tables.served(list_spec(table, page, pagesize), fresh) == (
                tables,
                Ok::<ReplyView, Fault>(
                    ReplyView::Listing {
                        total_items: rows.len() as i64,
                        items: rows.subrange(start, end),
                    },
                ),
            )
        }),
{
    reveal_with_fuel(Tables::served, 3);
    assert(0 <= page * pagesize && (page + 1) * pagesize == page * pagesize + pagesize)
        by (nonlinear_arith)
        requires
            0 <= page,
            0 <= pagesize,
    ;
}

/// A page and the next page of the same size follow one another through
/// the table without gap or overlap: together they are the rows from
/// `page * pagesize` up to `(page + 2) * pagesize`, as far as the table
/// goes.
pub proof fn law_pages_adjoin(tables: Tables, table: Table, page: i64, pagesize: i64, fresh: u128)
    requires
        0 <= page < i64::MAX,
        0 <= pagesize,
        (page + 1) * pagesize <= i64::MAX,
        tables.rows(table).len() <= i64::MAX,
    ensures
        ({
            let rows = tables.rows(table);
            let from = page * pagesize;
            let to = (page + 2) * pagesize;
            let start = if from < rows.len() { from } else { rows.len() as int };
            let end = if to < rows.len() { to } else { rows.len() as int };
            &&& tables.served(list_spec(table, page, pagesize), fresh).1 matches Ok(
                ReplyView::Listing { items: head, .. },
            )
            &&& tables.served(list_spec(table, (page + 1) as i64, pagesize), fresh).1 matches Ok(
                ReplyView::Listing { items: tail, .. },
            )
            &&& start <= end
            &&& head + tail == rows.subrange(start, end)
        }),
{
    assert(0 <= page * pagesize <= (page + 1) * pagesize && (page + 2) * pagesize == (page + 1)
        * pagesize + pagesize) by (nonlinear_arith)
        requires
            0 <= page,
            0 <= pagesize,
    ;
    law_list_pages(tables, table, page, pagesize, fresh);
    law_list_pages(tables, table, (page + 1) as i64, pagesize, fresh);
}

/// Identifiers are unique in each table whatever statement is executed, and
/// an identifier belongs to a row from the insert that assigned it until
/// the delete that names it: no other statement adds or removes an
/// identifier, or changes the identifier of a row.
pub proof fn law_identifiers_stable(tables: Tables, statement: StatementView, fresh: u128)
    requires
        tables.wf(),
    ensures
        ({
            let (after, outcome) = tables.execute(statement, fresh);
            &&& after.wf()
            &&& forall|table: Table, id: u128| #[trigger]
                holds(after.rows(table), id) <==> match statement {
                    StatementView::Insert { table: into, .. } => holds(tables.rows(table), id)
                        || (table == into && id == fresh),
                    StatementView::Delete { table: from, id: gone } => holds(
                        tables.rows(table),
                        id,
                    ) && !(table == from && id == gone),
                    _ => holds(tables.rows(table), id),
                }
        }),
{
    match statement {
        StatementView::Insert { table, fields } => {
            let rows = tables.rows(table);
            if !holds(rows, fresh) {
                lemma_push_ids(rows, Record { id: fresh, fields });
            }
        },
        StatementView::Update { table, id, fields } => {
            let rows = tables.rows(table);
            if holds(rows, id) {
                let at = index_of(rows, id);
                lemma_update_ids(rows, at, Record { id, fields: merged(rows[at].fields, fields) });
            }
        },
        StatementView::Delete { table, id } => {
            let rows = tables.rows(table);
            if holds(rows, id) {
                lemma_remove_ids(rows, index_of(rows, id));
            }
        },
        _ => {},
    }
}

/// Appending a row under a new identifier keeps identifiers unique and adds
/// that identifier alone.
proof fn lemma_push_ids(rows: Seq<Record>, record: Record)
    requires
        unique_ids(rows),
        !holds(rows, record.id),
    ensures
        unique_ids(rows.push(record)),
        forall|id: u128| #[trigger]
            holds(rows.push(record), id) <==> holds(rows, id) || id == record.id,
{
    let stored = rows.push(record);
    assert forall|id: u128| #[trigger] holds(stored, id) <==> holds(rows, id) || id
        == record.id by {
        if holds(stored, id) {
            assert(stored[index_of(stored, id)].id == id);
        }
        if holds(rows, id) {
            assert(stored[index_of(rows, id)].id == id);
        }
        if id == record.id {
            assert(stored[rows.len() as int].id == id);
        }
    }
}

/// Replacing a row by one with the same identifier keeps the identifiers as
/// they are.
proof fn lemma_update_ids(rows: Seq<Record>, at: int, record: Record)
    requires
        unique_ids(rows),
        0 <= at < rows.len(),
        rows[at].id == record.id,
    ensures
        unique_ids(rows.update(at, record)),
        forall|id: u128| #[trigger] holds(rows.update(at, record), id) <==> holds(rows, id),
{
    let changed = rows.update(at, record);
    assert forall|id: u128| #[trigger] holds(changed, id) <==> holds(rows, id) by {
        if holds(changed, id) {
            assert(changed[index_of(changed, id)].id == id);
        }
        if holds(rows, id) {
            assert(changed[index_of(rows, id)].id == id);
        }
    }
}

/// Removing a row keeps identifiers unique and removes that row's
/// identifier alone.
proof fn lemma_remove_ids(rows: Seq<Record>, at: int)
    requires
        unique_ids(rows),
        0 <= at < rows.len(),
    ensures
        unique_ids(rows.remove(at)),
        forall|id: u128| #[trigger]
            holds(rows.remove(at), id) <==> holds(rows, id) && id != rows[at].id,
{
    let left = rows.remove(at);
    assert forall|id: u128| #[trigger] holds(left, id) <==> holds(rows, id) && id
        != rows[at].id by {
        if holds(left, id) {
            assert(left[index_of(left, id)].id == id);
        }
        if holds(rows, id) && id != rows[at].id {
            let a = index_of(rows, id);
            assert(left[if a < at { a } else { a - 1 }].id == id);
        }
    }
}

} // verus!
