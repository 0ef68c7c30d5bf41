use brainlog::exchange::{Outcome, Statement};
use brainlog::handler::{
    log_create, log_delete, log_get, log_list, log_update, type_create, type_delete, type_get,
    type_list, type_update, Fault, Reply,
};
use brainlog::memory::MemoryStore;
use brainlog::record::{Row, Table};
use uuid::Uuid;

fn text(s: &str) -> Option<String> {
    Some(s.to_string())
}

fn spelled(id: u128) -> String {
    Uuid::from_u128(id).to_string()
}

fn store_with_entry_types(n: u128) -> MemoryStore {
    let mut store = MemoryStore::new();
    for id in 1..=n {
        let created = store.serve(type_create(vec![text(&format!("type {id}"))]), id);
        assert_eq!(
            created,
            Ok(Reply::Record(Row { id, fields: vec![text(&format!("type {id}"))] }))
        );
    }
    store
}

fn ids(reply: Result<Reply, Fault>) -> (i64, Vec<u128>) {
    match reply {
        Ok(Reply::Listing { total_items, items }) => {
            (total_items, items.iter().map(|row| row.id).collect())
        }
        other => panic!("no listing: {other:?}"),
    }
}

#[test]
fn create_replies_with_the_assigned_id_and_the_given_fields() {
    let mut store = MemoryStore::new();
    let id = 0x0198_5c1e_7a30_7c55_b1d2_0123_4567_89ab;
    let created = store.serve(type_create(vec![text("work"), None, text("blue")]), id);
    assert_eq!(
        created,
        Ok(Reply::Record(Row { id, fields: vec![text("work"), None, text("blue")] }))
    );
}

#[test]
fn create_under_a_taken_id_breaks_the_constraint_and_stores_nothing() {
    let mut store = MemoryStore::new();
    assert!(store.serve(log_create(vec![text("first")]), 9).is_ok());
    assert_eq!(store.serve(log_create(vec![text("second")]), 9), Err(Fault::Constraint));
    assert_eq!(ids(store.serve(log_list(0, 10), 0)), (1, vec![9]));
    assert_eq!(
        store.serve(log_get(&spelled(9)), 0),
        Ok(Reply::Record(Row { id: 9, fields: vec![text("first")] }))
    );
}

#[test]
fn get_after_create_gives_the_identical_record() {
    let mut store = MemoryStore::new();
    let id = 0xa1a2a3a4_b1b2_c1c2_d1d2_d3d4d5d6d7d8;
    let created = store.serve(log_create(vec![text("ran 5 km"), None]), id);
    let fetched = store.serve(log_get("a1a2a3a4-b1b2-c1c2-d1d2-d3d4d5d6d7d8"), 0);
    assert_eq!(fetched, created);
    assert_eq!(fetched, Ok(Reply::Record(Row { id, fields: vec![text("ran 5 km"), None] })));
}

#[test]
fn get_finds_each_of_several_records() {
    let mut store = store_with_entry_types(4);
    for id in 1..=4u128 {
        assert_eq!(
            store.serve(type_get(&spelled(id)), 0),
            Ok(Reply::Record(Row { id, fields: vec![text(&format!("type {id}"))] }))
        );
    }
}

#[test]
fn update_changes_exactly_the_fields_present_in_the_payload() {
    let mut store = MemoryStore::new();
    let id = 77;
    store.serve(type_create(vec![text("work"), text("blue"), None]), id).unwrap();
    let updated = store.serve(type_update(&spelled(id), vec![None, text("red"), None]), 0);
    let expected = Row { id, fields: vec![text("work"), text("red"), None] };
    assert_eq!(updated, Ok(Reply::Record(expected.clone())));
    assert_eq!(store.serve(type_get(&spelled(id)), 0), Ok(Reply::Record(expected)));
}

#[test]
fn update_fills_an_empty_slot_and_ignores_slots_beyond_the_row() {
    let mut store = MemoryStore::new();
    store.serve(log_create(vec![None, text("b")]), 5).unwrap();
    let updated = store.serve(log_update(&spelled(5), vec![text("a"), None, text("c")]), 0);
    assert_eq!(updated, Ok(Reply::Record(Row { id: 5, fields: vec![text("a"), text("b")] })));
    let updated = store.serve(log_update(&spelled(5), vec![]), 0);
    assert_eq!(updated, Ok(Reply::Record(Row { id: 5, fields: vec![text("a"), text("b")] })));
}

#[test]
fn update_leaves_the_other_rows_and_their_order_alone() {
    let mut store = store_with_entry_types(3);
    store.serve(type_update(&spelled(2), vec![text("changed")]), 0).unwrap();
    assert_eq!(
        store.serve(type_list(0, 10), 0),
        Ok(Reply::Listing {
            total_items: 3,
            items: vec![
                Row { id: 1, fields: vec![text("type 1")] },
                Row { id: 2, fields: vec![text("changed")] },
                Row { id: 3, fields: vec![text("type 3")] },
            ],
        })
    );
}

#[test]
fn update_of_a_row_that_is_not_there_finds_nothing() {
    let mut store = store_with_entry_types(2);
    assert_eq!(
        store.serve(type_update(&spelled(3), vec![text("x")]), 0),
        Err(Fault::NotFound)
    );
    assert_eq!(ids(store.serve(type_list(0, 10), 0)), (2, vec![1, 2]));
}

#[test]
fn delete_followed_by_get_finds_nothing() {
    let mut store = store_with_entry_types(3);
    assert_eq!(store.serve(type_delete(&spelled(2)), 0), Ok(Reply::Empty));
    assert_eq!(store.serve(type_get(&spelled(2)), 0), Err(Fault::NotFound));
    assert_eq!(ids(store.serve(type_list(0, 10), 0)), (2, vec![1, 3]));
}

#[test]
fn delete_of_a_row_that_is_not_there_replies_with_nothing_too() {
    let mut store = store_with_entry_types(1);
    assert_eq!(store.serve(type_delete(&spelled(8)), 0), Ok(Reply::Empty));
    assert_eq!(store.serve(log_delete(&spelled(1)), 0), Ok(Reply::Empty));
    assert_eq!(ids(store.serve(type_list(0, 10), 0)), (1, vec![1]));
}

#[test]
fn get_in_an_empty_storage_finds_nothing() {
    let mut store = MemoryStore::new();
    assert_eq!(store.serve(type_get(&spelled(1)), 0), Err(Fault::NotFound));
    assert_eq!(store.serve(log_get(&spelled(1)), 0), Err(Fault::NotFound));
}

#[test]
fn list_of_fifteen_rows_by_ten_gives_ten_and_then_the_remaining_five() {
    let mut store = store_with_entry_types(15);
    let (total, first) = ids(store.serve(type_list(0, 10), 0));
    assert_eq!(total, 15);
    assert_eq!(first, (1..=10).collect::<Vec<u128>>());
    let (total, second) = ids(store.serve(type_list(1, 10), 0));
    assert_eq!(total, 15);
    assert_eq!(second, (11..=15).collect::<Vec<u128>>());
    let (total, third) = ids(store.serve(type_list(2, 10), 0));
    assert_eq!(total, 15);
    assert_eq!(third, Vec::<u128>::new());
}

#[test]
fn list_of_an_empty_table_is_empty() {
    let mut store = MemoryStore::new();
    assert_eq!(
        store.serve(log_list(0, 10), 0),
        Ok(Reply::Listing { total_items: 0, items: vec![] })
    );
}

#[test]
fn list_with_page_size_zero_gives_the_count_and_no_rows() {
    let mut store = store_with_entry_types(3);
    assert_eq!(ids(store.serve(type_list(0, 0), 0)), (3, vec![]));
    assert_eq!(ids(store.serve(type_list(5, 0), 0)), (3, vec![]));
}

#[test]
fn list_with_a_page_size_beyond_the_table_gives_all_rows() {
    let mut store = store_with_entry_types(3);
    assert_eq!(ids(store.serve(type_list(0, i64::MAX), 0)), (3, vec![1, 2, 3]));
    assert_eq!(ids(store.serve(type_list(1, 2), 0)), (3, vec![3]));
}

#[test]
fn list_with_a_negative_number_fails_in_the_storage() {
    let mut store = store_with_entry_types(3);
    assert_eq!(store.serve(type_list(0, -1), 0), Err(Fault::Storage));
    assert_eq!(store.serve(type_list(-1, 2), 0), Err(Fault::Storage));
}

#[test]
fn list_fails_on_an_offset_out_of_range_after_the_count() {
    let mut store = store_with_entry_types(3);
    assert_eq!(store.serve(type_list(i64::MAX, 2), 0), Err(Fault::OffsetRange));
    assert_eq!(ids(store.serve(type_list(0, 10), 0)), (3, vec![1, 2, 3]));
}

#[test]
fn a_malformed_id_leaves_the_storage_alone() {
    let mut store = store_with_entry_types(2);
    assert_eq!(store.serve(type_get("not-a-uuid"), 0), Err(Fault::MalformedId));
    assert_eq!(store.serve(type_delete("not-a-uuid"), 0), Err(Fault::MalformedId));
    assert_eq!(
        store.serve(type_update("not-a-uuid", vec![text("x")]), 0),
        Err(Fault::MalformedId)
    );
    assert_eq!(
        store.serve(type_list(0, 10), 0),
        Ok(Reply::Listing {
            total_items: 2,
            items: vec![
                Row { id: 1, fields: vec![text("type 1")] },
                Row { id: 2, fields: vec![text("type 2")] },
            ],
        })
    );
}

#[test]
fn the_two_tables_are_kept_apart() {
    let mut store = MemoryStore::new();
    store.serve(type_create(vec![text("work")]), 1).unwrap();
    store.serve(log_create(vec![text("entry")]), 1).unwrap();
    store.serve(log_create(vec![text("other")]), 2).unwrap();
    assert_eq!(
        store.serve(type_get(&spelled(1)), 0),
        Ok(Reply::Record(Row { id: 1, fields: vec![text("work")] }))
    );
    assert_eq!(
        store.serve(log_get(&spelled(1)), 0),
        Ok(Reply::Record(Row { id: 1, fields: vec![text("entry")] }))
    );
    assert_eq!(store.serve(type_get(&spelled(2)), 0), Err(Fault::NotFound));
    assert_eq!(ids(store.serve(type_list(0, 10), 0)), (1, vec![1]));
    assert_eq!(ids(store.serve(log_list(0, 10), 0)), (2, vec![1, 2]));
}

#[test]
fn execute_answers_each_statement() {
    let mut store = MemoryStore::new();
    let table = Table::Entry;
    let row = Row { id: 4, fields: vec![text("a"), None] };
    assert_eq!(
        store.execute(Statement::Insert { table, fields: vec![text("a"), None] }, 4),
        Outcome::Row(row.clone())
    );
    assert_eq!(
        store.execute(Statement::Insert { table, fields: vec![] }, 4),
        Outcome::Constraint
    );
    assert_eq!(store.execute(Statement::Count { table }, 0), Outcome::Count(1));
    assert_eq!(store.execute(Statement::Select { table, id: 4 }, 0), Outcome::Row(row.clone()));
    assert_eq!(store.execute(Statement::Select { table, id: 5 }, 0), Outcome::NotFound);
    assert_eq!(
        store.execute(Statement::Update { table, id: 4, fields: vec![None, text("b")] }, 0),
        Outcome::Row(Row { id: 4, fields: vec![text("a"), text("b")] })
    );
    assert_eq!(
        store.execute(Statement::Update { table, id: 5, fields: vec![] }, 0),
        Outcome::NotFound
    );
    assert_eq!(
        store.execute(Statement::Page { table, limit: 1, offset: 0 }, 0),
        Outcome::Rows(vec![Row { id: 4, fields: vec![text("a"), text("b")] }])
    );
    assert_eq!(
        store.execute(Statement::Page { table, limit: 1, offset: 1 }, 0),
        Outcome::Rows(vec![])
    );
    assert_eq!(
        store.execute(Statement::Page { table, limit: -1, offset: 0 }, 0),
        Outcome::Failure
    );
    assert_eq!(
        store.execute(Statement::Page { table, limit: 1, offset: -1 }, 0),
        Outcome::Failure
    );
    assert_eq!(store.execute(Statement::Delete { table, id: 5 }, 0), Outcome::Done(0));
    assert_eq!(store.execute(Statement::Delete { table, id: 4 }, 0), Outcome::Done(1));
    assert_eq!(store.execute(Statement::Count { table }, 0), Outcome::Count(0));
    assert_eq!(store.execute(Statement::Count { table: Table::EntryType }, 0), Outcome::Count(0));
}

#[test]
fn a_copy_of_a_row_equals_the_row() {
    let row = Row { id: u128::MAX, fields: vec![text("a"), None, text("")] };
    assert_eq!(row.clone(), row);
    assert_eq!(Row { id: 0, fields: vec![] }.clone(), Row { id: 0, fields: vec![] });
}

#[test]
fn a_statement_names_its_table() {
    let fields = vec![text("a")];
    for table in [Table::EntryType, Table::Entry] {
        assert_eq!(Statement::Insert { table, fields: fields.clone() }.table(), table);
        assert_eq!(Statement::Select { table, id: 1 }.table(), table);
        assert_eq!(Statement::Update { table, id: 1, fields: fields.clone() }.table(), table);
        assert_eq!(Statement::Delete { table, id: 1 }.table(), table);
        assert_eq!(Statement::Count { table }.table(), table);
        assert_eq!(Statement::Page { table, limit: 1, offset: 0 }.table(), table);
    }
}

#[test]
fn two_pages_in_a_row_are_the_rows_of_one_page_twice_the_size() {
    let mut store = store_with_entry_types(7);
    let (_, head) = ids(store.serve(type_list(1, 2), 0));
    let (_, tail) = ids(store.serve(type_list(2, 2), 0));
    let (_, both) = ids(store.serve(type_list(1, 4), 0));
    assert_eq!(head, vec![3, 4]);
    assert_eq!(tail, vec![5, 6]);
    assert_eq!([head, tail].concat(), vec![3, 4, 5, 6]);
    assert_eq!(both, vec![5, 6, 7]);
}
