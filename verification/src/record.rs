//! The records that the service keeps, and their mathematical views.

use vstd::prelude::*;

verus! {

/// The two tables of the storage.
#[derive(Clone, Copy, Debug, PartialEq, Eq, Structural)]
pub enum Table {
    /// The named categories.
    EntryType,
    /// The log entries.
    Entry,
}

/// The values of a record's columns other than its identifier, one slot per
/// column in the order of the table's columns. `None` is a column without a
/// value; in a payload it is a column that the request leaves out.
pub type Fields = Seq<Option<Seq<char>>>;

/// A stored record as the storage hands it out.
#[derive(Debug, PartialEq, Eq)]
pub struct Row {
    /// The identifier that the storage assigned on creation.
    pub id: u128,
    /// The other columns.
    pub fields: Vec<Option<String>>,
}

/// The view of a [`Row`].
pub struct Record {
    pub id: u128,
    pub fields: Fields,
}

impl View for Row {
    type V = Record;

    open spec fn view(&self) -> Record {
        Record { id: self.id, fields: self.fields.deep_view() }
    }
}

/// A copy of one slot.
pub(crate) fn copy_slot(slot: &Option<String>) -> (copy: Option<String>)
    ensures
        copy.deep_view() == slot.deep_view(),
{
    match slot {
        Some(text) => Some(text.clone()),
        None => None,
    }
}

impl Clone for Row {
    fn clone(&self) -> (copy: Row)
        ensures
            copy@ == self@,
    {
        let mut fields: Vec<Option<String>> = Vec::new();
        let mut k: usize = 0;
        while k < self.fields.len()
            invariant
                k <= self.fields.len(),
                fields.len() == k,
                forall|j: int| 0 <= j < k ==> fields[j].deep_view() == self.fields[j].deep_view(),
            decreases self.fields.len() - k,
        {
            fields.push(copy_slot(&self.fields[k]));
            k += 1;
        }
        assert(fields.deep_view() =~= self.fields.deep_view());
        Row { id: self.id, fields }
    }
}

/// The views of a list of rows, in the same order.
pub open spec fn records(rows: Seq<Row>) -> Seq<Record> {
    Seq::new(rows.len(), |i: int| rows[i]@)
}

} // verus!
