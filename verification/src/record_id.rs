//! A record identifier: the table a record lives in and its primary key.

use vstd::prelude::*;

verus! {

/// Identifies one record: the name of its table and its bare primary key.
#[derive(Debug, Clone, PartialEq, Eq)]
pub struct RecordId {
    table: String,
    id: String,
}

impl View for RecordId {
    /// The table name and the primary key, as character sequences.
    type V = (Seq<char>, Seq<char>);

    closed spec fn view(&self) -> (Seq<char>, Seq<char>) {
        (self.table@, self.id@)
    }
}

impl RecordId {
    /// Builds the identifier of record `id` in table `table`.
    pub fn new(table: &str, id: &str) -> (r: RecordId)
        ensures
            r@ == (table@, id@),
    {
        RecordId { table: table.to_owned(), id: id.to_owned() }
    }

    /// The name of the table the record lives in.
    pub fn table(&self) -> (t: &str)
        ensures
            t@ == self@.0,
    {
        self.table.as_str()
    }

    /// The bare primary key of the record.
    pub fn id(&self) -> (i: &str)
        ensures
            i@ == self@.1,
    {
        self.id.as_str()
    }
}

} // verus!
