//! Dispatch of a `HistorySource` record to a concrete platform fixture row.
//!
//! Only the platform's own E2E fixture tables are dispatched here; product
//! tables read their own parent rows. Loading a row is I/O and stays with the
//! caller: [`plan_history_source_lookup`] decides which table, if any, to read
//! and under which key, and [`resolve_fixture_a`] / [`resolve_fixture_b`] turn
//! what the read returned into the resolved source.

use vstd::prelude::*;

use crate::constants::{E2E_HISTORY_SOURCE_A_TABLE, E2E_HISTORY_SOURCE_B_TABLE};
use crate::record_id::RecordId;

verus! {

/// A row of the first platform fixture parent table.
#[derive(Debug, Clone, PartialEq, Eq)]
pub struct E2eHistorySourceA {
    pub name: String,
}

/// A row of the second platform fixture parent table.
#[derive(Debug, Clone, PartialEq, Eq)]
pub struct E2eHistorySourceB {
    pub name: String,
}

impl E2eHistorySourceA {
    /// A fixture parent row with display name `name`.
    pub fn new(name: String) -> (r: Self)
        ensures
            r.name == name,
    {
        E2eHistorySourceA { name }
    }
}

impl E2eHistorySourceB {
    /// A fixture parent row with display name `name`.
    pub fn new(name: String) -> (r: Self)
        ensures
            r.name == name,
    {
        E2eHistorySourceB { name }
    }
}

/// Resolved platform fixture source.
///
/// Only the platform's own E2E fixture tables are dispatched; this is no
/// generic extension point.
#[derive(Debug)]
pub enum ResolvedHistorySource {
    /// Row loaded from the first fixture table.
    A(E2eHistorySourceA),
    /// Row loaded from the second fixture table.
    B(E2eHistorySourceB),
}

/// The fixture tables this module dispatches.
#[derive(Debug, Clone, Copy, PartialEq, Eq, Structural)]
pub enum FixtureTable {
    SourceA,
    SourceB,
}

/// A read that the caller must perform: the row with primary key `id` in `table`.
#[derive(Debug, Clone, PartialEq, Eq)]
pub struct FixtureLookup {
    pub table: FixtureTable,
    pub id: String,
}

/// The fixture table that a table name denotes, if any.
pub open spec fn fixture_table_of(table: Seq<char>) -> Option<FixtureTable> {
    if table == E2E_HISTORY_SOURCE_A_TABLE@ {
        Some(FixtureTable::SourceA)
    } else if table == E2E_HISTORY_SOURCE_B_TABLE@ {
        Some(FixtureTable::SourceB)
    } else {
        None
    }
}

/// Whether `table` is among the registered implementor tables.
pub open spec fn is_registered(table: Seq<char>, registered: Seq<String>) -> bool {
    exists|i: int| 0 <= i < registered.len() && (#[trigger] registered[i])@ == table
}

/// The read that dispatching the record `key` (table, primary key) calls for,
/// given the tables registered as implementors: none when the table is not
/// registered or is not a fixture table, else that fixture table at the
/// record's own primary key.
pub open spec fn lookup_of(key: (Seq<char>, Seq<char>), registered: Seq<String>) -> Option<(FixtureTable, Seq<char>)> {
    if is_registered(key.0, registered) {
        match fixture_table_of(key.0) {
            Some(t) => Some((t, key.1)),
            None => None,
        }
    } else {
        None
    }
}

/// The fixture table constants are the two table names, and they differ.
proof fn lemma_fixture_table_names()
    ensures
        E2E_HISTORY_SOURCE_A_TABLE@ == "e2e_history_source_a"@,
        E2E_HISTORY_SOURCE_B_TABLE@ == "e2e_history_source_b"@,
        "e2e_history_source_a"@ != "e2e_history_source_b"@,
{
    reveal_strlit("e2e_history_source_a");
    reveal_strlit("e2e_history_source_b");
    assert(E2E_HISTORY_SOURCE_A_TABLE@ == "e2e_history_source_a"@);
    assert(E2E_HISTORY_SOURCE_B_TABLE@ == "e2e_history_source_b"@);
    assert("e2e_history_source_a"@[19] != "e2e_history_source_b"@[19]);
}

/// A lookup as a plain value: the table and the key as characters.
pub open spec fn lookup_view(lookup: Option<FixtureLookup>) -> Option<(FixtureTable, Seq<char>)> {
    match lookup {
        Some(l) => Some((l.table, l.id@)),
        None => None,
    }
}

/// Whether `table` names one of the registered implementor tables.
fn table_is_registered(table: &String, registered: &[String]) -> (found: bool)
    ensures
        found == is_registered(table@, registered@),
        found <==> exists|i: int| 0 <= i < registered@.len() && (#[trigger] registered@[i])@ == table@,
{
    let mut i: usize = 0;
    while i < registered.len()
        invariant
            i <= registered@.len(),
            forall|j: int| 0 <= j < i ==> (#[trigger] registered@[j])@ != table@,
        decreases registered@.len() - i,
    {
        if registered[i] == *table {
            return true;
        }
        i = i + 1;
    }
    false
}

/// Decides how to load the concrete `HistorySource` row for `record_id`,
/// given the tables registered for the `HistorySource` trait.
///
/// Returns `None` when the table is not registered, or is a registered
/// implementor that this helper does not dispatch (product tables load their
/// own rows); otherwise the fixture table to read and the record's primary key.
pub fn plan_history_source_lookup(record_id: &RecordId, registered_tables: &[String]) -> (lookup: Option<FixtureLookup>)
    ensures
        lookup_view(lookup) == lookup_of(record_id@, registered_tables@),
        lookup is Some ==> exists|i: int|
            0 <= i < registered_tables@.len() && (#[trigger] registered_tables@[i])@ == record_id@.0,
        lookup is Some ==> record_id@.0 == "e2e_history_source_a"@ || record_id@.0 == "e2e_history_source_b"@,
        lookup matches Some(l) ==> {
            &&& l.id@ == record_id@.1
            &&& (l.table == FixtureTable::SourceA <==> record_id@.0 == "e2e_history_source_a"@)
            &&& (l.table == FixtureTable::SourceB <==> record_id@.0 == "e2e_history_source_b"@)
        },
        (exists|i: int| 0 <= i < registered_tables@.len() && (#[trigger] registered_tables@[i])@ == record_id@.0)
            && (record_id@.0 == "e2e_history_source_a"@ || record_id@.0 == "e2e_history_source_b"@)
            ==> lookup is Some,
{
    proof {
        lemma_fixture_table_names();
    }
    let table = record_id.table().to_owned();
    if !table_is_registered(&table, registered_tables) {
        return None;
    }
    let table_a = E2E_HISTORY_SOURCE_A_TABLE.to_owned();
    let table_b = E2E_HISTORY_SOURCE_B_TABLE.to_owned();
    if table == table_a {
        Some(FixtureLookup { table: FixtureTable::SourceA, id: record_id.id().to_owned() })
    } else if table == table_b {
        Some(FixtureLookup { table: FixtureTable::SourceB, id: record_id.id().to_owned() })
    } else {
        None
    }
}

/// The resolved source for what reading the first fixture table returned:
/// a found row becomes [`ResolvedHistorySource::A`], a missing row `None`,
/// and a failed read's error is handed back unchanged.
pub fn resolve_fixture_a<E>(loaded: Result<Option<E2eHistorySourceA>, E>) -> (r: Result<Option<ResolvedHistorySource>, E>)
    ensures
        match loaded {
            Ok(Some(row)) => r == Ok::<Option<ResolvedHistorySource>, E>(Some(ResolvedHistorySource::A(row))),
            Ok(None) => r == Ok::<Option<ResolvedHistorySource>, E>(None),
            Err(e) => r == Err::<Option<ResolvedHistorySource>, E>(e),
        },
{
    match loaded {
        Ok(Some(row)) => Ok(Some(ResolvedHistorySource::A(row))),
        Ok(None) => Ok(None),
        Err(e) => Err(e),
    }
}

/// The resolved source for what reading the second fixture table returned:
/// a found row becomes [`ResolvedHistorySource::B`], a missing row `None`,
/// and a failed read's error is handed back unchanged.
pub fn resolve_fixture_b<E>(loaded: Result<Option<E2eHistorySourceB>, E>) -> (r: Result<Option<ResolvedHistorySource>, E>)
    ensures
        match loaded {
            Ok(Some(row)) => r == Ok::<Option<ResolvedHistorySource>, E>(Some(ResolvedHistorySource::B(row))),
            Ok(None) => r == Ok::<Option<ResolvedHistorySource>, E>(None),
            Err(e) => r == Err::<Option<ResolvedHistorySource>, E>(e),
        },
{
    match loaded {
        Ok(Some(row)) => Ok(Some(ResolvedHistorySource::B(row))),
        Ok(None) => Ok(None),
        Err(e) => Err(e),
    }
}

} // verus!
