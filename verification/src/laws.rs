//! Laws of history-source dispatch that span the functions of this crate.

use vstd::prelude::*;

use crate::constants::{
    E2E_HISTORY_SOURCE_A_TABLE, E2E_HISTORY_SOURCE_B_TABLE, E2E_RECORD_HISTORY_EMPTY_SOURCE_ID,
    E2E_RECORD_HISTORY_SOURCE_ID,
};
use crate::source::{fixture_table_of, is_registered, lookup_of, FixtureTable};

verus! {

/// The two fixture parent tables are told apart: the first denotes the first
/// fixture table and the second the second.
pub proof fn lemma_fixture_tables_distinct()
    ensures
        fixture_table_of(E2E_HISTORY_SOURCE_A_TABLE@) == Some(FixtureTable::SourceA),
        fixture_table_of(E2E_HISTORY_SOURCE_B_TABLE@) == Some(FixtureTable::SourceB),
{
    reveal_strlit("e2e_history_source_a");
    reveal_strlit("e2e_history_source_b");
    assert(E2E_HISTORY_SOURCE_A_TABLE@ == "e2e_history_source_a"@);
    assert("e2e_history_source_a"@[19] != "e2e_history_source_b"@[19]);
}

/// A record is only ever loaded from a table registered for the trait, only
/// from one of the fixture tables, and only under its own primary key, from
/// the fixture table that its table names. Every other record resolves to
/// nothing.
pub proof fn lemma_lookup_gate(key: (Seq<char>, Seq<char>), registered: Seq<String>)
    ensures
        !is_registered(key.0, registered) ==> lookup_of(key, registered) is None,
        fixture_table_of(key.0) is None ==> lookup_of(key, registered) is None,
        lookup_of(key, registered) matches Some((table, id)) ==> {
            &&& is_registered(key.0, registered)
            &&& fixture_table_of(key.0) == Some(table)
            &&& id == key.1
        },
{
}

/// Dispatch depends on which tables are registered, not on their order or
/// on repetitions in the registry.
pub proof fn lemma_lookup_ignores_registry_order(
    key: (Seq<char>, Seq<char>),
    registered: Seq<String>,
    other: Seq<String>,
)
    requires
        forall|t: Seq<char>| is_registered(t, registered) == is_registered(t, other),
    ensures
        lookup_of(key, registered) == lookup_of(key, other),
{
    assert(is_registered(key.0, registered) == is_registered(key.0, other));
}

/// The seeded timeline parent is loaded from the first fixture table under
/// its own primary key, once that table is registered.
pub proof fn lemma_seeded_source_dispatches_to_a(registered: Seq<String>)
    requires
        is_registered(E2E_HISTORY_SOURCE_A_TABLE@, registered),
    ensures
        lookup_of((E2E_HISTORY_SOURCE_A_TABLE@, E2E_RECORD_HISTORY_SOURCE_ID@), registered)
            == Some((FixtureTable::SourceA, E2E_RECORD_HISTORY_SOURCE_ID@)),
{
    lemma_fixture_tables_distinct();
}

/// The empty-state preview parent is loaded from the second fixture table
/// under its own primary key, once that table is registered.
pub proof fn lemma_empty_source_dispatches_to_b(registered: Seq<String>)
    requires
        is_registered(E2E_HISTORY_SOURCE_B_TABLE@, registered),
    ensures
        lookup_of((E2E_HISTORY_SOURCE_B_TABLE@, E2E_RECORD_HISTORY_EMPTY_SOURCE_ID@), registered)
            == Some((FixtureTable::SourceB, E2E_RECORD_HISTORY_EMPTY_SOURCE_ID@)),
{
    lemma_fixture_tables_distinct();
}

/// Registry gate: a record is only ever dispatched when some entry of the
/// registry is, character for character, the record's own table name.
pub proof fn lemma_dispatch_requires_registry_entry(key: (Seq<char>, Seq<char>), registered: Seq<String>)
    ensures
        lookup_of(key, registered) is Some ==> exists|i: int|
            0 <= i < registered.len() && (#[trigger] registered[i])@ == key.0,
{
}

/// Only the two fixture parent tables are ever dispatched, whatever the
/// registry holds: every other table name, registered or not, resolves to
/// nothing, and the table read is the one the record's table names.
pub proof fn lemma_dispatch_only_fixture_tables(key: (Seq<char>, Seq<char>), registered: Seq<String>)
    ensures
        lookup_of(key, registered) is Some ==>
            key.0 == "e2e_history_source_a"@ || key.0 == "e2e_history_source_b"@,
        key.0 != "e2e_history_source_a"@ && key.0 != "e2e_history_source_b"@ ==>
            lookup_of(key, registered) is None,
        lookup_of(key, registered) matches Some((table, id)) ==> {
            &&& id == key.1
            &&& (table == FixtureTable::SourceA <==> key.0 == "e2e_history_source_a"@)
            &&& (table == FixtureTable::SourceB <==> key.0 == "e2e_history_source_b"@)
        },
{
    lemma_fixture_tables_distinct();
    assert(E2E_HISTORY_SOURCE_A_TABLE@ == "e2e_history_source_a"@);
    assert(E2E_HISTORY_SOURCE_B_TABLE@ == "e2e_history_source_b"@);
}

/// A record of the first fixture table is read from that table under its own
/// key as soon as the table occurs anywhere in the registry, whatever else the
/// registry holds and wherever the entry stands.
pub proof fn lemma_registered_first_table_is_dispatched(id: Seq<char>, registered: Seq<String>, i: int)
    requires
        0 <= i < registered.len(),
        registered[i]@ == "e2e_history_source_a"@,
    ensures
        lookup_of(("e2e_history_source_a"@, id), registered) == Some((FixtureTable::SourceA, id)),
{
    lemma_fixture_tables_distinct();
    assert(E2E_HISTORY_SOURCE_A_TABLE@ == "e2e_history_source_a"@);
    assert(is_registered("e2e_history_source_a"@, registered));
}

/// A record of the second fixture table is read from that table under its own
/// key as soon as the table occurs anywhere in the registry, whatever else the
/// registry holds and wherever the entry stands.
pub proof fn lemma_registered_second_table_is_dispatched(id: Seq<char>, registered: Seq<String>, i: int)
    requires
        0 <= i < registered.len(),
        registered[i]@ == "e2e_history_source_b"@,
    ensures
        lookup_of(("e2e_history_source_b"@, id), registered) == Some((FixtureTable::SourceB, id)),
{
    lemma_fixture_tables_distinct();
    assert(E2E_HISTORY_SOURCE_A_TABLE@ == "e2e_history_source_a"@);
    assert(E2E_HISTORY_SOURCE_B_TABLE@ == "e2e_history_source_b"@);
    assert(is_registered("e2e_history_source_b"@, registered));
}

} // verus!
