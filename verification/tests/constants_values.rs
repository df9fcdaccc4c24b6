use record_history::constants::{
    e2e_record_history_empty_source, e2e_record_history_source, E2E_HISTORY_SOURCE_A_TABLE,
    E2E_HISTORY_SOURCE_B_TABLE, E2E_RECORD_HISTORY_ALT_KIND, E2E_RECORD_HISTORY_EMPTY_SOURCE_ID,
    E2E_RECORD_HISTORY_KIND, E2E_RECORD_HISTORY_ROW_COUNT, E2E_RECORD_HISTORY_SOURCE_ID,
    HISTORY_ACL_DENIED_MSG, HISTORY_AUTH_REQUIRED_MSG, HISTORY_SOURCE_TRAIT,
    RECORD_HISTORY_PAGE_SIZE,
};
use record_history::record_id::RecordId;

#[test]
fn page_size_and_row_count_values() {
    assert_eq!(RECORD_HISTORY_PAGE_SIZE, 25);
    assert_eq!(E2E_RECORD_HISTORY_ROW_COUNT, 35);
}

#[test]
fn message_values() {
    assert_eq!(HISTORY_ACL_DENIED_MSG, "Not authorized to view this history");
    assert_eq!(HISTORY_AUTH_REQUIRED_MSG, "Authentication required");
    assert_eq!(HISTORY_SOURCE_TRAIT, "HistorySource");
}

#[test]
fn fixture_kind_names() {
    assert_eq!(E2E_RECORD_HISTORY_KIND, "e2e_record_history_fixture");
    assert_eq!(E2E_RECORD_HISTORY_ALT_KIND, "e2e_record_history_fixture_alt");
    assert_ne!(E2E_RECORD_HISTORY_KIND, E2E_RECORD_HISTORY_ALT_KIND);
}

#[test]
fn seeded_source_is_in_first_fixture_table() {
    let r = e2e_record_history_source();
    assert_eq!(r.table(), "e2e_history_source_a");
    assert_eq!(r.table(), E2E_HISTORY_SOURCE_A_TABLE);
    assert_eq!(r.id(), "e2e-history-source-001");
    assert_eq!(r.id(), E2E_RECORD_HISTORY_SOURCE_ID);
}

#[test]
fn empty_source_is_in_second_fixture_table() {
    let r = e2e_record_history_empty_source();
    assert_eq!(r.table(), "e2e_history_source_b");
    assert_eq!(r.table(), E2E_HISTORY_SOURCE_B_TABLE);
    assert_eq!(r.id(), "e2e-history-empty");
    assert_eq!(r.id(), E2E_RECORD_HISTORY_EMPTY_SOURCE_ID);
    assert_ne!(r, e2e_record_history_source());
}

#[test]
fn record_id_keeps_table_and_id() {
    let r = RecordId::new("user", "rhl-named-actor");
    assert_eq!(r.table(), "user");
    assert_eq!(r.id(), "rhl-named-actor");
    assert_eq!(r, RecordId::new("user", "rhl-named-actor"));
    assert_ne!(r, RecordId::new("user", "rhl-ghost-actor-id"));
}
