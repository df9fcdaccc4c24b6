//! Shared constants for timeline paging, access messages and the E2E fixtures.

use vstd::prelude::*;

use crate::record_id::RecordId;

verus! {

/// Page size for timeline infinite scroll (server and client).
pub const RECORD_HISTORY_PAGE_SIZE: u32 = 25;

/// Domain-level denial message when the request actor cannot read the
/// `HistorySource` parent record.
pub const HISTORY_ACCESS_DENIED: &'static str = "Not authorized to view this history";

/// Client-visible denial message when the request actor cannot read the
/// `HistorySource` parent record. Must stay byte-identical to
/// [`HISTORY_ACCESS_DENIED`]: clients classify a server error as an access
/// denial purely by comparing its message with this text.
pub const HISTORY_ACL_DENIED_MSG: &'static str = "Not authorized to view this history";

/// Client-visible message when the timeline page request has no session.
pub const HISTORY_AUTH_REQUIRED_MSG: &'static str = "Authentication required";

/// Name of the trait whose registered implementor tables may be history sources.
pub const HISTORY_SOURCE_TRAIT: &'static str = "HistorySource";

/// Table of the first platform fixture parent.
pub const E2E_HISTORY_SOURCE_A_TABLE: &'static str = "e2e_history_source_a";

/// Table of the second platform fixture parent.
pub const E2E_HISTORY_SOURCE_B_TABLE: &'static str = "e2e_history_source_b";

/// Bare primary key of the platform E2E fixture parent (in the first fixture table).
pub const E2E_RECORD_HISTORY_SOURCE_ID: &'static str = "e2e-history-source-001";

/// Bare primary key of the empty-state preview parent (no history rows).
pub const E2E_RECORD_HISTORY_EMPTY_SOURCE_ID: &'static str = "e2e-history-empty";

/// Table name of the E2E fixture implementor.
pub const E2E_RECORD_HISTORY_KIND: &'static str = "e2e_record_history_fixture";

/// Table name of the second E2E fixture implementor, which shows that
/// history renderers dispatch by table name across more than one kind.
pub const E2E_RECORD_HISTORY_ALT_KIND: &'static str = "e2e_record_history_fixture_alt";

/// Number of rows inserted by the timeline fixture.
pub const E2E_RECORD_HISTORY_ROW_COUNT: u32 = 35;

/// `RecordId` of the seeded timeline parent, in the first fixture table.
pub fn e2e_record_history_source() -> (r: RecordId)
    ensures
        r@ == (E2E_HISTORY_SOURCE_A_TABLE@, E2E_RECORD_HISTORY_SOURCE_ID@),
{
    RecordId::new(E2E_HISTORY_SOURCE_A_TABLE, E2E_RECORD_HISTORY_SOURCE_ID)
}

/// `RecordId` of the empty-state preview parent, in the second fixture table.
pub fn e2e_record_history_empty_source() -> (r: RecordId)
    ensures
        r@ == (E2E_HISTORY_SOURCE_B_TABLE@, E2E_RECORD_HISTORY_EMPTY_SOURCE_ID@),
{
    RecordId::new(E2E_HISTORY_SOURCE_B_TABLE, E2E_RECORD_HISTORY_EMPTY_SOURCE_ID)
}

} // verus!
