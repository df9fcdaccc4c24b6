//! Record history: the record identifiers, shared constants and the
//! dispatch of a history source to its fixture table.

pub mod record_id;
pub mod constants;
pub mod source;
pub mod laws;
