//! The operations of the ledger.
//!
//! Each operation is given the records it works on, the identities involved and the
//! current time, and either succeeds and changes the records as its contract says, or
//! returns an error and leaves every record as it was.

pub mod add_quest;
pub mod approve_submission;
pub mod create_location;
pub mod delete_quest;
pub mod initialize;
pub mod initialize_profile;
pub mod reject_submission;
pub mod submit_quest;
pub mod update_quest;
