//! A ledger of location quests: an authority publishes quests per location, users submit
//! proof of completion, a validator approves or rejects, and an approval credits the
//! user's profile with experience, tokens, levels, rank tiers and streaks.
//!
//! The library holds the records and the rules. It keeps no store and reads no clock: an
//! operation is handed the records it works on, the identities involved and the current
//! time in seconds, and hands back the records as they are afterwards. Where a record is
//! to be created, the operation is handed the slot for it, which is empty or holds the
//! record that was created there before.
//!
//! Every operation is all or nothing. Its contract states, over the views of the records
//! (see [`state`]), for each input either the records that result or the error, and that
//! with an error no record has changed. What follows from the contracts for all inputs
//! stands beside them as proof functions.

pub mod coordinates;
pub mod errors;
pub mod identity;
pub mod instructions;
pub mod state;
pub mod utils;

pub use errors::XploraError;
pub use identity::Identity;
pub use state::{
    constants, Difficulty, LocationQuests, Quest, QuestRegistry, QuestSubmission, QuestType,
    RankTier, SubmissionStatus, UserProfile,
};
