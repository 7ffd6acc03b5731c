//! The reasons for which an operation of the ledger is refused.

use vstd::prelude::*;

verus! {

/// Why an operation was refused.
///
/// An operation that returns one of these has changed none of the records it was given.
#[derive(Clone, Copy, Debug, PartialEq, Eq, Structural)]
pub enum XploraError {
    /// A catalog was to be created without any quest.
    EmptyQuestsArray,
    /// A catalog would hold more quests than it has room for.
    TooManyQuests,
    /// No quest stands at the given index of the catalog.
    InvalidQuestIndex,
    /// The caller is not the identity that the operation is reserved for.
    Unauthorized,
    /// A quest title is empty or too long.
    InvalidTitle,
    /// A description, or the reason of a rejection, is empty or too long.
    InvalidDescription,
    /// The landmark to verify is empty or too long.
    InvalidLandmark,
    /// The name of the landmark is empty or too long.
    InvalidLandmarkName,
    /// The latitude lies outside the bounding box.
    InvalidLatitude,
    /// The longitude lies outside the bounding box.
    InvalidLongitude,
    /// A counter would have passed the largest value it can hold.
    Overflow,
    /// The catalog's slot is not the one derived from its location.
    InvalidLocationPDA,
    /// A catalog for this location has been created before.
    LocationAlreadyExists,
    /// No catalog is known for this location.
    LocationNotFound,
    /// The quest is not known.
    QuestNotFound,
    /// The quest type is not one of the known types.
    InvalidQuestType,
    /// The difficulty is not one of the known levels, or a quest's time to live is out of
    /// range.
    InvalidDifficulty,
    /// The record has not been created yet.
    NotInitialized,
    /// The record has been created before.
    AlreadyInitialized,
    /// The content address of the proof is too short or lacks its prefix.
    InvalidIpfsHash,
    /// The user has completed this quest before.
    QuestAlreadyCompleted,
    /// The user has used up the attempts at this quest.
    MaxAttemptsReached,
    /// The submission's status is not a known one.
    InvalidSubmissionStatus,
    /// The submission has been approved or rejected before.
    SubmissionNotPending,
    /// A profile for this user has been created before.
    ProfileAlreadyExists,
    /// No profile is known for this user.
    ProfileNotFound,
    /// The username is empty or too long.
    InvalidUsername,
    /// The reward vault holds too little.
    InsufficientVaultBalance,
    /// The location is empty or too long.
    InvalidLocation,
}

} // verus!
