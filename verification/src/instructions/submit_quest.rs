//! Submission of a proof of completion.

use vstd::prelude::*;

use crate::errors::XploraError;
use crate::identity::Identity;
use crate::state::{
    slot_view, CatalogView, LocationQuests, ProfileView, QuestSubmission, SubmissionStatus,
    SubmissionView, UserProfile,
};
use crate::utils::{check_ipfs_hash, valid_ipfs_hash, valid_submission_description};

verus! {

/// The submission that a user makes at `now`: pending, undecided, without reward, and the
/// first attempt.
pub open spec fn new_submission(
    user: Seq<u8>,
    location: Seq<char>,
    quest_index: u8,
    ipfs_hash: Seq<char>,
    description: Seq<char>,
    now: i64,
) -> SubmissionView {
    SubmissionView {
        user,
        location,
        quest_index,
        ipfs_hash,
        description,
        submitted_at: now,
        status: SubmissionStatus::Pending,
        validator: None,
        validated_at: None,
        reward_amount: 0,
        attempt_number: 1,
    }
}

/// What a submission does: the new submission and the profile after it, or the error.
///
/// The errors, in the order in which they are looked for: `Unauthorized` unless the
/// profile is the user's own; `InvalidQuestIndex` if the catalog has no quest at the
/// index; `InvalidIpfsHash` and `InvalidDescription` for a proof or a description out of
/// its bound; `AlreadyInitialized` if the slot holds a submission already; `Overflow` if
/// the attempts cannot be counted one higher.
pub open spec fn submit_outcome(
    slot: Option<SubmissionView>,
    catalog: CatalogView,
    profile: ProfileView,
    user: Seq<u8>,
    location: Seq<char>,
    quest_index: u8,
    ipfs_hash: Seq<char>,
    description: Seq<char>,
    now: i64,
) -> Result<(SubmissionView, ProfileView), XploraError> {
    if profile.user != user {
        Err(XploraError::Unauthorized)
    } else if quest_index >= catalog.quests.len() {
        Err(XploraError::InvalidQuestIndex)
    } else if !valid_ipfs_hash(ipfs_hash) {
        Err(XploraError::InvalidIpfsHash)
    } else if !valid_submission_description(description) {
        Err(XploraError::InvalidDescription)
    } else if slot is Some {
        Err(XploraError::AlreadyInitialized)
    } else if profile.quests_attempted == u32::MAX {
        Err(XploraError::Overflow)
    } else {
        Ok(
            (
                new_submission(user, location, quest_index, ipfs_hash, description, now),
                ProfileView {
                    quests_attempted: (profile.quests_attempted + 1) as u32,
                    last_active: now,
                    ..profile
                },
            ),
        )
    }
}

/// What is announced when a submission has been made.
#[derive(Clone, Debug, PartialEq)]
pub struct QuestSubmissionEvent {
    pub user: Identity,
    pub location: String,
    pub quest_index: u8,
    pub ipfs_hash: String,
    pub timestamp: i64,
}

/// Records that `user` claims to have completed the quest at `quest_index` of `location`.
///
/// `slot` is the slot for the submissions of this user, location and quest: it holds at
/// most one submission, so a second one for the same three is refused. `catalog` is the
/// catalog of `location`, and `profile` the profile under which the user submits.
///
/// On success the slot holds the new, pending submission, the profile counts one attempt
/// more and was last active at `now`, and the event reports the submission. On an error
/// neither the slot nor the profile has changed.
pub fn submit_quest_completion(
    slot: &mut Option<QuestSubmission>,
    catalog: &LocationQuests,
    profile: &mut UserProfile,
    user: &Identity,
    location: String,
    quest_index: u8,
    ipfs_hash: String,
    description: String,
    now: i64,
) -> (submitted: Result<QuestSubmissionEvent, XploraError>)
    ensures
        match submit_outcome(
            slot_view(*old(slot)),
            catalog@,
            old(profile)@,
            user@,
            location@,
            quest_index,
            ipfs_hash@,
            description@,
            now,
        ) {
            Ok((created, counted)) => {
                &&& slot_view(*final(slot)) == Some(created)
                &&& final(profile)@ == counted
                &&& submitted matches Ok(event)
                &&& event.user@ == user@
                &&& event.location@ == location@
                &&& event.quest_index == quest_index
                &&& event.ipfs_hash@ == ipfs_hash@
                &&& event.timestamp == now
            },
            Err(error) => {
                &&& submitted == Err::<QuestSubmissionEvent, XploraError>(error)
                &&& *final(slot) == *old(slot)
                &&& *final(profile) == *old(profile)
            },
        },
{
    if !profile.user.same_as(user) {
        return Err(XploraError::Unauthorized);
    }
    if quest_index as usize >= catalog.quests.len() {
        return Err(XploraError::InvalidQuestIndex);
    }
    if !check_ipfs_hash(ipfs_hash.as_str()) {
        return Err(XploraError::InvalidIpfsHash);
    }
    if description.as_str().unicode_len() > QuestSubmission::MAX_DESCRIPTION_LEN {
        return Err(XploraError::InvalidDescription);
    }
    if slot.is_some() {
        return Err(XploraError::AlreadyInitialized);
    }
    let attempted = match profile.quests_attempted.checked_add(1) {
        Some(sum) => sum,
        None => {
            return Err(XploraError::Overflow);
        },
    };
    let event = QuestSubmissionEvent {
        user: *user,
        location: location.clone(),
        quest_index,
        ipfs_hash: ipfs_hash.clone(),
        timestamp: now,
    };
    *slot = Some(
        QuestSubmission {
            user: *user,
            location,
            quest_index,
            ipfs_hash,
            description,
            submitted_at: now,
            status: SubmissionStatus::Pending,
            validator: None,
            validated_at: None,
            reward_amount: 0,
            attempt_number: 1,
        },
    );
    profile.quests_attempted = attempted;
    profile.last_active = now;
    Ok(event)
}


/// A submission that has been made is pending and well formed, and its index points at a
/// quest of the catalog; the profile stays well formed, counts exactly one attempt more
/// and is otherwise as it was, but for the time of the last activity.
pub proof fn lemma_submission_is_pending(
    slot: Option<SubmissionView>,
    catalog: CatalogView,
    profile: ProfileView,
    user: Seq<u8>,
    location: Seq<char>,
    quest_index: u8,
    ipfs_hash: Seq<char>,
    description: Seq<char>,
    now: i64,
)
    requires
        submit_outcome(
            slot,
            catalog,
            profile,
            user,
            location,
            quest_index,
            ipfs_hash,
            description,
            now,
        ) is Ok,
    ensures
        ({
            let (created, counted) = submit_outcome(
                slot,
                catalog,
                profile,
                user,
                location,
                quest_index,
                ipfs_hash,
                description,
                now,
            )->Ok_0;
            &&& slot is None
            &&& created.status == SubmissionStatus::Pending
            &&& created.well_formed()
            &&& created.quest_index < catalog.quests.len()
            &&& valid_ipfs_hash(created.ipfs_hash)
            &&& valid_submission_description(created.description)
            &&& counted.quests_attempted == profile.quests_attempted + 1
            &&& counted == (ProfileView {
                quests_attempted: counted.quests_attempted,
                last_active: now,
                ..profile
            })
            &&& profile.well_formed() ==> counted.well_formed()
        }),
{
}

} // verus!
