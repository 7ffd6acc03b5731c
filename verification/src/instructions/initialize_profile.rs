//! Creation of a user's profile.

use vstd::prelude::*;

use crate::errors::XploraError;
use crate::identity::Identity;
use crate::state::{slot_view, ProfileView, RankTier, UserProfile};
use crate::utils::{text_within, valid_username};

verus! {

/// The profile as it is created at `now`: nothing completed or earned, level zero, the
/// lowest tier.
pub open spec fn new_profile(user: Seq<u8>, username: Seq<char>, now: i64) -> ProfileView {
    ProfileView {
        user,
        username,
        created_at: now,
        last_active: now,
        quests_completed: 0,
        quests_attempted: 0,
        experience_points: 0,
        level: 0,
        total_tokens_earned: 0,
        unique_locations: 0,
        current_streak: 0,
        longest_streak: 0,
        last_quest_date: 0,
        achievements: 0,
        rank_tier: RankTier::Bronze,
    }
}

/// What the creation of a profile does: the new profile, or the error.
///
/// The errors, in the order in which they are looked for: `InvalidUsername` for a
/// username that is empty or longer than 32 characters; `ProfileAlreadyExists` if the slot
/// holds a profile already.
pub open spec fn initialize_profile_outcome(
    slot: Option<ProfileView>,
    user: Seq<u8>,
    username: Seq<char>,
    now: i64,
) -> Result<ProfileView, XploraError> {
    if !valid_username(username) {
        Err(XploraError::InvalidUsername)
    } else if slot is Some {
        Err(XploraError::ProfileAlreadyExists)
    } else {
        Ok(new_profile(user, username, now))
    }
}

/// What is announced when a profile has been created.
#[derive(Clone, Debug, PartialEq)]
pub struct ProfileCreatedEvent {
    pub user: Identity,
    pub username: String,
    pub timestamp: i64,
}

/// Creates the profile of `user`.
///
/// `slot` is the slot for this user's profile: a user has one profile, created once. On
/// success the slot holds the new profile and the event reports it. On an error the slot
/// has not changed.
pub fn initialize_user_profile(
    slot: &mut Option<UserProfile>,
    user: Identity,
    username: String,
    now: i64,
) -> (created: Result<ProfileCreatedEvent, XploraError>)
    ensures
        match initialize_profile_outcome(slot_view(*old(slot)), user@, username@, now) {
            Ok(profile) => {
                &&& slot_view(*final(slot)) == Some(profile)
                &&& created matches Ok(event)
                &&& event.user@ == user@
                &&& event.username@ == username@
                &&& event.timestamp == now
            },
            Err(error) => {
                &&& created == Err::<ProfileCreatedEvent, XploraError>(error)
                &&& *final(slot) == *old(slot)
            },
        },
{
    if !text_within(username.as_str(), UserProfile::MAX_USERNAME_LEN) {
        return Err(XploraError::InvalidUsername);
    }
    if slot.is_some() {
        return Err(XploraError::ProfileAlreadyExists);
    }
    let event = ProfileCreatedEvent { user, username: username.clone(), timestamp: now };
    *slot = Some(
        UserProfile {
            user,
            username,
            created_at: now,
            last_active: now,
            quests_completed: 0,
            quests_attempted: 0,
            experience_points: 0,
            level: 0,
            total_tokens_earned: 0,
            unique_locations: 0,
            current_streak: 0,
            longest_streak: 0,
            last_quest_date: 0,
            achievements: 0,
            rank_tier: RankTier::Bronze,
        },
    );
    Ok(event)
}

/// A new profile is well formed.
pub proof fn lemma_new_profile_well_formed(user: Seq<u8>, username: Seq<char>, now: i64)
    requires
        valid_username(username),
    ensures
        new_profile(user, username, now).well_formed(),
{
}

} // verus!
