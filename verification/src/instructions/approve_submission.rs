//! Approval of a submission: the rewards, and what they do to the user's profile.

use vstd::prelude::*;

use crate::errors::XploraError;
use crate::identity::Identity;
use crate::instructions::reject_submission::reject_outcome;
use crate::state::constants::{BASE_TOKEN_REWARD, BASE_XP_REWARD, ONE_DAY_SECONDS, XP_PER_LEVEL};
use crate::state::{
    difficulty_tenths, level_of, tier_of, tier_tenths, CatalogView, Difficulty, LocationQuests,
    ProfileView, QuestRegistry, QuestSubmission, RankTier, RegistryView, SubmissionStatus,
    SubmissionView, UserProfile,
};

verus! {

// ---------------------------------------------------------------------------------------
// Rewards
// ---------------------------------------------------------------------------------------

/// Experience granted for a quest: the base, scaled by the difficulty and rounded down.
pub open spec fn xp_reward(difficulty: Difficulty) -> int {
    BASE_XP_REWARD * difficulty_tenths(difficulty) / 10
}

/// Tokens granted for a quest to a user of a tier: the base, scaled by the difficulty and
/// by the tier, and rounded down.
pub open spec fn token_reward(difficulty: Difficulty, tier: RankTier) -> int {
    BASE_TOKEN_REWARD * difficulty_tenths(difficulty) * tier_tenths(tier) / 100
}

/// Experience granted for a quest of the given difficulty.
pub fn xp_reward_for(difficulty: Difficulty) -> (xp: u64)
    ensures
        xp == xp_reward(difficulty),
{
    BASE_XP_REWARD * difficulty.multiplier() / 10
}

/// Tokens granted for a quest of the given difficulty to a user of the given tier.
pub fn token_reward_for(difficulty: Difficulty, tier: RankTier) -> (tokens: u64)
    ensures
        tokens == token_reward(difficulty, tier),
{
    let by_difficulty: u64 = BASE_TOKEN_REWARD * difficulty.multiplier();
    let by_tier: u64 = tier.token_multiplier();
    assert(by_difficulty * by_tier <= 2_000_000_000 * 20) by (nonlinear_arith)
        requires
            by_difficulty <= 2_000_000_000,
            by_tier <= 20,
    ;
    by_difficulty * by_tier / 100
}

/// The rewards, case by case.
pub proof fn lemma_reward_table()
    ensures
        xp_reward(Difficulty::Easy) == 100,
        xp_reward(Difficulty::Medium) == 150,
        xp_reward(Difficulty::Hard) == 200,
        token_reward(Difficulty::Easy, RankTier::Bronze) == 100_000_000,
        token_reward(Difficulty::Easy, RankTier::Silver) == 120_000_000,
        token_reward(Difficulty::Easy, RankTier::Gold) == 150_000_000,
        token_reward(Difficulty::Easy, RankTier::Platinum) == 200_000_000,
        token_reward(Difficulty::Medium, RankTier::Bronze) == 150_000_000,
        token_reward(Difficulty::Medium, RankTier::Silver) == 180_000_000,
        token_reward(Difficulty::Medium, RankTier::Gold) == 225_000_000,
        token_reward(Difficulty::Medium, RankTier::Platinum) == 300_000_000,
        token_reward(Difficulty::Hard, RankTier::Bronze) == 200_000_000,
        token_reward(Difficulty::Hard, RankTier::Silver) == 240_000_000,
        token_reward(Difficulty::Hard, RankTier::Gold) == 300_000_000,
        token_reward(Difficulty::Hard, RankTier::Platinum) == 400_000_000,
{
}

// ---------------------------------------------------------------------------------------
// Streaks
// ---------------------------------------------------------------------------------------

/// Whole days from `last` to `now`, rounded down.
pub open spec fn days_since(last: i64, now: i64) -> int {
    (now - last) / (ONE_DAY_SECONDS as int)
}

/// The current and the longest streak after an approval at `now`, the one before having
/// been at `last`: unchanged on the same day, one day more on the next day, and begun
/// anew at one after any other gap. `None` where the streak cannot be counted one higher.
pub open spec fn streak_outcome(current: u16, longest: u16, last: i64, now: i64) -> Option<
    (u16, u16),
> {
    let days = days_since(last, now);
    if days == 0 {
        Some((current, longest))
    } else if days == 1 {
        if current == u16::MAX {
            None
        } else if current + 1 > longest {
            Some(((current + 1) as u16, (current + 1) as u16))
        } else {
            Some(((current + 1) as u16, longest))
        }
    } else {
        Some((1u16, longest))
    }
}

/// Computes the current and the longest streak after an approval at `now`.
pub fn next_streak(current: u16, longest: u16, last: i64, now: i64) -> (next: Option<
    (u16, u16),
>)
    ensures
        next == streak_outcome(current, longest, last, now),
{
    let elapsed: i128 = now as i128 - last as i128;
    if 0 <= elapsed && elapsed < 86_400 {
        Some((current, longest))
    } else if 86_400 <= elapsed && elapsed < 172_800 {
        match current.checked_add(1) {
            None => None,
            Some(raised) => if raised > longest {
                Some((raised, raised))
            } else {
                Some((raised, longest))
            },
        }
    } else {
        Some((1, longest))
    }
}

/// Brings the streak of `profile` up to an approval at `now`, and sets the time of the
/// last approval to `now`.
///
/// Fails with `Overflow`, and changes nothing, where the streak cannot be counted one
/// higher.
pub fn update_streak(profile: &mut UserProfile, now: i64) -> (done: Result<(), XploraError>)
    ensures
        match streak_outcome(
            old(profile).current_streak,
            old(profile).longest_streak,
            old(profile).last_quest_date,
            now,
        ) {
            Some((current, longest)) => done is Ok && final(profile)@ == (ProfileView {
                current_streak: current,
                longest_streak: longest,
                last_quest_date: now,
                ..old(profile)@
            }),
            None => done == Err::<(), XploraError>(XploraError::Overflow) && *final(profile)
                == *old(profile),
        },
{
    match next_streak(profile.current_streak, profile.longest_streak, profile.last_quest_date, now)
    {
        None => Err(XploraError::Overflow),
        Some((current, longest)) => {
            profile.current_streak = current;
            profile.longest_streak = longest;
            profile.last_quest_date = now;
            Ok(())
        },
    }
}

/// The streak law: a second approval within 24 hours of the last leaves the streak as it
/// is; one that comes a full day but less than two days after it counts the streak one
/// higher, and lifts the longest streak to it if need be; one that comes two days or more
/// after it, or before it, begins the streak anew at one.
pub proof fn lemma_streak_law(current: u16, longest: u16, last: i64, now: i64)
    ensures
        0 <= now - last < 86_400 ==> streak_outcome(current, longest, last, now) == Some(
            (current, longest),
        ),
        86_400 <= now - last < 172_800 && current < u16::MAX ==> streak_outcome(
            current,
            longest,
            last,
            now,
        ) == Some(
            ((current + 1) as u16, if current + 1 > longest {
                (current + 1) as u16
            } else {
                longest
            }),
        ),
        86_400 <= now - last < 172_800 && current == u16::MAX ==> streak_outcome(
            current,
            longest,
            last,
            now,
        ) is None,
        now - last >= 172_800 || now - last < 0 ==> streak_outcome(current, longest, last, now)
            == Some((1u16, longest)),
{
}

// ---------------------------------------------------------------------------------------
// The profile after an approval
// ---------------------------------------------------------------------------------------

/// Whether an approval counts a new location: when it is the user's first, or when it
/// is for the first quest of a catalog. This is a coarse count, not a set of locations.
pub open spec fn counts_location(completed_before: u32, quest_index: u8) -> bool {
    completed_before == 0 || quest_index == 0
}

/// The profile after the approval of a quest of the given difficulty and index at `now`.
///
/// The tokens are scaled by the tier that the profile has before the approval. The level
/// is that of the new experience, and replaces the stored one, with its tier, only if it
/// is higher. `None` where a counter, the level or the streak would pass what its field
/// can hold.
pub open spec fn profile_after_approval(
    profile: ProfileView,
    difficulty: Difficulty,
    quest_index: u8,
    now: i64,
) -> Option<ProfileView> {
    let completed = profile.quests_completed + 1;
    let experience = profile.experience_points + xp_reward(difficulty);
    let tokens = profile.total_tokens_earned + token_reward(difficulty, profile.rank_tier);
    let level = level_of(experience);
    let streak = streak_outcome(
        profile.current_streak,
        profile.longest_streak,
        profile.last_quest_date,
        now,
    );
    let locations = if counts_location(profile.quests_completed, quest_index) {
        profile.unique_locations + 1
    } else {
        profile.unique_locations as int
    };
    match streak {
        None => None,
        Some((current, longest)) => if completed > u32::MAX || experience > u64::MAX || tokens
            > u64::MAX || level > u16::MAX || locations > u32::MAX {
            None
        } else {
            Some(
                ProfileView {
                    quests_completed: completed as u32,
                    experience_points: experience as u64,
                    total_tokens_earned: tokens as u64,
                    last_active: now,
                    level: if level > profile.level {
                        level as u16
                    } else {
                        profile.level
                    },
                    rank_tier: if level > profile.level {
                        tier_of(level)
                    } else {
                        profile.rank_tier
                    },
                    current_streak: current,
                    longest_streak: longest,
                    last_quest_date: now,
                    unique_locations: locations as u32,
                    ..profile
                },
            )
        },
    }
}

/// What an approval does: the submission and the profile after it, or the error.
///
/// The errors, in the order in which they are looked for: `Unauthorized` unless
/// `authority` is the registry's; `SubmissionNotPending` unless the submission is pending;
/// `InvalidQuestIndex` if the catalog has no quest at the submission's index, as after a
/// deletion; `Overflow` if the profile cannot take the rewards.
pub open spec fn approve_outcome(
    submission: SubmissionView,
    catalog: CatalogView,
    profile: ProfileView,
    registry: RegistryView,
    authority: Seq<u8>,
    validator: Seq<u8>,
    now: i64,
) -> Result<(SubmissionView, ProfileView), XploraError> {
    if registry.authority != authority {
        Err(XploraError::Unauthorized)
    } else if submission.status != SubmissionStatus::Pending {
        Err(XploraError::SubmissionNotPending)
    } else if submission.quest_index >= catalog.quests.len() {
        Err(XploraError::InvalidQuestIndex)
    } else {
        let difficulty = catalog.quests[submission.quest_index as int].difficulty;
        match profile_after_approval(profile, difficulty, submission.quest_index, now) {
            None => Err(XploraError::Overflow),
            Some(rewarded) => Ok(
                (
                    SubmissionView {
                        status: SubmissionStatus::Approved,
                        validator: Some(validator),
                        validated_at: Some(now),
                        reward_amount: token_reward(difficulty, profile.rank_tier) as u64,
                        ..submission
                    },
                    rewarded,
                ),
            ),
        }
    }
}

/// What is announced when a submission has been approved.
#[derive(Clone, Debug, PartialEq)]
pub struct QuestRewardEvent {
    pub user: Identity,
    pub location: String,
    pub quest_index: u8,
    pub xp_reward: u64,
    pub token_reward: u64,
    /// The level that the profile has after the approval.
    pub new_level: u16,
    pub timestamp: i64,
}

/// Approves a pending submission and credits the profile of its user.
///
/// `catalog` is the catalog of the submission's location and `profile` the profile of its
/// user. `authority` is the identity presented as the registry's authority, and is checked
/// against the registry; `validator` is the caller, and is recorded on the submission. The
/// validator is not required to be the authority: a caller for whom the two must be the
/// same compares them before the call.
///
/// On success the submission is `Approved` and holds the validator, the time and the
/// tokens granted, the profile is as [`profile_after_approval`] says, and the event
/// reports the rewards. On an error neither record has changed.
pub fn approve_submission(
    submission: &mut QuestSubmission,
    catalog: &LocationQuests,
    profile: &mut UserProfile,
    registry: &QuestRegistry,
    authority: &Identity,
    validator: &Identity,
    now: i64,
) -> (approved: Result<QuestRewardEvent, XploraError>)
    ensures
        match approve_outcome(
            old(submission)@,
            catalog@,
            old(profile)@,
            registry@,
            authority@,
            validator@,
            now,
        ) {
            Ok((decided, rewarded)) => {
                &&& final(submission)@ == decided
                &&& final(profile)@ == rewarded
                &&& approved matches Ok(event)
                &&& event.user@ == decided.user
                &&& event.location@ == decided.location
                &&& event.quest_index == decided.quest_index
                &&& event.xp_reward == xp_reward(
                    catalog@.quests[decided.quest_index as int].difficulty,
                )
                &&& event.token_reward == decided.reward_amount
                &&& event.new_level == rewarded.level
                &&& event.timestamp == now
            },
            Err(error) => {
                &&& approved == Err::<QuestRewardEvent, XploraError>(error)
                &&& *final(submission) == *old(submission)
                &&& *final(profile) == *old(profile)
            },
        },
{
    if !registry.authority.same_as(authority) {
        return Err(XploraError::Unauthorized);
    }
    match submission.status {
        SubmissionStatus::Pending => {},
        _ => {
            return Err(XploraError::SubmissionNotPending);
        },
    }
    let index = submission.quest_index as usize;
    if index >= catalog.quests.len() {
        return Err(XploraError::InvalidQuestIndex);
    }
    let difficulty = catalog.quests[index].difficulty;
    let xp = xp_reward_for(difficulty);
    let tokens = token_reward_for(difficulty, profile.rank_tier);

    let completed = match profile.quests_completed.checked_add(1) {
        Some(sum) => sum,
        None => {
            return Err(XploraError::Overflow);
        },
    };
    let experience = match profile.experience_points.checked_add(xp) {
        Some(sum) => sum,
        None => {
            return Err(XploraError::Overflow);
        },
    };
    let total_tokens = match profile.total_tokens_earned.checked_add(tokens) {
        Some(sum) => sum,
        None => {
            return Err(XploraError::Overflow);
        },
    };
    let reached = experience / XP_PER_LEVEL;
    if reached > 0xffff {
        return Err(XploraError::Overflow);
    }
    let level = reached as u16;
    let (current, longest) = match next_streak(
        profile.current_streak,
        profile.longest_streak,
        profile.last_quest_date,
        now,
    ) {
        Some(streak) => streak,
        None => {
            return Err(XploraError::Overflow);
        },
    };
    let locations = if completed == 1 || submission.quest_index == 0 {
        match profile.unique_locations.checked_add(1) {
            Some(sum) => sum,
            None => {
                return Err(XploraError::Overflow);
            },
        }
    } else {
        profile.unique_locations
    };

    submission.status = SubmissionStatus::Approved;
    submission.validator = Some(*validator);
    submission.validated_at = Some(now);
    submission.reward_amount = tokens;

    profile.quests_completed = completed;
    profile.experience_points = experience;
    profile.total_tokens_earned = total_tokens;
    profile.last_active = now;
    if level > profile.level {
        profile.level = level;
        profile.rank_tier = RankTier::from_level(level);
    }
    profile.current_streak = current;
    profile.longest_streak = longest;
    profile.last_quest_date = now;
    profile.unique_locations = locations;

    Ok(
        QuestRewardEvent {
            user: submission.user,
            location: submission.location.clone(),
            quest_index: submission.quest_index,
            xp_reward: xp,
            token_reward: tokens,
            new_level: profile.level,
            timestamp: now,
        },
    )
}


// ---------------------------------------------------------------------------------------
// What the approval amounts to
// ---------------------------------------------------------------------------------------

/// A submission that is not pending is never approved: the approval fails, with
/// `SubmissionNotPending` where the authority is the registry's.
pub proof fn lemma_approval_needs_pending(
    submission: SubmissionView,
    catalog: CatalogView,
    profile: ProfileView,
    registry: RegistryView,
    authority: Seq<u8>,
    validator: Seq<u8>,
    now: i64,
)
    requires
        submission.status != SubmissionStatus::Pending,
    ensures
        approve_outcome(submission, catalog, profile, registry, authority, validator, now) is Err,
        registry.authority == authority ==> approve_outcome(
            submission,
            catalog,
            profile,
            registry,
            authority,
            validator,
            now,
        ) == Err::<(SubmissionView, ProfileView), XploraError>(XploraError::SubmissionNotPending),
{
}

/// An approval is final: the approved submission holds the validator, the time and the
/// tokens, and every later approval or rejection of it fails, whoever asks and whenever.
pub proof fn lemma_approval_is_final(
    submission: SubmissionView,
    catalog: CatalogView,
    profile: ProfileView,
    registry: RegistryView,
    authority: Seq<u8>,
    validator: Seq<u8>,
    now: i64,
)
    requires
        approve_outcome(submission, catalog, profile, registry, authority, validator, now) is Ok,
    ensures
        ({
            let (decided, rewarded) = approve_outcome(
                submission,
                catalog,
                profile,
                registry,
                authority,
                validator,
                now,
            )->Ok_0;
            &&& submission.status == SubmissionStatus::Pending
            &&& decided.status == SubmissionStatus::Approved
            &&& decided.validator == Some(validator)
            &&& decided.validated_at == Some(now)
            &&& decided.well_formed()
            &&& forall|
                catalog2: CatalogView,
                profile2: ProfileView,
                registry2: RegistryView,
                authority2: Seq<u8>,
                validator2: Seq<u8>,
                later: i64,
            |
                (#[trigger] approve_outcome(
                    decided,
                    catalog2,
                    profile2,
                    registry2,
                    authority2,
                    validator2,
                    later,
                )) is Err
            &&& forall|
                registry2: RegistryView,
                authority2: Seq<u8>,
                validator2: Seq<u8>,
                reason: Seq<char>,
                later: i64,
            |
                (#[trigger] reject_outcome(
                    decided,
                    registry2,
                    authority2,
                    validator2,
                    reason,
                    later,
                )) is Err
        }),
{
}

/// An approval keeps a well-formed profile well formed: the level stays the one that the
/// experience makes, and the tier the one of the level. It adds exactly the rewards,
/// counts exactly one completion more, and never lowers the level.
pub proof fn lemma_approval_keeps_profile_well_formed(
    profile: ProfileView,
    difficulty: Difficulty,
    quest_index: u8,
    now: i64,
)
    requires
        profile.well_formed(),
        profile_after_approval(profile, difficulty, quest_index, now) is Some,
    ensures
        ({
            let rewarded = profile_after_approval(profile, difficulty, quest_index, now)->0;
            &&& rewarded.well_formed()
            &&& rewarded.user == profile.user
            &&& rewarded.quests_completed == profile.quests_completed + 1
            &&& rewarded.experience_points == profile.experience_points + xp_reward(difficulty)
            &&& rewarded.total_tokens_earned == profile.total_tokens_earned + token_reward(
                difficulty,
                profile.rank_tier,
            )
            &&& rewarded.level >= profile.level
            &&& rewarded.last_quest_date == now
            &&& rewarded.unique_locations == profile.unique_locations + (if counts_location(
                profile.quests_completed,
                quest_index,
            ) {
                1int
            } else {
                0int
            })
        }),
{
}

/// Where the longest streak is at least one and not below the current one, it is not
/// below the current one after an approval either.
///
/// For a profile without any streak yet this does not hold: its first approval begins a
/// streak of one and leaves the longest streak at zero.
pub proof fn lemma_longest_streak_stays_longest(
    profile: ProfileView,
    difficulty: Difficulty,
    quest_index: u8,
    now: i64,
)
    requires
        profile.current_streak <= profile.longest_streak,
        profile.longest_streak >= 1,
        profile_after_approval(profile, difficulty, quest_index, now) is Some,
    ensures
        ({
            let rewarded = profile_after_approval(profile, difficulty, quest_index, now)->0;
            &&& rewarded.current_streak <= rewarded.longest_streak
            &&& rewarded.longest_streak >= profile.longest_streak
        }),
{
}

/// The streak over two approvals in a row, the first at `first` and the second at
/// `second`: within 24 hours of the first the second leaves the streak as the first left
/// it; a full day but less than two days later it counts the streak one higher; two days
/// or more later it begins the streak anew at one.
pub proof fn lemma_streak_over_two_approvals(
    profile: ProfileView,
    difficulty1: Difficulty,
    index1: u8,
    first: i64,
    difficulty2: Difficulty,
    index2: u8,
    second: i64,
)
    requires
        profile_after_approval(profile, difficulty1, index1, first) is Some,
        profile_after_approval(
            profile_after_approval(profile, difficulty1, index1, first)->0,
            difficulty2,
            index2,
            second,
        ) is Some,
    ensures
        ({
            let once = profile_after_approval(profile, difficulty1, index1, first)->0;
            let twice = profile_after_approval(once, difficulty2, index2, second)->0;
            &&& 0 <= second - first < 86_400 ==> twice.current_streak == once.current_streak
                && twice.longest_streak == once.longest_streak
            &&& 86_400 <= second - first < 172_800 ==> twice.current_streak == once.current_streak
                + 1
            &&& second - first >= 172_800 ==> twice.current_streak == 1
        }),
{
}

/// A counter that stands at the largest value it can hold makes the approval fail with
/// `Overflow`, where nothing else stands against the approval.
pub proof fn lemma_full_counter_overflows(
    submission: SubmissionView,
    catalog: CatalogView,
    profile: ProfileView,
    registry: RegistryView,
    authority: Seq<u8>,
    validator: Seq<u8>,
    now: i64,
)
    requires
        registry.authority == authority,
        submission.status == SubmissionStatus::Pending,
        submission.quest_index < catalog.quests.len(),
        profile.quests_completed == u32::MAX || profile.experience_points == u64::MAX
            || profile.total_tokens_earned == u64::MAX || (profile.unique_locations == u32::MAX
            && submission.quest_index == 0) || (profile.current_streak == u16::MAX
            && days_since(profile.last_quest_date, now) == 1),
    ensures
        approve_outcome(submission, catalog, profile, registry, authority, validator, now)
            == Err::<(SubmissionView, ProfileView), XploraError>(XploraError::Overflow),
{
}

} // verus!
