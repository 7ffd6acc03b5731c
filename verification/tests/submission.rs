use xplora_quests::instructions::approve_submission::{approve_submission, QuestRewardEvent};
use xplora_quests::instructions::delete_quest::delete_quest;
use xplora_quests::instructions::reject_submission::{reject_submission, QuestRejectionEvent};
use xplora_quests::instructions::submit_quest::{submit_quest_completion, QuestSubmissionEvent};
use xplora_quests::{
    Difficulty, Identity, LocationQuests, Quest, QuestRegistry, QuestSubmission, QuestType,
    RankTier, SubmissionStatus, UserProfile, XploraError,
};

const DAY: i64 = 86_400;
const NOW: i64 = 20 * DAY + 17;

fn authority() -> Identity {
    Identity::new([1; 32])
}

fn validator() -> Identity {
    Identity::new([5; 32])
}

fn user() -> Identity {
    Identity::new([2; 32])
}

fn stranger() -> Identity {
    Identity::new([66; 32])
}

fn registry() -> QuestRegistry {
    QuestRegistry { authority: authority(), total_locations: 1, version: 1 }
}

fn quest(difficulty: Difficulty) -> Quest {
    Quest {
        title: "Temple run".to_string(),
        description: "Reach the temple before noon".to_string(),
        quest_type: QuestType::Challenge,
        difficulty,
        time_to_live_hours: 48,
        verifiable_landmark: "The golden roof".to_string(),
        landmark_name: "Pashupatinath".to_string(),
        latitude: 27.7104f64.to_bits(),
        longitude: 85.3487f64.to_bits(),
        created_at: 5,
    }
}

fn catalog() -> LocationQuests {
    LocationQuests {
        location: "kathmandu".to_string(),
        quests: vec![
            quest(Difficulty::Easy),
            quest(Difficulty::Medium),
            quest(Difficulty::Hard),
        ],
        initialized: true,
        created_at: 100,
        updated_at: 100,
    }
}

fn profile() -> UserProfile {
    UserProfile {
        user: user(),
        username: "hero".to_string(),
        created_at: 1_000,
        last_active: 1_000,
        quests_completed: 3,
        quests_attempted: 5,
        experience_points: 420,
        level: 0,
        total_tokens_earned: 450_000_000,
        unique_locations: 1,
        current_streak: 4,
        longest_streak: 6,
        last_quest_date: 19 * DAY + 17,
        achievements: 9,
        rank_tier: RankTier::Bronze,
    }
}

fn proof_address() -> String {
    "QmYwAPJzv5CZsnA625s3Xf2nemtYgPpHdWEz79ojWnPbdG".to_string()
}

fn pending(quest_index: u8) -> QuestSubmission {
    QuestSubmission {
        user: user(),
        location: "kathmandu".to_string(),
        quest_index,
        ipfs_hash: proof_address(),
        description: "It was a long way up".to_string(),
        submitted_at: NOW - 50,
        status: SubmissionStatus::Pending,
        validator: None,
        validated_at: None,
        reward_amount: 0,
        attempt_number: 1,
    }
}

// ----- submitting -----

#[test]
fn submit_creates_a_pending_submission_and_counts_the_attempt() {
    let mut slot = None;
    let mut p = profile();
    let event = submit_quest_completion(
        &mut slot,
        &catalog(),
        &mut p,
        &user(),
        "kathmandu".to_string(),
        2,
        proof_address(),
        "It was a long way up".to_string(),
        NOW,
    );
    assert_eq!(
        event,
        Ok(QuestSubmissionEvent {
            user: user(),
            location: "kathmandu".to_string(),
            quest_index: 2,
            ipfs_hash: proof_address(),
            timestamp: NOW,
        })
    );
    assert_eq!(
        slot,
        Some(QuestSubmission {
            user: user(),
            location: "kathmandu".to_string(),
            quest_index: 2,
            ipfs_hash: proof_address(),
            description: "It was a long way up".to_string(),
            submitted_at: NOW,
            status: SubmissionStatus::Pending,
            validator: None,
            validated_at: None,
            reward_amount: 0,
            attempt_number: 1,
        })
    );
    let mut expected = profile();
    expected.quests_attempted = 6;
    expected.last_active = NOW;
    assert_eq!(p, expected);
}

#[test]
fn submit_accepts_an_empty_description_and_one_of_200_characters() {
    let mut slot = None;
    let mut p = profile();
    let result = submit_quest_completion(
        &mut slot,
        &catalog(),
        &mut p,
        &user(),
        "kathmandu".to_string(),
        0,
        proof_address(),
        String::new(),
        NOW,
    );
    assert!(result.is_ok());
    let mut slot = None;
    let result = submit_quest_completion(
        &mut slot,
        &catalog(),
        &mut p,
        &user(),
        "kathmandu".to_string(),
        0,
        proof_address(),
        "d".repeat(200),
        NOW,
    );
    assert!(result.is_ok());
    assert_eq!(p.quests_attempted, 7);
}

#[test]
fn submit_refuses_a_description_over_200_characters() {
    let mut slot = None;
    let mut p = profile();
    let result = submit_quest_completion(
        &mut slot,
        &catalog(),
        &mut p,
        &user(),
        "kathmandu".to_string(),
        0,
        proof_address(),
        "d".repeat(201),
        NOW,
    );
    assert_eq!(result, Err(XploraError::InvalidDescription));
    assert_eq!(slot, None);
    assert_eq!(p, profile());
}

#[test]
fn submit_refuses_an_index_without_a_quest() {
    let mut slot = None;
    let mut p = profile();
    let result = submit_quest_completion(
        &mut slot,
        &catalog(),
        &mut p,
        &user(),
        "kathmandu".to_string(),
        3,
        proof_address(),
        String::new(),
        NOW,
    );
    assert_eq!(result, Err(XploraError::InvalidQuestIndex));
    assert_eq!(slot, None);
    assert_eq!(p, profile());
}

#[test]
fn submit_refuses_a_proof_address_of_the_wrong_shape() {
    let mut slot = None;
    let mut p = profile();
    for bad in ["", "Qm", "QmYwAPJzv5CZsnA625s3Xf2nemtYgPpHdWEz79ojWnPbd",
        "QxYwAPJzv5CZsnA625s3Xf2nemtYgPpHdWEz79ojWnPbdG",
        "bafybeigdyrzt5sfp7udm7hu76uh7y26nf3efuylqabf3oclgtqy55fbzdi"]
    {
        let result = submit_quest_completion(
            &mut slot,
            &catalog(),
            &mut p,
            &user(),
            "kathmandu".to_string(),
            0,
            bad.to_string(),
            String::new(),
            NOW,
        );
        assert_eq!(result, Err(XploraError::InvalidIpfsHash), "{}", bad);
    }
    assert_eq!(slot, None);
    assert_eq!(p, profile());
}

#[test]
fn submit_is_reserved_for_the_owner_of_the_profile() {
    let mut slot = None;
    let mut p = profile();
    let result = submit_quest_completion(
        &mut slot,
        &catalog(),
        &mut p,
        &stranger(),
        "kathmandu".to_string(),
        0,
        proof_address(),
        String::new(),
        NOW,
    );
    assert_eq!(result, Err(XploraError::Unauthorized));
    assert_eq!(slot, None);
    assert_eq!(p, profile());
}

#[test]
fn submit_happens_once_per_user_location_and_quest() {
    let mut slot = Some(pending(0));
    let mut p = profile();
    let result = submit_quest_completion(
        &mut slot,
        &catalog(),
        &mut p,
        &user(),
        "kathmandu".to_string(),
        0,
        proof_address(),
        "again".to_string(),
        NOW,
    );
    assert_eq!(result, Err(XploraError::AlreadyInitialized));
    assert_eq!(slot, Some(pending(0)));
    assert_eq!(p, profile());
}

#[test]
fn submit_fails_when_the_attempts_cannot_be_counted_higher() {
    let mut slot = None;
    let mut p = profile();
    p.quests_attempted = u32::MAX;
    let before = p.clone();
    let result = submit_quest_completion(
        &mut slot,
        &catalog(),
        &mut p,
        &user(),
        "kathmandu".to_string(),
        0,
        proof_address(),
        String::new(),
        NOW,
    );
    assert_eq!(result, Err(XploraError::Overflow));
    assert_eq!(slot, None);
    assert_eq!(p, before);
}

// ----- approving -----

#[test]
fn medium_quest_for_a_bronze_profile() {
    let mut s = pending(1);
    let mut p = profile();
    let event =
        approve_submission(&mut s, &catalog(), &mut p, &registry(), &authority(), &validator(), NOW)
            .unwrap();
    assert_eq!(event.xp_reward, 150);
    assert_eq!(event.token_reward, 150_000_000);
    assert_eq!(s.reward_amount, 150_000_000);
}

#[test]
fn hard_quest_for_a_gold_profile() {
    let mut s = pending(2);
    let mut p = profile();
    p.experience_points = 13_000;
    p.level = 26;
    p.rank_tier = RankTier::Gold;
    let event =
        approve_submission(&mut s, &catalog(), &mut p, &registry(), &authority(), &validator(), NOW)
            .unwrap();
    assert_eq!(event.xp_reward, 200);
    assert_eq!(event.token_reward, 300_000_000);
    assert_eq!(s.reward_amount, 300_000_000);
    assert_eq!(p.experience_points, 13_200);
    assert_eq!(p.total_tokens_earned, 750_000_000);
}

#[test]
fn approve_marks_the_submission_and_credits_the_profile() {
    let mut s = pending(1);
    let mut p = profile();
    let event =
        approve_submission(&mut s, &catalog(), &mut p, &registry(), &authority(), &validator(), NOW);
    assert_eq!(
        event,
        Ok(QuestRewardEvent {
            user: user(),
            location: "kathmandu".to_string(),
            quest_index: 1,
            xp_reward: 150,
            token_reward: 150_000_000,
            new_level: 1,
            timestamp: NOW,
        })
    );
    let mut decided = pending(1);
    decided.status = SubmissionStatus::Approved;
    decided.validator = Some(validator());
    decided.validated_at = Some(NOW);
    decided.reward_amount = 150_000_000;
    assert_eq!(s, decided);

    let mut rewarded = profile();
    rewarded.quests_completed = 4;
    rewarded.experience_points = 570;
    rewarded.total_tokens_earned = 600_000_000;
    rewarded.last_active = NOW;
    rewarded.level = 1;
    rewarded.rank_tier = RankTier::Bronze;
    rewarded.current_streak = 5;
    rewarded.longest_streak = 6;
    rewarded.last_quest_date = NOW;
    rewarded.unique_locations = 1;
    assert_eq!(p, rewarded);
}

#[test]
fn approve_succeeds_once() {
    let mut s = pending(1);
    let mut p = profile();
    assert!(approve_submission(
        &mut s,
        &catalog(),
        &mut p,
        &registry(),
        &authority(),
        &validator(),
        NOW
    )
    .is_ok());
    let decided = s.clone();
    let rewarded = p.clone();
    let again = approve_submission(
        &mut s,
        &catalog(),
        &mut p,
        &registry(),
        &authority(),
        &validator(),
        NOW + 1,
    );
    assert_eq!(again, Err(XploraError::SubmissionNotPending));
    let rejected = reject_submission(
        &mut s,
        &registry(),
        &authority(),
        &validator(),
        "too late".to_string(),
        NOW + 2,
    );
    assert_eq!(rejected, Err(XploraError::SubmissionNotPending));
    assert_eq!(s, decided);
    assert_eq!(p, rewarded);
}

#[test]
fn approve_needs_the_authority_of_the_registry() {
    let mut s = pending(1);
    let mut p = profile();
    let result =
        approve_submission(&mut s, &catalog(), &mut p, &registry(), &stranger(), &validator(), NOW);
    assert_eq!(result, Err(XploraError::Unauthorized));
    let result =
        approve_submission(&mut s, &catalog(), &mut p, &registry(), &validator(), &authority(), NOW);
    assert_eq!(result, Err(XploraError::Unauthorized));
    assert_eq!(s, pending(1));
    assert_eq!(p, profile());
}

#[test]
fn approve_records_a_validator_other_than_the_authority() {
    let mut s = pending(0);
    let mut p = profile();
    assert!(approve_submission(
        &mut s,
        &catalog(),
        &mut p,
        &registry(),
        &authority(),
        &stranger(),
        NOW
    )
    .is_ok());
    assert_eq!(s.validator, Some(stranger()));
}

#[test]
fn approve_refuses_an_index_that_a_deletion_has_left_behind() {
    let mut cat = catalog();
    assert_eq!(delete_quest(&registry(), &mut cat, &authority(), 0, NOW - 10), Ok(()));
    let mut s = pending(2);
    let mut p = profile();
    let result =
        approve_submission(&mut s, &cat, &mut p, &registry(), &authority(), &validator(), NOW);
    assert_eq!(result, Err(XploraError::InvalidQuestIndex));
    assert_eq!(s, pending(2));
    assert_eq!(p, profile());

    let mut s = pending(1);
    let event =
        approve_submission(&mut s, &cat, &mut p, &registry(), &authority(), &validator(), NOW)
            .unwrap();
    assert_eq!(event.xp_reward, 200);
}

#[test]
fn approve_raises_level_and_tier_together() {
    let mut s = pending(2);
    let mut p = profile();
    p.experience_points = 5_400;
    p.level = 10;
    p.rank_tier = RankTier::Bronze;
    let event =
        approve_submission(&mut s, &catalog(), &mut p, &registry(), &authority(), &validator(), NOW)
            .unwrap();
    assert_eq!(p.experience_points, 5_600);
    assert_eq!(p.level, 11);
    assert_eq!(p.rank_tier, RankTier::Silver);
    assert_eq!(event.new_level, 11);
    assert_eq!(event.token_reward, 200_000_000);

    let mut s = pending(2);
    let event = approve_submission(
        &mut s,
        &catalog(),
        &mut p,
        &registry(),
        &authority(),
        &validator(),
        NOW + 1,
    )
    .unwrap();
    assert_eq!(event.token_reward, 240_000_000);
    assert_eq!(p.level, 11);
}

#[test]
fn approve_leaves_the_level_below_the_next_500() {
    let mut s = pending(0);
    let mut p = profile();
    p.experience_points = 399;
    let event =
        approve_submission(&mut s, &catalog(), &mut p, &registry(), &authority(), &validator(), NOW)
            .unwrap();
    assert_eq!(p.experience_points, 499);
    assert_eq!(p.level, 0);
    assert_eq!(event.new_level, 0);
    let mut s = pending(0);
    p.experience_points = 400;
    approve_submission(&mut s, &catalog(), &mut p, &registry(), &authority(), &validator(), NOW)
        .unwrap();
    assert_eq!(p.experience_points, 500);
    assert_eq!(p.level, 1);
}

#[test]
fn approve_never_lowers_a_stored_level() {
    let mut s = pending(0);
    let mut p = profile();
    p.level = 30;
    p.rank_tier = RankTier::Gold;
    let event =
        approve_submission(&mut s, &catalog(), &mut p, &registry(), &authority(), &validator(), NOW)
            .unwrap();
    assert_eq!(p.level, 30);
    assert_eq!(p.rank_tier, RankTier::Gold);
    assert_eq!(event.new_level, 30);
    assert_eq!(event.token_reward, 150_000_000);
}

#[test]
fn approve_counts_a_location_for_the_first_completion_or_the_first_quest() {
    let mut p = profile();
    let mut s = pending(1);
    approve_submission(&mut s, &catalog(), &mut p, &registry(), &authority(), &validator(), NOW)
        .unwrap();
    assert_eq!(p.unique_locations, 1);

    let mut s = pending(0);
    approve_submission(&mut s, &catalog(), &mut p, &registry(), &authority(), &validator(), NOW)
        .unwrap();
    assert_eq!(p.unique_locations, 2);

    let mut first = profile();
    first.quests_completed = 0;
    first.unique_locations = 0;
    let mut s = pending(2);
    approve_submission(&mut s, &catalog(), &mut first, &registry(), &authority(), &validator(), NOW)
        .unwrap();
    assert_eq!(first.quests_completed, 1);
    assert_eq!(first.unique_locations, 1);
}

#[test]
fn approve_keeps_the_streak_within_the_same_day() {
    let mut p = profile();
    p.last_quest_date = NOW - DAY + 1;
    let mut s = pending(1);
    approve_submission(&mut s, &catalog(), &mut p, &registry(), &authority(), &validator(), NOW)
        .unwrap();
    assert_eq!((p.current_streak, p.longest_streak, p.last_quest_date), (4, 6, NOW));
    let mut s = pending(1);
    approve_submission(
        &mut s,
        &catalog(),
        &mut p,
        &registry(),
        &authority(),
        &validator(),
        NOW + DAY - 1,
    )
    .unwrap();
    assert_eq!((p.current_streak, p.longest_streak), (4, 6));
    assert_eq!(p.last_quest_date, NOW + DAY - 1);
}

#[test]
fn approve_counts_the_streak_up_on_the_next_day() {
    let mut p = profile();
    p.last_quest_date = NOW - DAY;
    p.current_streak = 6;
    let mut s = pending(1);
    approve_submission(&mut s, &catalog(), &mut p, &registry(), &authority(), &validator(), NOW)
        .unwrap();
    assert_eq!((p.current_streak, p.longest_streak, p.last_quest_date), (7, 7, NOW));
}

#[test]
fn approve_begins_the_streak_anew_after_two_days() {
    let mut p = profile();
    p.last_quest_date = NOW - 2 * DAY;
    let mut s = pending(1);
    approve_submission(&mut s, &catalog(), &mut p, &registry(), &authority(), &validator(), NOW)
        .unwrap();
    assert_eq!((p.current_streak, p.longest_streak, p.last_quest_date), (1, 6, NOW));
}

#[test]
fn first_approval_of_a_new_profile_begins_a_streak_of_one() {
    let mut p = profile();
    p.quests_completed = 0;
    p.current_streak = 0;
    p.longest_streak = 0;
    p.last_quest_date = 0;
    let mut s = pending(1);
    approve_submission(&mut s, &catalog(), &mut p, &registry(), &authority(), &validator(), NOW)
        .unwrap();
    assert_eq!((p.current_streak, p.longest_streak), (1, 0));
}

#[test]
fn each_full_counter_stops_the_approval_and_leaves_everything_as_it_was() {
    let mut completed = profile();
    completed.quests_completed = u32::MAX;
    let mut experience = profile();
    experience.experience_points = u64::MAX;
    let mut nearly = profile();
    nearly.experience_points = u64::MAX - 149;
    let mut tokens = profile();
    tokens.total_tokens_earned = u64::MAX - 149_999_999;
    let mut locations = profile();
    locations.quests_completed = 0;
    locations.unique_locations = u32::MAX;
    let mut streak = profile();
    streak.current_streak = u16::MAX;
    streak.longest_streak = u16::MAX;
    streak.last_quest_date = NOW - DAY;
    let mut level = profile();
    level.experience_points = 500 * 65_536 - 100;
    level.level = u16::MAX;
    level.rank_tier = RankTier::Platinum;

    for full in [completed, experience, nearly, tokens, locations, streak, level] {
        let mut p = full.clone();
        let mut s = pending(1);
        let result = approve_submission(
            &mut s,
            &catalog(),
            &mut p,
            &registry(),
            &authority(),
            &validator(),
            NOW,
        );
        assert_eq!(result, Err(XploraError::Overflow));
        assert_eq!(s, pending(1));
        assert_eq!(p, full);
    }
}

#[test]
fn counters_just_below_their_maximum_still_take_the_rewards() {
    let mut p = profile();
    p.quests_completed = u32::MAX - 1;
    p.experience_points = 32_767_849;
    p.level = 65_535;
    p.rank_tier = RankTier::Platinum;
    p.total_tokens_earned = u64::MAX - 300_000_000;
    p.unique_locations = u32::MAX;
    p.current_streak = u16::MAX - 1;
    p.longest_streak = u16::MAX - 1;
    p.last_quest_date = NOW - DAY;
    let mut s = pending(1);
    let event =
        approve_submission(&mut s, &catalog(), &mut p, &registry(), &authority(), &validator(), NOW)
            .unwrap();
    assert_eq!(event.token_reward, 300_000_000);
    assert_eq!(p.quests_completed, u32::MAX);
    assert_eq!(p.experience_points, 32_767_999);
    assert_eq!(p.level, 65_535);
    assert_eq!(p.total_tokens_earned, u64::MAX);
    assert_eq!(p.unique_locations, u32::MAX);
    assert_eq!((p.current_streak, p.longest_streak), (u16::MAX, u16::MAX));
}

// ----- rejecting -----

#[test]
fn reject_marks_the_submission_and_reports_the_reason() {
    let mut s = pending(1);
    let event = reject_submission(
        &mut s,
        &registry(),
        &authority(),
        &validator(),
        "The photo shows another place".to_string(),
        NOW,
    );
    assert_eq!(
        event,
        Ok(QuestRejectionEvent {
            user: user(),
            location: "kathmandu".to_string(),
            quest_index: 1,
            reason: "The photo shows another place".to_string(),
            timestamp: NOW,
        })
    );
    let mut decided = pending(1);
    decided.status = SubmissionStatus::Rejected;
    decided.validator = Some(validator());
    decided.validated_at = Some(NOW);
    assert_eq!(s, decided);
}

#[test]
fn reject_succeeds_once() {
    let mut s = pending(1);
    assert!(reject_submission(
        &mut s,
        &registry(),
        &authority(),
        &validator(),
        "no".to_string(),
        NOW
    )
    .is_ok());
    let decided = s.clone();
    let again = reject_submission(
        &mut s,
        &registry(),
        &authority(),
        &validator(),
        "no".to_string(),
        NOW + 1,
    );
    assert_eq!(again, Err(XploraError::SubmissionNotPending));
    let mut p = profile();
    let approved = approve_submission(
        &mut s,
        &catalog(),
        &mut p,
        &registry(),
        &authority(),
        &validator(),
        NOW + 2,
    );
    assert_eq!(approved, Err(XploraError::SubmissionNotPending));
    assert_eq!(s, decided);
    assert_eq!(p, profile());
}

#[test]
fn reject_needs_a_reason_of_one_to_200_characters() {
    let mut s = pending(1);
    let result =
        reject_submission(&mut s, &registry(), &authority(), &validator(), String::new(), NOW);
    assert_eq!(result, Err(XploraError::InvalidDescription));
    let result =
        reject_submission(&mut s, &registry(), &authority(), &validator(), "r".repeat(201), NOW);
    assert_eq!(result, Err(XploraError::InvalidDescription));
    assert_eq!(s, pending(1));
    let result =
        reject_submission(&mut s, &registry(), &authority(), &validator(), "r".repeat(200), NOW);
    assert!(result.is_ok());
}

#[test]
fn reject_needs_the_authority_of_the_registry() {
    let mut s = pending(1);
    let result =
        reject_submission(&mut s, &registry(), &stranger(), &validator(), "no".to_string(), NOW);
    assert_eq!(result, Err(XploraError::Unauthorized));
    assert_eq!(s, pending(1));
}

#[test]
fn a_decided_submission_is_refused_before_its_reason_is_looked_at() {
    let mut s = pending(1);
    s.status = SubmissionStatus::Approved;
    let before = s.clone();
    let result =
        reject_submission(&mut s, &registry(), &authority(), &validator(), String::new(), NOW);
    assert_eq!(result, Err(XploraError::SubmissionNotPending));
    assert_eq!(s, before);
}
