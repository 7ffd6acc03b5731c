//! The records of the ledger and their mathematical views.
//!
//! Every record has a view in which a string is the sequence of its characters, an
//! identity the sequence of its bytes and a vector the sequence of its elements' views.
//! The contracts of the operations are stated over these views.

use vstd::prelude::*;

use crate::identity::Identity;
use crate::utils::{valid_location, valid_quest, valid_username};

pub mod constants;

verus! {

/// View of a storage slot: of the record in it, where it holds one.
pub open spec fn slot_view<T: View>(slot: Option<T>) -> Option<T::V> {
    match slot {
        Some(record) => Some(record@),
        None => None,
    }
}

// ---------------------------------------------------------------------------------------
// Registry
// ---------------------------------------------------------------------------------------

/// The one registry of the ledger: who may manage it, and how many locations it has.
#[derive(Clone, Copy, Debug, PartialEq, Eq)]
pub struct QuestRegistry {
    /// The identity that may manage catalogs and validate submissions.
    pub authority: Identity,
    /// Number of locations with a catalog. It never decreases.
    pub total_locations: u64,
    /// Version of the rules under which the registry was created.
    pub version: u8,
}

/// View of a [`QuestRegistry`].
pub struct RegistryView {
    pub authority: Seq<u8>,
    pub total_locations: u64,
    pub version: u8,
}

impl View for QuestRegistry {
    type V = RegistryView;

    open spec fn view(&self) -> RegistryView {
        RegistryView {
            authority: self.authority@,
            total_locations: self.total_locations,
            version: self.version,
        }
    }
}

impl QuestRegistry {
    /// Bytes that the store reserves for the registry: a tag of eight bytes, the
    /// authority, the counter, the version and seven spare bytes.
    pub const LEN: usize = 8 + 32 + 8 + 1 + 7;
}

// ---------------------------------------------------------------------------------------
// Quests
// ---------------------------------------------------------------------------------------

/// What a quest asks for.
#[derive(Clone, Copy, Debug, PartialEq, Eq, Structural)]
pub enum QuestType {
    /// Find a given thing or place.
    Discovery,
    /// Explore an area.
    Exploration,
    /// Complete a task.
    Challenge,
}

/// How hard a quest is.
#[derive(Clone, Copy, Debug, PartialEq, Eq, Structural)]
pub enum Difficulty {
    Easy,
    Medium,
    Hard,
}

/// One quest of a location.
///
/// `latitude` and `longitude` are degrees, held as the bits of their binary64 encoding
/// (`f64::to_bits`). The field rules compare the bits, which decides exactly what the
/// comparison of the numbers would: see [`crate::coordinates`].
#[derive(Clone, Debug, PartialEq)]
pub struct Quest {
    pub title: String,
    pub description: String,
    pub quest_type: QuestType,
    pub difficulty: Difficulty,
    /// Hours for which the quest stays open.
    pub time_to_live_hours: u16,
    /// What a player has to show.
    pub verifiable_landmark: String,
    pub landmark_name: String,
    pub latitude: u64,
    pub longitude: u64,
    /// When the quest entered its catalog. An update of the quest keeps it.
    pub created_at: i64,
}

/// View of a [`Quest`].
pub struct QuestView {
    pub title: Seq<char>,
    pub description: Seq<char>,
    pub quest_type: QuestType,
    pub difficulty: Difficulty,
    pub time_to_live_hours: u16,
    pub verifiable_landmark: Seq<char>,
    pub landmark_name: Seq<char>,
    pub latitude: u64,
    pub longitude: u64,
    pub created_at: i64,
}

impl View for Quest {
    type V = QuestView;

    open spec fn view(&self) -> QuestView {
        QuestView {
            title: self.title@,
            description: self.description@,
            quest_type: self.quest_type,
            difficulty: self.difficulty,
            time_to_live_hours: self.time_to_live_hours,
            verifiable_landmark: self.verifiable_landmark@,
            landmark_name: self.landmark_name@,
            latitude: self.latitude,
            longitude: self.longitude,
            created_at: self.created_at,
        }
    }
}

impl Quest {
    /// Most characters of a title.
    pub const MAX_TITLE_LEN: usize = 32;

    /// Most characters of a description.
    pub const MAX_DESCRIPTION_LEN: usize = 128;

    /// Most characters of the landmark to verify.
    pub const MAX_LANDMARK_LEN: usize = 64;

    /// Most characters of a landmark's name.
    pub const MAX_LANDMARK_NAME_LEN: usize = 32;

    /// Bytes that the store reserves for one quest; see [`Quest::max_size`].
    pub open spec fn spec_max_size() -> nat {
        (4 + 32)  // title
         + (4 + 128)  // description
         + 1  // quest type
         + 1  // difficulty
         + 2  // time to live
         + (4 + 64)  // landmark to verify
         + (4 + 32)  // landmark name
         + 8  // latitude
         + 8  // longitude
         + 8  // creation time
         + 4  // spare
    }

    /// Bytes that the store reserves for one quest: each field at its fixed width and each
    /// string with a length of four bytes and one byte for each character it may have,
    /// then four spare bytes.
    pub fn max_size() -> (n: usize)
        ensures
            n == Self::spec_max_size(),
            n == 304,
    {
        4 + Self::MAX_TITLE_LEN + 4 + Self::MAX_DESCRIPTION_LEN + 1 + 1 + 2 + 4
            + Self::MAX_LANDMARK_LEN + 4 + Self::MAX_LANDMARK_NAME_LEN + 8 + 8 + 8 + 4
    }
}

/// The views of the quests of a vector, in order.
pub open spec fn quest_views(quests: Seq<Quest>) -> Seq<QuestView> {
    Seq::new(quests.len(), |i: int| quests[i]@)
}

// ---------------------------------------------------------------------------------------
// Catalogs
// ---------------------------------------------------------------------------------------

/// The catalog of one location: its quests, in the order in which submissions refer to
/// them.
#[derive(Clone, Debug, PartialEq)]
pub struct LocationQuests {
    pub location: String,
    pub quests: Vec<Quest>,
    /// Whether the catalog has been created. Quests are added, updated and deleted only
    /// in a created catalog.
    pub initialized: bool,
    pub created_at: i64,
    pub updated_at: i64,
}

/// View of a [`LocationQuests`].
pub struct CatalogView {
    pub location: Seq<char>,
    pub quests: Seq<QuestView>,
    pub initialized: bool,
    pub created_at: i64,
    pub updated_at: i64,
}

impl View for LocationQuests {
    type V = CatalogView;

    open spec fn view(&self) -> CatalogView {
        CatalogView {
            location: self.location@,
            quests: quest_views(self.quests@),
            initialized: self.initialized,
            created_at: self.created_at,
            updated_at: self.updated_at,
        }
    }
}

impl CatalogView {
    /// What holds of every catalog that the operations have made: a valid location, no
    /// more quests than a location can hold, and every quest within its bounds.
    pub open spec fn well_formed(self) -> bool {
        &&& valid_location(self.location)
        &&& self.quests.len() <= constants::MAX_QUESTS_PER_LOCATION
        &&& forall|i: int| 0 <= i < self.quests.len() ==> valid_quest(#[trigger] self.quests[i])
    }
}

impl LocationQuests {
    /// Most quests of one location.
    pub const MAX_QUESTS: usize = 10;

    /// Most characters of a location.
    pub const MAX_LOCATION_LEN: usize = 64;

    /// Bytes that the store reserves for a catalog; see [`LocationQuests::space`].
    pub open spec fn spec_space() -> nat {
        8  // tag
         + (4 + 64)  // location
         + (4 + 10 * Quest::spec_max_size())  // quests
         + 1  // initialized
         + 8  // creation time
         + 8  // time of the last change
         + 6  // spare
    }

    /// Bytes that the store reserves for a catalog: a tag of eight bytes, the location,
    /// room for the most quests that a location can hold, the flag, the two times and six
    /// spare bytes.
    pub fn space() -> (n: usize)
        ensures
            n == Self::spec_space(),
            n == 3143,
    {
        8 + 4 + Self::MAX_LOCATION_LEN + 4 + (Self::MAX_QUESTS * Quest::max_size()) + 1 + 8 + 8
            + 6
    }
}

// ---------------------------------------------------------------------------------------
// Submissions
// ---------------------------------------------------------------------------------------

/// Where a submission stands. It starts as `Pending` and moves once, to `Approved` or to
/// `Rejected`, and never back.
#[derive(Clone, Copy, Debug, PartialEq, Eq, Structural)]
pub enum SubmissionStatus {
    Pending,
    Approved,
    Rejected,
}

/// A user's proof of having completed one quest.
#[derive(Clone, Debug, PartialEq)]
pub struct QuestSubmission {
    pub user: Identity,
    pub location: String,
    /// Index of the quest in the catalog of `location`.
    pub quest_index: u8,
    /// Content address of the submitted photo.
    pub ipfs_hash: String,
    pub description: String,
    pub submitted_at: i64,
    pub status: SubmissionStatus,
    /// Who approved or rejected the submission, once that has happened.
    pub validator: Option<Identity>,
    /// When the submission was approved or rejected.
    pub validated_at: Option<i64>,
    /// Tokens granted by the approval; zero otherwise.
    pub reward_amount: u64,
    pub attempt_number: u8,
}

/// View of a [`QuestSubmission`].
pub struct SubmissionView {
    pub user: Seq<u8>,
    pub location: Seq<char>,
    pub quest_index: u8,
    pub ipfs_hash: Seq<char>,
    pub description: Seq<char>,
    pub submitted_at: i64,
    pub status: SubmissionStatus,
    pub validator: Option<Seq<u8>>,
    pub validated_at: Option<i64>,
    pub reward_amount: u64,
    pub attempt_number: u8,
}

/// View of an identity that may be absent.
pub open spec fn identity_view(id: Option<Identity>) -> Option<Seq<u8>> {
    match id {
        Some(i) => Some(i@),
        None => None,
    }
}

impl View for QuestSubmission {
    type V = SubmissionView;

    open spec fn view(&self) -> SubmissionView {
        SubmissionView {
            user: self.user@,
            location: self.location@,
            quest_index: self.quest_index,
            ipfs_hash: self.ipfs_hash@,
            description: self.description@,
            submitted_at: self.submitted_at,
            status: self.status,
            validator: identity_view(self.validator),
            validated_at: self.validated_at,
            reward_amount: self.reward_amount,
            attempt_number: self.attempt_number,
        }
    }
}

impl SubmissionView {
    /// What holds of every submission that the operations have made: a pending one has
    /// no validator, no validation time and no reward; a decided one has a validator and a
    /// validation time; a rejected one has no reward.
    pub open spec fn well_formed(self) -> bool {
        &&& self.status == SubmissionStatus::Pending ==> self.validator is None
            && self.validated_at is None && self.reward_amount == 0
        &&& self.status != SubmissionStatus::Pending ==> self.validator is Some
            && self.validated_at is Some
        &&& self.status == SubmissionStatus::Rejected ==> self.reward_amount == 0
    }
}

impl QuestSubmission {
    /// Most bytes of the content address of a proof that the store has room for.
    pub const MAX_IPFS_HASH_LEN: usize = 64;

    /// Most characters of a submission's description.
    pub const MAX_DESCRIPTION_LEN: usize = 200;

    /// Bytes that the store reserves for a submission; see [`QuestSubmission::space`].
    pub open spec fn spec_space() -> nat {
        8  // tag
         + 32  // user
         + (4 + 64)  // location
         + 1  // quest index
         + (4 + 64)  // content address
         + (4 + 200)  // description
         + 8  // submission time
         + 1  // status
         + (1 + 32)  // validator, if any
         + (1 + 8)  // validation time, if any
         + 8  // reward
         + 1  // attempt
         + 1  // spare
    }

    /// Bytes that the store reserves for a submission: a tag of eight bytes, each field at
    /// its fixed width, each string with a length of four bytes and its room, each
    /// optional field with one byte more, and one spare byte.
    pub fn space() -> (n: usize)
        ensures
            n == Self::spec_space(),
            n == 442,
    {
        8 + 32 + 4 + 64 + 1 + 4 + Self::MAX_IPFS_HASH_LEN + 4 + Self::MAX_DESCRIPTION_LEN + 8 + 1
            + 1 + 32 + 1 + 8 + 8 + 1 + 1
    }
}

// ---------------------------------------------------------------------------------------
// Profiles
// ---------------------------------------------------------------------------------------

/// The bracket of levels that a user has reached. It scales the tokens of an approval.
#[derive(Clone, Copy, Debug, PartialEq, Eq, Structural)]
pub enum RankTier {
    /// Levels 0 to 10.
    Bronze,
    /// Levels 11 to 25.
    Silver,
    /// Levels 26 to 50.
    Gold,
    /// Levels 51 and above.
    Platinum,
}

/// The tier of a level.
pub open spec fn tier_of(level: int) -> RankTier {
    if level <= 10 {
        RankTier::Bronze
    } else if level <= 25 {
        RankTier::Silver
    } else if level <= 50 {
        RankTier::Gold
    } else {
        RankTier::Platinum
    }
}

/// The factor by which a tier scales a token reward, in tenths.
pub open spec fn tier_tenths(tier: RankTier) -> int {
    match tier {
        RankTier::Bronze => 10,
        RankTier::Silver => 12,
        RankTier::Gold => 15,
        RankTier::Platinum => 20,
    }
}

/// The factor by which a difficulty scales a reward, in tenths.
pub open spec fn difficulty_tenths(difficulty: Difficulty) -> int {
    match difficulty {
        Difficulty::Easy => 10,
        Difficulty::Medium => 15,
        Difficulty::Hard => 20,
    }
}

/// The level that `experience_points` make: one for every full 500 points.
pub open spec fn level_of(experience_points: int) -> int {
    experience_points / 500
}

impl RankTier {
    /// The tier of `level`.
    pub fn from_level(level: u16) -> (tier: RankTier)
        ensures
            tier == tier_of(level as int),
    {
        if level <= 10 {
            RankTier::Bronze
        } else if level <= 25 {
            RankTier::Silver
        } else if level <= 50 {
            RankTier::Gold
        } else {
            RankTier::Platinum
        }
    }

    /// The factor by which the tier scales a token reward, in tenths: 10 for 1.0, 12 for
    /// 1.2, 15 for 1.5 and 20 for 2.0.
    pub fn token_multiplier(&self) -> (tenths: u64)
        ensures
            tenths == tier_tenths(*self),
    {
        match self {
            RankTier::Bronze => 10,
            RankTier::Silver => 12,
            RankTier::Gold => 15,
            RankTier::Platinum => 20,
        }
    }
}

impl Difficulty {
    /// The factor by which the difficulty scales a reward, in tenths: 10 for 1.0, 15 for
    /// 1.5 and 20 for 2.0.
    pub fn multiplier(&self) -> (tenths: u64)
        ensures
            tenths == difficulty_tenths(*self),
    {
        match self {
            Difficulty::Easy => constants::DIFFICULTY_MULTIPLIER_EASY,
            Difficulty::Medium => constants::DIFFICULTY_MULTIPLIER_MEDIUM,
            Difficulty::Hard => constants::DIFFICULTY_MULTIPLIER_HARD,
        }
    }
}

/// What a user has achieved.
#[derive(Clone, Debug, PartialEq)]
pub struct UserProfile {
    pub user: Identity,
    pub username: String,
    pub created_at: i64,
    pub last_active: i64,
    pub quests_completed: u32,
    pub quests_attempted: u32,
    pub experience_points: u64,
    pub level: u16,
    pub total_tokens_earned: u64,
    /// Locations visited, counted coarsely: an approval counts one when it is the user's
    /// first or when it is for the first quest of a catalog.
    pub unique_locations: u32,
    /// Days in a row with an approved quest.
    pub current_streak: u16,
    pub longest_streak: u16,
    /// Time of the last approval, from which the streak is counted.
    pub last_quest_date: i64,
    /// One bit for each of 128 achievements.
    pub achievements: u128,
    pub rank_tier: RankTier,
}

/// View of a [`UserProfile`].
pub struct ProfileView {
    pub user: Seq<u8>,
    pub username: Seq<char>,
    pub created_at: i64,
    pub last_active: i64,
    pub quests_completed: u32,
    pub quests_attempted: u32,
    pub experience_points: u64,
    pub level: u16,
    pub total_tokens_earned: u64,
    pub unique_locations: u32,
    pub current_streak: u16,
    pub longest_streak: u16,
    pub last_quest_date: i64,
    pub achievements: u128,
    pub rank_tier: RankTier,
}

impl View for UserProfile {
    type V = ProfileView;

    open spec fn view(&self) -> ProfileView {
        ProfileView {
            user: self.user@,
            username: self.username@,
            created_at: self.created_at,
            last_active: self.last_active,
            quests_completed: self.quests_completed,
            quests_attempted: self.quests_attempted,
            experience_points: self.experience_points,
            level: self.level,
            total_tokens_earned: self.total_tokens_earned,
            unique_locations: self.unique_locations,
            current_streak: self.current_streak,
            longest_streak: self.longest_streak,
            last_quest_date: self.last_quest_date,
            achievements: self.achievements,
            rank_tier: self.rank_tier,
        }
    }
}

impl ProfileView {
    /// What holds of every profile that the operations have made: a valid username, the
    /// level that the experience makes, and the tier of that level.
    pub open spec fn well_formed(self) -> bool {
        &&& valid_username(self.username)
        &&& self.level == level_of(self.experience_points as int)
        &&& self.rank_tier == tier_of(self.level as int)
    }
}

impl UserProfile {
    /// Most characters of a username.
    pub const MAX_USERNAME_LEN: usize = 32;

    /// Bytes that the store reserves for a profile; see [`UserProfile::space`].
    pub open spec fn spec_space() -> nat {
        8  // tag
         + 32  // user
         + (4 + 32)  // username
         + 8  // creation time
         + 8  // time of the last activity
         + 4  // quests completed
         + 4  // quests attempted
         + 8  // experience
         + 2  // level
         + 8  // tokens
         + 4  // locations
         + 2  // current streak
         + 2  // longest streak
         + 8  // time of the last approval
         + 16  // achievements
         + 1  // tier
         + 1  // spare
    }

    /// Bytes that the store reserves for a profile: a tag of eight bytes, each field at
    /// its fixed width, the username with a length of four bytes and one byte for each
    /// character it may have, and one spare byte.
    pub fn space() -> (n: usize)
        ensures
            n == Self::spec_space(),
            n == 152,
    {
        8 + 32 + 4 + Self::MAX_USERNAME_LEN + 8 + 8 + 4 + 4 + 8 + 2 + 8 + 4 + 2 + 2 + 8 + 16 + 1
            + 1
    }

    /// Whether the level that the experience makes can be stored.
    pub open spec fn level_fits(&self) -> bool {
        level_of(self.experience_points as int) <= u16::MAX
    }

    /// The level that the profile's experience makes.
    ///
    /// The stored level holds 16 bits: the experience must make no higher level.
    pub fn calculate_level(&self) -> (level: u16)
        requires
            self.level_fits(),
        ensures
            level == level_of(self.experience_points as int),
    {
        (self.experience_points / constants::XP_PER_LEVEL) as u16
    }

    /// The experience at which the next level after the stored one begins.
    pub fn xp_for_next_level(&self) -> (xp: u64)
        ensures
            xp == (self.level + 1) * 500,
    {
        (self.level as u64 + 1) * constants::XP_PER_LEVEL
    }
}


// ---------------------------------------------------------------------------------------
// Levels and tiers
// ---------------------------------------------------------------------------------------

/// A level takes 500 points of experience: with 499 the level is 0, with 500 it is 1,
/// and each level spans exactly 500 points.
pub proof fn lemma_level_law(experience_points: int)
    requires
        experience_points >= 0,
    ensures
        level_of(499) == 0,
        level_of(500) == 1,
        level_of(experience_points) >= 0,
        level_of(experience_points) * 500 <= experience_points < (level_of(experience_points)
            + 1) * 500,
        level_of(experience_points + 500) == level_of(experience_points) + 1,
{
}

/// The tier changes exactly where a level reaches 11, 26 or 51: to silver, to gold and
/// to platinum.
pub proof fn lemma_tier_law(level: int)
    requires
        level >= 0,
    ensures
        tier_of(level) == RankTier::Bronze <==> level <= 10,
        tier_of(level) == RankTier::Silver <==> 11 <= level <= 25,
        tier_of(level) == RankTier::Gold <==> 26 <= level <= 50,
        tier_of(level) == RankTier::Platinum <==> 51 <= level,
        tier_of(level) != tier_of(level + 1) <==> (level + 1 == 11 || level + 1 == 26 || level
            + 1 == 51),
{
}

} // verus!
