//! The fixed numbers of the ledger's rules.

use vstd::prelude::*;

verus! {

/// Smallest latitude of the bounding box, 26.0 degrees, as the bits of its binary64
/// encoding.
pub const NEPAL_MIN_LATITUDE: u64 = 0x403A_0000_0000_0000;

/// Largest latitude of the bounding box, 31.0 degrees, as the bits of its binary64
/// encoding.
pub const NEPAL_MAX_LATITUDE: u64 = 0x403F_0000_0000_0000;

/// Smallest longitude of the bounding box, 80.0 degrees, as the bits of its binary64
/// encoding.
pub const NEPAL_MIN_LONGITUDE: u64 = 0x4054_0000_0000_0000;

/// Largest longitude of the bounding box, 89.0 degrees, as the bits of its binary64
/// encoding.
pub const NEPAL_MAX_LONGITUDE: u64 = 0x4056_4000_0000_0000;

/// Most quests that one location can hold.
pub const MAX_QUESTS_PER_LOCATION: usize = 10;

/// Version written into a new registry.
pub const PROGRAM_VERSION: u8 = 1;

/// Experience granted for an easy quest.
pub const BASE_XP_REWARD: u64 = 100;

/// Factor of an easy quest, in tenths.
pub const DIFFICULTY_MULTIPLIER_EASY: u64 = 10;

/// Factor of a medium quest, in tenths: 1.5.
pub const DIFFICULTY_MULTIPLIER_MEDIUM: u64 = 15;

/// Factor of a hard quest, in tenths: 2.0.
pub const DIFFICULTY_MULTIPLIER_HARD: u64 = 20;

/// Tokens granted for an easy quest to a user of the lowest tier, in the token's smallest
/// unit: a tenth of a token of nine decimals.
pub const BASE_TOKEN_REWARD: u64 = 100_000_000;

/// Most attempts that a user may make at one quest. No operation counts attempts beyond
/// the first: the slot for a user, a location and a quest holds one submission.
pub const MAX_QUEST_ATTEMPTS: u8 = 3;

/// Experience points that make one level.
pub const XP_PER_LEVEL: u64 = 500;

/// Seconds in a day, the unit in which streaks are counted.
pub const ONE_DAY_SECONDS: i64 = 86_400;

/// Longest quest lifetime, in hours: one week.
pub const MAX_TIME_TO_LIVE_HOURS: u16 = 168;

/// Longest reason that may be given for a rejection, in characters.
pub const MAX_REASON_LEN: usize = 200;

/// Fewest characters of the content address of a proof.
pub const MIN_IPFS_HASH_LEN: usize = 46;

} // verus!
