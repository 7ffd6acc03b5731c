//! Field rules, and the addresses of storage slots.
//!
//! Lengths of texts are counted in characters.

use vstd::prelude::*;
use vstd::string::StrSliceExecFns;
use vstd::utf8::encode_utf8;

use crate::errors::XploraError;
use crate::identity::Identity;
use crate::state::constants::{
    MAX_REASON_LEN, MAX_TIME_TO_LIVE_HOURS, MIN_IPFS_HASH_LEN, NEPAL_MAX_LATITUDE,
    NEPAL_MAX_LONGITUDE, NEPAL_MIN_LATITUDE, NEPAL_MIN_LONGITUDE,
};
use crate::state::{LocationQuests, Quest, QuestSubmission, QuestView, UserProfile};

verus! {

// ---------------------------------------------------------------------------------------
// Field rules
// ---------------------------------------------------------------------------------------

/// A text of at least one and at most `max` characters.
pub open spec fn bounded_text(text: Seq<char>, max: nat) -> bool {
    1 <= text.len() <= max
}

/// A title has at least one and at most 32 characters.
pub open spec fn valid_title(title: Seq<char>) -> bool {
    bounded_text(title, Quest::MAX_TITLE_LEN as nat)
}

/// The description of a quest has at least one and at most 128 characters.
pub open spec fn valid_description(description: Seq<char>) -> bool {
    bounded_text(description, Quest::MAX_DESCRIPTION_LEN as nat)
}

/// The landmark to verify has at least one and at most 64 characters.
pub open spec fn valid_landmark(landmark: Seq<char>) -> bool {
    bounded_text(landmark, Quest::MAX_LANDMARK_LEN as nat)
}

/// The name of a landmark has at least one and at most 32 characters.
pub open spec fn valid_landmark_name(name: Seq<char>) -> bool {
    bounded_text(name, Quest::MAX_LANDMARK_NAME_LEN as nat)
}

/// Whether a latitude, given by the bits of its binary64 encoding, lies between 26.0 and
/// 31.0 degrees, ends included. That the bits in this range are the encodings of these
/// numbers is [`crate::coordinates::lemma_latitude_bits`].
pub open spec fn valid_latitude(latitude: u64) -> bool {
    NEPAL_MIN_LATITUDE <= latitude <= NEPAL_MAX_LATITUDE
}

/// Whether a longitude, given by the bits of its binary64 encoding, lies between 80.0 and
/// 89.0 degrees, ends included. That the bits in this range are the encodings of these
/// numbers is [`crate::coordinates::lemma_longitude_bits`].
pub open spec fn valid_longitude(longitude: u64) -> bool {
    NEPAL_MIN_LONGITUDE <= longitude <= NEPAL_MAX_LONGITUDE
}

/// A quest stays open for at least one hour and at most one week.
pub open spec fn valid_time_to_live(hours: u16) -> bool {
    1 <= hours <= MAX_TIME_TO_LIVE_HOURS
}

/// A location has at least one and at most 64 characters.
pub open spec fn valid_location(location: Seq<char>) -> bool {
    bounded_text(location, LocationQuests::MAX_LOCATION_LEN as nat)
}

/// A username has at least one and at most 32 characters.
pub open spec fn valid_username(username: Seq<char>) -> bool {
    bounded_text(username, UserProfile::MAX_USERNAME_LEN as nat)
}

/// The content address of a proof has at least 46 characters and begins with `Qm`. This
/// is a check of its shape, not of what it addresses.
pub open spec fn valid_ipfs_hash(hash: Seq<char>) -> bool {
    &&& hash.len() >= MIN_IPFS_HASH_LEN
    &&& hash[0] == 'Q'
    &&& hash[1] == 'm'
}

/// The description of a submission may be empty and has at most 200 characters.
pub open spec fn valid_submission_description(description: Seq<char>) -> bool {
    description.len() <= QuestSubmission::MAX_DESCRIPTION_LEN
}

/// The reason of a rejection has at least one and at most 200 characters.
pub open spec fn valid_rejection_reason(reason: Seq<char>) -> bool {
    bounded_text(reason, MAX_REASON_LEN as nat)
}

/// A quest is valid when each of its fields is within its own bound.
pub open spec fn valid_quest(quest: QuestView) -> bool {
    &&& valid_title(quest.title)
    &&& valid_description(quest.description)
    &&& valid_landmark(quest.verifiable_landmark)
    &&& valid_landmark_name(quest.landmark_name)
    &&& valid_latitude(quest.latitude)
    &&& valid_longitude(quest.longitude)
    &&& valid_time_to_live(quest.time_to_live_hours)
}

/// The error of the first field of `quest` that is out of its bound, the fields taken in
/// the order title, description, landmark, landmark name, latitude, longitude, time to
/// live; `None` for a valid quest.
pub open spec fn quest_error(quest: QuestView) -> Option<XploraError> {
    if !valid_title(quest.title) {
        Some(XploraError::InvalidTitle)
    } else if !valid_description(quest.description) {
        Some(XploraError::InvalidDescription)
    } else if !valid_landmark(quest.verifiable_landmark) {
        Some(XploraError::InvalidLandmark)
    } else if !valid_landmark_name(quest.landmark_name) {
        Some(XploraError::InvalidLandmarkName)
    } else if !valid_latitude(quest.latitude) {
        Some(XploraError::InvalidLatitude)
    } else if !valid_longitude(quest.longitude) {
        Some(XploraError::InvalidLongitude)
    } else if !valid_time_to_live(quest.time_to_live_hours) {
        Some(XploraError::InvalidDifficulty)
    } else {
        None
    }
}

/// Whether every quest of `quests` is valid.
pub open spec fn all_valid(quests: Seq<QuestView>) -> bool {
    forall|i: int| 0 <= i < quests.len() ==> valid_quest(#[trigger] quests[i])
}

/// The error of the first quest of `quests`, from index `from` on, that is not valid;
/// `None` if all of them are.
pub open spec fn first_quest_error(quests: Seq<QuestView>, from: int) -> Option<XploraError>
    decreases quests.len() - from,
{
    if from < 0 || from >= quests.len() {
        None
    } else if quest_error(quests[from]) is Some {
        quest_error(quests[from])
    } else {
        first_quest_error(quests, from + 1)
    }
}

/// Whether `text` has at least one and at most `max` characters.
pub fn text_within(text: &str, max: usize) -> (within: bool)
    ensures
        within == bounded_text(text@, max as nat),
{
    let length = text.unicode_len();
    1 <= length && length <= max
}

/// Checks a quest against the field rules.
///
/// Returns `Ok` exactly for a valid quest, and otherwise the error of the first field
/// that is out of its bound.
pub fn validate_quest(quest: &Quest) -> (checked: Result<(), XploraError>)
    ensures
        checked is Ok <==> valid_quest(quest@),
        match quest_error(quest@) {
            Some(error) => checked == Err::<(), XploraError>(error),
            None => checked is Ok,
        },
{
    if !text_within(quest.title.as_str(), Quest::MAX_TITLE_LEN) {
        return Err(XploraError::InvalidTitle);
    }
    if !text_within(quest.description.as_str(), Quest::MAX_DESCRIPTION_LEN) {
        return Err(XploraError::InvalidDescription);
    }
    if !text_within(quest.verifiable_landmark.as_str(), Quest::MAX_LANDMARK_LEN) {
        return Err(XploraError::InvalidLandmark);
    }
    if !text_within(quest.landmark_name.as_str(), Quest::MAX_LANDMARK_NAME_LEN) {
        return Err(XploraError::InvalidLandmarkName);
    }
    if !(quest.latitude >= NEPAL_MIN_LATITUDE && quest.latitude <= NEPAL_MAX_LATITUDE) {
        return Err(XploraError::InvalidLatitude);
    }
    if !(quest.longitude >= NEPAL_MIN_LONGITUDE && quest.longitude <= NEPAL_MAX_LONGITUDE) {
        return Err(XploraError::InvalidLongitude);
    }
    if !(quest.time_to_live_hours > 0 && quest.time_to_live_hours <= MAX_TIME_TO_LIVE_HOURS) {
        return Err(XploraError::InvalidDifficulty);
    }
    Ok(())
}

/// Checks the quests of a vector in order and stops at the first that is not valid.
pub fn validate_quests(quests: &Vec<Quest>) -> (checked: Result<(), XploraError>)
    ensures
        checked is Ok <==> all_valid(crate::state::quest_views(quests@)),
        match first_quest_error(crate::state::quest_views(quests@), 0) {
            Some(error) => checked == Err::<(), XploraError>(error),
            None => checked is Ok,
        },
{
    let ghost views = crate::state::quest_views(quests@);
    proof {
        lemma_first_quest_error(views, 0);
    }
    let mut i: usize = 0;
    while i < quests.len()
        invariant
            i <= quests.len(),
            views == crate::state::quest_views(quests@),
            first_quest_error(views, 0) == first_quest_error(views, i as int),
        decreases quests.len() - i,
    {
        match validate_quest(&quests[i]) {
            Ok(()) => {},
            Err(error) => {
                return Err(error);
            },
        }
        i += 1;
    }
    Ok(())
}

/// Checks the name of a location: at least one and at most 64 characters.
pub fn validate_location(location: &str) -> (checked: Result<(), XploraError>)
    ensures
        valid_location(location@) ==> checked is Ok,
        !valid_location(location@) ==> checked == Err::<(), XploraError>(
            XploraError::InvalidLocation,
        ),
{
    if text_within(location, LocationQuests::MAX_LOCATION_LEN) {
        Ok(())
    } else {
        Err(XploraError::InvalidLocation)
    }
}

/// Whether `hash` has the shape of the content address of a proof.
pub fn check_ipfs_hash(hash: &str) -> (valid: bool)
    ensures
        valid == valid_ipfs_hash(hash@),
{
    hash.unicode_len() >= MIN_IPFS_HASH_LEN && hash.get_char(0) == 'Q' && hash.get_char(1) == 'm'
}

// ---------------------------------------------------------------------------------------
// What the field rules amount to
// ---------------------------------------------------------------------------------------

/// A quest passes the check exactly when every field is within its own bound, and the
/// error that a quest gets names a field of it that is out of its bound.
pub proof fn lemma_quest_error_is_exact(quest: QuestView)
    ensures
        quest_error(quest) is None <==> valid_quest(quest),
        quest_error(quest) == Some(XploraError::InvalidTitle) ==> !valid_title(quest.title),
        quest_error(quest) == Some(XploraError::InvalidDescription) ==> !valid_description(
            quest.description,
        ),
        quest_error(quest) == Some(XploraError::InvalidLandmark) ==> !valid_landmark(
            quest.verifiable_landmark,
        ),
        quest_error(quest) == Some(XploraError::InvalidLandmarkName) ==> !valid_landmark_name(
            quest.landmark_name,
        ),
        quest_error(quest) == Some(XploraError::InvalidLatitude) ==> !valid_latitude(
            quest.latitude,
        ),
        quest_error(quest) == Some(XploraError::InvalidLongitude) ==> !valid_longitude(
            quest.longitude,
        ),
        quest_error(quest) == Some(XploraError::InvalidDifficulty) ==> !valid_time_to_live(
            quest.time_to_live_hours,
        ),
{
}

/// Each field decides on its own: a valid quest in which one field alone is replaced by a
/// value out of that field's bound is refused, with the error of that field.
pub proof fn lemma_one_field_out_of_bound(quest: QuestView, changed: QuestView)
    requires
        valid_quest(quest),
    ensures
        changed == (QuestView { title: changed.title, ..quest }) && !valid_title(changed.title)
            ==> quest_error(changed) == Some(XploraError::InvalidTitle),
        changed == (QuestView { description: changed.description, ..quest })
            && !valid_description(changed.description) ==> quest_error(changed) == Some(
            XploraError::InvalidDescription,
        ),
        changed == (QuestView { verifiable_landmark: changed.verifiable_landmark, ..quest })
            && !valid_landmark(changed.verifiable_landmark) ==> quest_error(changed) == Some(
            XploraError::InvalidLandmark,
        ),
        changed == (QuestView { landmark_name: changed.landmark_name, ..quest })
            && !valid_landmark_name(changed.landmark_name) ==> quest_error(changed) == Some(
            XploraError::InvalidLandmarkName,
        ),
        changed == (QuestView { latitude: changed.latitude, ..quest }) && !valid_latitude(
            changed.latitude,
        ) ==> quest_error(changed) == Some(XploraError::InvalidLatitude),
        changed == (QuestView { longitude: changed.longitude, ..quest }) && !valid_longitude(
            changed.longitude,
        ) ==> quest_error(changed) == Some(XploraError::InvalidLongitude),
        changed == (QuestView { time_to_live_hours: changed.time_to_live_hours, ..quest })
            && !valid_time_to_live(changed.time_to_live_hours) ==> quest_error(changed) == Some(
            XploraError::InvalidDifficulty,
        ),
        changed == (QuestView {
            quest_type: changed.quest_type,
            difficulty: changed.difficulty,
            created_at: changed.created_at,
            ..quest
        }) ==> valid_quest(changed),
{
}

/// The quests of a sequence pass the check exactly when each of them is valid; and the
/// error that a sequence gets is that of its first quest that is not valid.
pub proof fn lemma_first_quest_error(quests: Seq<QuestView>, from: int)
    requires
        0 <= from <= quests.len(),
    ensures
        first_quest_error(quests, from) is None <==> forall|i: int|
            from <= i < quests.len() ==> valid_quest(#[trigger] quests[i]),
        from == 0 ==> (first_quest_error(quests, 0) is None <==> all_valid(quests)),
        first_quest_error(quests, from) is Some ==> exists|i: int|
            {
                &&& from <= i < quests.len()
                &&& first_quest_error(quests, from) == quest_error(#[trigger] quests[i])
                &&& forall|j: int| from <= j < i ==> valid_quest(#[trigger] quests[j])
            },
    decreases quests.len() - from,
{
    if from < quests.len() {
        lemma_quest_error_is_exact(quests[from]);
        if quest_error(quests[from]) is None {
            lemma_first_quest_error(quests, from + 1);
            if first_quest_error(quests, from) is Some {
                let i = choose|i: int|
                    {
                        &&& from + 1 <= i < quests.len()
                        &&& first_quest_error(quests, from + 1) == quest_error(
                            #[trigger] quests[i],
                        )
                        &&& forall|j: int| from + 1 <= j < i ==> valid_quest(#[trigger] quests[j])
                    };
                assert(first_quest_error(quests, from) == quest_error(quests[i]));
            }
        } else {
            assert(first_quest_error(quests, from) == quest_error(quests[from]));
        }
    }
}

// ---------------------------------------------------------------------------------------
// Addresses of storage slots
// ---------------------------------------------------------------------------------------

/// The address that a program owns for a list of seeds, with the bump that makes it one:
/// what `Pubkey::try_find_program_address` returns for these seeds and this program.
/// `None` where no such address can be had.
pub uninterp spec fn program_address(seeds: Seq<Seq<u8>>, program_id: Seq<u8>) -> Option<
    (Seq<u8>, u8),
>;

/// View of an address with its bump, where there is one.
pub open spec fn address_view(derived: Option<(Identity, u8)>) -> Option<(Seq<u8>, u8)> {
    match derived {
        Some((address, bump)) => Some((address@, bump)),
        None => None,
    }
}

/// Whether one of the seeds is longer than the 32 bytes that a seed may have.
pub open spec fn has_long_seed(seeds: Seq<Seq<u8>>) -> bool {
    exists|i: int| 0 <= i < seeds.len() && (#[trigger] seeds[i]).len() > 32
}

/// Calls `Pubkey::try_find_program_address` of `anchor_lang` with the seeds and the
/// program, each as the bytes it is given.
///
/// Trusted, not proved: that function searches the bumps from 255 down for the first whose
/// hash, taken over the seeds, the bump, the program and a fixed marker, is no point of
/// the curve. Its result depends on nothing but these bytes, and is given a name here, not
/// a definition. It finds no address where a seed is longer than 32 bytes.
#[verifier::external_body]
fn find_program_address(seeds: &Vec<Vec<u8>>, program_id: &Identity) -> (found: Option<
    (Identity, u8),
>)
    ensures
        address_view(found) == program_address(seeds.deep_view(), program_id@),
        has_long_seed(seeds.deep_view()) ==> found is None,
{
    let parts: Vec<&[u8]> = seeds.iter().map(|seed| seed.as_slice()).collect();
    let program = anchor_lang::prelude::Pubkey::new_from_array(program_id.bytes);
    match anchor_lang::prelude::Pubkey::try_find_program_address(&parts, &program) {
        Some((address, bump)) => Some((Identity { bytes: address.to_bytes() }, bump)),
        None => None,
    }
}

/// The seeds of the slot of a location's catalog: a fixed label, then the location in
/// UTF-8.
pub open spec fn location_quests_seeds(location: Seq<char>) -> Seq<Seq<u8>> {
    seq![encode_utf8("location_quests"@), encode_utf8(location)]
}

/// The seeds of the registry's slot: a fixed label.
pub open spec fn quest_registry_seeds() -> Seq<Seq<u8>> {
    seq![encode_utf8("quest_registry"@)]
}

/// The address of the slot of a location's catalog under a program, with its bump.
pub open spec fn location_quests_address(program_id: Seq<u8>, location: Seq<char>) -> Option<
    (Seq<u8>, u8),
> {
    program_address(location_quests_seeds(location), program_id)
}

/// The address of the registry's slot under a program, with its bump.
pub open spec fn quest_registry_address(program_id: Seq<u8>) -> Option<(Seq<u8>, u8)> {
    program_address(quest_registry_seeds(), program_id)
}

/// Derives the address of the slot that holds the catalog of `location`.
///
/// Returns `None` where no address can be derived, which is the case for a location that
/// takes more than 32 bytes in UTF-8.
pub fn derive_location_quests_pda(program_id: &Identity, location: &str) -> (derived: Option<
    (Identity, u8),
>)
    ensures
        address_view(derived) == location_quests_address(program_id@, location@),
        encode_utf8(location@).len() > 32 ==> derived is None,
{
    let mut seeds: Vec<Vec<u8>> = Vec::new();
    seeds.push("location_quests".as_bytes_vec());
    seeds.push(location.as_bytes_vec());
    assert(seeds.deep_view() =~= location_quests_seeds(location@)) by {
        assert(seeds.deep_view()[0] =~= encode_utf8("location_quests"@));
        assert(seeds.deep_view()[1] =~= encode_utf8(location@));
    }
    assert(encode_utf8(location@).len() > 32 ==> has_long_seed(seeds.deep_view())) by {
        if encode_utf8(location@).len() > 32 {
            assert(seeds.deep_view()[1].len() > 32);
        }
    }
    find_program_address(&seeds, program_id)
}

/// Derives the address of the slot that holds the registry.
pub fn derive_quest_registry_pda(program_id: &Identity) -> (derived: Option<(Identity, u8)>)
    ensures
        address_view(derived) == quest_registry_address(program_id@),
{
    let mut seeds: Vec<Vec<u8>> = Vec::new();
    seeds.push("quest_registry".as_bytes_vec());
    assert(seeds.deep_view() =~= quest_registry_seeds()) by {
        assert(seeds.deep_view()[0] =~= encode_utf8("quest_registry"@));
    }
    find_program_address(&seeds, program_id)
}

} // verus!
