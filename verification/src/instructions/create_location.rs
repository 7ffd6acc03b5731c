//! Creation of the catalog of a location.

use vstd::prelude::*;
use vstd::utf8::encode_utf8;

use crate::errors::XploraError;
use crate::identity::Identity;
use crate::state::constants::MAX_QUESTS_PER_LOCATION;
use crate::state::{
    quest_views, slot_view, CatalogView, LocationQuests, Quest, QuestRegistry, QuestView,
    RegistryView,
};
use crate::utils::{
    address_view, all_valid, derive_location_quests_pda, first_quest_error,
    location_quests_address, valid_location, validate_location, validate_quests,
};

verus! {

/// Whether `slot_address` is the address that was derived.
pub open spec fn is_derived_address(derived: Option<(Seq<u8>, u8)>, slot_address: Seq<u8>) -> bool {
    match derived {
        Some((address, _)) => address == slot_address,
        None => false,
    }
}

/// What the creation of a catalog does: the registry and the catalog after it, or the
/// error.
///
/// `derived` is the address derived for the location, if there is one, and `slot_address`
/// the address of the slot that was handed in.
///
/// The errors, in the order in which they are looked for: `Unauthorized` unless
/// `authority` is the registry's; `InvalidLocation` for a location that is empty or longer
/// than 64 characters; `EmptyQuestsArray` for no quests; `TooManyQuests` for more than
/// ten; the error of the first quest that is not valid; `InvalidLocationPDA` unless the
/// slot is the one derived for the location; `LocationAlreadyExists` if the slot holds a
/// catalog already; `Overflow` if the registry cannot count one location more.
///
/// The quests are stored as they were given, creation times included.
pub open spec fn create_outcome(
    registry: RegistryView,
    slot: Option<CatalogView>,
    authority: Seq<u8>,
    derived: Option<(Seq<u8>, u8)>,
    slot_address: Seq<u8>,
    location: Seq<char>,
    quests: Seq<QuestView>,
    now: i64,
) -> Result<(RegistryView, CatalogView), XploraError> {
    if registry.authority != authority {
        Err(XploraError::Unauthorized)
    } else if !valid_location(location) {
        Err(XploraError::InvalidLocation)
    } else if quests.len() == 0 {
        Err(XploraError::EmptyQuestsArray)
    } else if quests.len() > MAX_QUESTS_PER_LOCATION {
        Err(XploraError::TooManyQuests)
    } else if !all_valid(quests) {
        Err(first_quest_error(quests, 0)->0)
    } else if !is_derived_address(derived, slot_address) {
        Err(XploraError::InvalidLocationPDA)
    } else if slot is Some {
        Err(XploraError::LocationAlreadyExists)
    } else if registry.total_locations == u64::MAX {
        Err(XploraError::Overflow)
    } else {
        Ok(
            (
                RegistryView {
                    total_locations: (registry.total_locations + 1) as u64,
                    ..registry
                },
                CatalogView {
                    location,
                    quests,
                    initialized: true,
                    created_at: now,
                    updated_at: now,
                },
            ),
        )
    }
}

/// Creates the catalog of `location` in `slot`, given the address `derived` for the
/// location and the address `slot_address` of the slot.
///
/// On success the slot holds the catalog, created and last changed at `now`, and the
/// registry counts one location more. On an error neither has changed.
pub fn create_location_quests_at(
    registry: &mut QuestRegistry,
    slot: &mut Option<LocationQuests>,
    authority: &Identity,
    derived: Option<(Identity, u8)>,
    slot_address: &Identity,
    location: String,
    quests: Vec<Quest>,
    now: i64,
) -> (created: Result<(), XploraError>)
    ensures
        match create_outcome(
            old(registry)@,
            slot_view(*old(slot)),
            authority@,
            address_view(derived),
            slot_address@,
            location@,
            quest_views(quests@),
            now,
        ) {
            Ok((counted, catalog)) => {
                &&& created is Ok
                &&& final(registry)@ == counted
                &&& slot_view(*final(slot)) == Some(catalog)
            },
            Err(error) => {
                &&& created == Err::<(), XploraError>(error)
                &&& *final(registry) == *old(registry)
                &&& *final(slot) == *old(slot)
            },
        },
{
    if !registry.authority.same_as(authority) {
        return Err(XploraError::Unauthorized);
    }
    match validate_location(location.as_str()) {
        Ok(()) => {},
        Err(error) => {
            return Err(error);
        },
    }
    if quests.len() == 0 {
        return Err(XploraError::EmptyQuestsArray);
    }
    if quests.len() > MAX_QUESTS_PER_LOCATION {
        return Err(XploraError::TooManyQuests);
    }
    match validate_quests(&quests) {
        Ok(()) => {},
        Err(error) => {
            return Err(error);
        },
    }
    match derived {
        Some((address, _)) => {
            if !address.same_as(slot_address) {
                return Err(XploraError::InvalidLocationPDA);
            }
        },
        None => {
            return Err(XploraError::InvalidLocationPDA);
        },
    }
    if slot.is_some() {
        return Err(XploraError::LocationAlreadyExists);
    }
    let total = match registry.total_locations.checked_add(1) {
        Some(sum) => sum,
        None => {
            return Err(XploraError::Overflow);
        },
    };
    *slot = Some(
        LocationQuests { location, quests, initialized: true, created_at: now, updated_at: now },
    );
    registry.total_locations = total;
    Ok(())
}

/// Creates the catalog of `location` in `slot`, the slot at `slot_address`, under the
/// program `program_id`.
///
/// The address of the slot is derived from the program and the location, and the slot
/// handed in must be the one at that address. What follows is
/// [`create_location_quests_at`].
///
/// No address is derived from a location that takes more than 32 bytes in UTF-8: for
/// such a location, though it may have up to 64 characters, no catalog is created.
pub fn create_location_quests(
    registry: &mut QuestRegistry,
    slot: &mut Option<LocationQuests>,
    authority: &Identity,
    program_id: &Identity,
    slot_address: &Identity,
    location: String,
    quests: Vec<Quest>,
    now: i64,
) -> (created: Result<(), XploraError>)
    ensures
        match create_outcome(
            old(registry)@,
            slot_view(*old(slot)),
            authority@,
            location_quests_address(program_id@, location@),
            slot_address@,
            location@,
            quest_views(quests@),
            now,
        ) {
            Ok((counted, catalog)) => {
                &&& created is Ok
                &&& final(registry)@ == counted
                &&& slot_view(*final(slot)) == Some(catalog)
            },
            Err(error) => {
                &&& created == Err::<(), XploraError>(error)
                &&& *final(registry) == *old(registry)
                &&& *final(slot) == *old(slot)
            },
        },
        encode_utf8(location@).len() > 32 ==> created is Err,
{
    let derived = derive_location_quests_pda(program_id, location.as_str());
    create_location_quests_at(
        registry,
        slot,
        authority,
        derived,
        slot_address,
        location,
        quests,
        now,
    )
}

/// How many quests a new catalog may have: a list without quests and a list of more than
/// ten are refused, whatever else is given, and a list of one to ten valid quests is
/// accepted where nothing else stands against it.
pub proof fn lemma_create_counts_quests(
    registry: RegistryView,
    slot: Option<CatalogView>,
    authority: Seq<u8>,
    derived: Option<(Seq<u8>, u8)>,
    slot_address: Seq<u8>,
    location: Seq<char>,
    quests: Seq<QuestView>,
    now: i64,
)
    ensures
        quests.len() == 0 || quests.len() > 10 ==> create_outcome(
            registry,
            slot,
            authority,
            derived,
            slot_address,
            location,
            quests,
            now,
        ) is Err,
        registry.authority == authority && valid_location(location) && quests.len() == 0
            ==> create_outcome(
            registry,
            slot,
            authority,
            derived,
            slot_address,
            location,
            quests,
            now,
        ) == Err::<(RegistryView, CatalogView), XploraError>(XploraError::EmptyQuestsArray),
        registry.authority == authority && valid_location(location) && quests.len() > 10
            ==> create_outcome(
            registry,
            slot,
            authority,
            derived,
            slot_address,
            location,
            quests,
            now,
        ) == Err::<(RegistryView, CatalogView), XploraError>(XploraError::TooManyQuests),
        registry.authority == authority && valid_location(location) && 1 <= quests.len() <= 10
            && all_valid(quests) && is_derived_address(derived, slot_address) && slot is None
            && registry.total_locations < u64::MAX ==> create_outcome(
            registry,
            slot,
            authority,
            derived,
            slot_address,
            location,
            quests,
            now,
        ) is Ok,
{
}

/// A catalog that has been created is well formed, and the registry counts exactly one
/// location more.
pub proof fn lemma_created_catalog_well_formed(
    registry: RegistryView,
    slot: Option<CatalogView>,
    authority: Seq<u8>,
    derived: Option<(Seq<u8>, u8)>,
    slot_address: Seq<u8>,
    location: Seq<char>,
    quests: Seq<QuestView>,
    now: i64,
)
    requires
        create_outcome(registry, slot, authority, derived, slot_address, location, quests, now)
            is Ok,
    ensures
        ({
            let (counted, catalog) = create_outcome(
                registry,
                slot,
                authority,
                derived,
                slot_address,
                location,
                quests,
                now,
            )->Ok_0;
            &&& catalog.well_formed()
            &&& catalog.initialized
            &&& counted.total_locations == registry.total_locations + 1
        }),
{
}

} // verus!
