//! Addition of a quest to a catalog.

use vstd::prelude::*;

use crate::errors::XploraError;
use crate::identity::Identity;
use crate::state::constants::MAX_QUESTS_PER_LOCATION;
use crate::state::{CatalogView, LocationQuests, Quest, QuestRegistry, QuestView, RegistryView};
use crate::instructions::delete_quest::delete_quest_outcome;
use crate::utils::{lemma_quest_error_is_exact, quest_error, valid_quest, validate_quest};

verus! {

/// What the addition of a quest does: the catalog after it, or the error.
///
/// The errors, in the order in which they are looked for: `Unauthorized` unless
/// `authority` is the registry's; `NotInitialized` for a catalog that has not been
/// created; `TooManyQuests` for a catalog that holds ten quests already; the error of the
/// quest, if it is not valid.
///
/// The quest enters at the end, with `now` as its creation time.
pub open spec fn add_quest_outcome(
    registry: RegistryView,
    catalog: CatalogView,
    authority: Seq<u8>,
    quest: QuestView,
    now: i64,
) -> Result<CatalogView, XploraError> {
    if registry.authority != authority {
        Err(XploraError::Unauthorized)
    } else if !catalog.initialized {
        Err(XploraError::NotInitialized)
    } else if catalog.quests.len() >= MAX_QUESTS_PER_LOCATION {
        Err(XploraError::TooManyQuests)
    } else {
        match quest_error(quest) {
            Some(error) => Err(error),
            None => Ok(
                CatalogView {
                    quests: catalog.quests.push(QuestView { created_at: now, ..quest }),
                    updated_at: now,
                    ..catalog
                },
            ),
        }
    }
}

/// Adds `quest` to the end of `catalog`, with `now` as its creation time.
///
/// On an error the catalog has not changed.
pub fn add_quest_to_location(
    registry: &QuestRegistry,
    catalog: &mut LocationQuests,
    authority: &Identity,
    quest: Quest,
    now: i64,
) -> (added: Result<(), XploraError>)
    ensures
        match add_quest_outcome(registry@, old(catalog)@, authority@, quest@, now) {
            Ok(grown) => added is Ok && final(catalog)@ == grown,
            Err(error) => added == Err::<(), XploraError>(error) && *final(catalog) == *old(
                catalog,
            ),
        },
{
    if !registry.authority.same_as(authority) {
        return Err(XploraError::Unauthorized);
    }
    if !catalog.initialized {
        return Err(XploraError::NotInitialized);
    }
    if catalog.quests.len() >= MAX_QUESTS_PER_LOCATION {
        return Err(XploraError::TooManyQuests);
    }
    match validate_quest(&quest) {
        Ok(()) => {},
        Err(error) => {
            return Err(error);
        },
    }
    let mut stamped = quest;
    stamped.created_at = now;
    catalog.quests.push(stamped);
    catalog.updated_at = now;
    assert(catalog@.quests =~= old(catalog)@.quests.push(
        QuestView { created_at: now, ..quest@ },
    ));
    Ok(())
}


/// A catalog has room for ten quests: with ten, an addition is refused with
/// `TooManyQuests` whatever the quest; with fewer, a valid quest is accepted.
pub proof fn lemma_add_quest_capacity(
    registry: RegistryView,
    catalog: CatalogView,
    authority: Seq<u8>,
    quest: QuestView,
    now: i64,
)
    requires
        registry.authority == authority,
        catalog.initialized,
    ensures
        catalog.quests.len() >= 10 ==> add_quest_outcome(registry, catalog, authority, quest, now)
            == Err::<CatalogView, XploraError>(XploraError::TooManyQuests),
        catalog.quests.len() < 10 && valid_quest(quest) ==> add_quest_outcome(
            registry,
            catalog,
            authority,
            quest,
            now,
        ) is Ok,
{
    lemma_quest_error_is_exact(quest);
}

/// A removal makes room again: from a full catalog, once any quest is removed, a valid
/// quest is accepted, and the catalog is full again.
pub proof fn lemma_delete_then_add(
    registry: RegistryView,
    catalog: CatalogView,
    authority: Seq<u8>,
    quest_index: u8,
    quest: QuestView,
    deleted_at: i64,
    added_at: i64,
)
    requires
        registry.authority == authority,
        catalog.initialized,
        catalog.quests.len() == 10,
        quest_index < 10,
        valid_quest(quest),
    ensures
        delete_quest_outcome(registry, catalog, authority, quest_index, deleted_at) is Ok,
        ({
            let shrunk = delete_quest_outcome(
                registry,
                catalog,
                authority,
                quest_index,
                deleted_at,
            )->Ok_0;
            &&& add_quest_outcome(registry, shrunk, authority, quest, added_at) is Ok
            &&& add_quest_outcome(registry, shrunk, authority, quest, added_at)->Ok_0.quests.len()
                == 10
        }),
{
    lemma_quest_error_is_exact(quest);
}

/// An addition keeps a well-formed catalog well formed, keeps the quests that were there
/// where they were, and puts the new quest last.
pub proof fn lemma_add_quest_keeps_well_formed(
    registry: RegistryView,
    catalog: CatalogView,
    authority: Seq<u8>,
    quest: QuestView,
    now: i64,
)
    requires
        catalog.well_formed(),
        add_quest_outcome(registry, catalog, authority, quest, now) is Ok,
    ensures
        ({
            let grown = add_quest_outcome(registry, catalog, authority, quest, now)->Ok_0;
            &&& grown.well_formed()
            &&& grown.quests.len() == catalog.quests.len() + 1
            &&& forall|i: int| 0 <= i < catalog.quests.len() ==> grown.quests[i] == catalog.quests[i]
            &&& grown.quests.last() == (QuestView { created_at: now, ..quest })
        }),
{
    lemma_quest_error_is_exact(quest);
    let grown = add_quest_outcome(registry, catalog, authority, quest, now)->Ok_0;
    assert forall|i: int| 0 <= i < grown.quests.len() implies valid_quest(
        #[trigger] grown.quests[i],
    ) by {
        if i < catalog.quests.len() {
            assert(grown.quests[i] == catalog.quests[i]);
        }
    }
}

} // verus!
