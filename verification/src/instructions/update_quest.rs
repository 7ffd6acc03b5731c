//! Replacement of a quest of a catalog.

use vstd::prelude::*;

use crate::errors::XploraError;
use crate::identity::Identity;
use crate::state::{CatalogView, LocationQuests, Quest, QuestRegistry, QuestView, RegistryView};
use crate::utils::{lemma_quest_error_is_exact, quest_error, valid_quest, validate_quest};

verus! {

/// What the replacement of a quest does: the catalog after it, or the error.
///
/// The errors, in the order in which they are looked for: `Unauthorized` unless
/// `authority` is the registry's; `NotInitialized` for a catalog that has not been
/// created; `InvalidQuestIndex` if no quest stands at the index; the error of the new
/// quest, if it is not valid.
///
/// The new quest takes the place and the creation time of the old one.
pub open spec fn update_quest_outcome(
    registry: RegistryView,
    catalog: CatalogView,
    authority: Seq<u8>,
    quest_index: u8,
    quest: QuestView,
    now: i64,
) -> Result<CatalogView, XploraError> {
    if registry.authority != authority {
        Err(XploraError::Unauthorized)
    } else if !catalog.initialized {
        Err(XploraError::NotInitialized)
    } else if quest_index >= catalog.quests.len() {
        Err(XploraError::InvalidQuestIndex)
    } else {
        match quest_error(quest) {
            Some(error) => Err(error),
            None => Ok(
                CatalogView {
                    quests: catalog.quests.update(
                        quest_index as int,
                        QuestView {
                            created_at: catalog.quests[quest_index as int].created_at,
                            ..quest
                        },
                    ),
                    updated_at: now,
                    ..catalog
                },
            ),
        }
    }
}

/// Puts `updated_quest` in the place of the quest at `quest_index`, keeping the creation
/// time of the quest that stood there.
///
/// On an error the catalog has not changed.
pub fn update_quest(
    registry: &QuestRegistry,
    catalog: &mut LocationQuests,
    authority: &Identity,
    quest_index: u8,
    updated_quest: Quest,
    now: i64,
) -> (updated: Result<(), XploraError>)
    ensures
        match update_quest_outcome(
            registry@,
            old(catalog)@,
            authority@,
            quest_index,
            updated_quest@,
            now,
        ) {
            Ok(changed) => updated is Ok && final(catalog)@ == changed,
            Err(error) => updated == Err::<(), XploraError>(error) && *final(catalog) == *old(
                catalog,
            ),
        },
{
    if !registry.authority.same_as(authority) {
        return Err(XploraError::Unauthorized);
    }
    if !catalog.initialized {
        return Err(XploraError::NotInitialized);
    }
    let index = quest_index as usize;
    if index >= catalog.quests.len() {
        return Err(XploraError::InvalidQuestIndex);
    }
    match validate_quest(&updated_quest) {
        Ok(()) => {},
        Err(error) => {
            return Err(error);
        },
    }
    let mut stamped = updated_quest;
    stamped.created_at = catalog.quests[index].created_at;
    catalog.quests[index] = stamped;
    catalog.updated_at = now;
    assert(catalog@.quests =~= old(catalog)@.quests.update(
        quest_index as int,
        QuestView {
            created_at: old(catalog)@.quests[quest_index as int].created_at,
            ..updated_quest@
        },
    ));
    Ok(())
}


/// A replacement keeps a well-formed catalog well formed, keeps the number of quests and
/// every other quest, and keeps the creation time of the quest it replaces.
pub proof fn lemma_update_quest_keeps_well_formed(
    registry: RegistryView,
    catalog: CatalogView,
    authority: Seq<u8>,
    quest_index: u8,
    quest: QuestView,
    now: i64,
)
    requires
        catalog.well_formed(),
        update_quest_outcome(registry, catalog, authority, quest_index, quest, now) is Ok,
    ensures
        ({
            let changed = update_quest_outcome(
                registry,
                catalog,
                authority,
                quest_index,
                quest,
                now,
            )->Ok_0;
            &&& changed.well_formed()
            &&& changed.quests.len() == catalog.quests.len()
            &&& forall|i: int|
                0 <= i < catalog.quests.len() && i != quest_index ==> changed.quests[i]
                    == catalog.quests[i]
            &&& changed.quests[quest_index as int].created_at
                == catalog.quests[quest_index as int].created_at
        }),
{
    lemma_quest_error_is_exact(quest);
    let changed = update_quest_outcome(registry, catalog, authority, quest_index, quest, now)->Ok_0;
    assert forall|i: int| 0 <= i < changed.quests.len() implies valid_quest(
        #[trigger] changed.quests[i],
    ) by {
        if i != quest_index {
            assert(changed.quests[i] == catalog.quests[i]);
        }
    }
}

} // verus!
