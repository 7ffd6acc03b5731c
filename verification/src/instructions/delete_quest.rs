//! Removal of a quest from a catalog.

use vstd::prelude::*;

use crate::errors::XploraError;
use crate::identity::Identity;
use crate::state::{CatalogView, LocationQuests, QuestRegistry, RegistryView};

verus! {

/// What the removal of a quest does: the catalog after it, or the error.
///
/// The errors, in the order in which they are looked for: `Unauthorized` unless
/// `authority` is the registry's; `NotInitialized` for a catalog that has not been
/// created; `InvalidQuestIndex` if no quest stands at the index.
///
/// The quests after the removed one move down by one index. A submission that refers to
/// one of them by its old index then refers to another quest, or to none.
pub open spec fn delete_quest_outcome(
    registry: RegistryView,
    catalog: CatalogView,
    authority: Seq<u8>,
    quest_index: u8,
    now: i64,
) -> Result<CatalogView, XploraError> {
    if registry.authority != authority {
        Err(XploraError::Unauthorized)
    } else if !catalog.initialized {
        Err(XploraError::NotInitialized)
    } else if quest_index >= catalog.quests.len() {
        Err(XploraError::InvalidQuestIndex)
    } else {
        Ok(
            CatalogView {
                quests: catalog.quests.remove(quest_index as int),
                updated_at: now,
                ..catalog
            },
        )
    }
}

/// Removes the quest at `quest_index` from `catalog`.
///
/// On an error the catalog has not changed.
pub fn delete_quest(
    registry: &QuestRegistry,
    catalog: &mut LocationQuests,
    authority: &Identity,
    quest_index: u8,
    now: i64,
) -> (deleted: Result<(), XploraError>)
    ensures
        match delete_quest_outcome(registry@, old(catalog)@, authority@, quest_index, now) {
            Ok(shrunk) => deleted is Ok && final(catalog)@ == shrunk,
            Err(error) => deleted == Err::<(), XploraError>(error) && *final(catalog) == *old(
                catalog,
            ),
        },
{
    if !registry.authority.same_as(authority) {
        return Err(XploraError::Unauthorized);
    }
    if !catalog.initialized {
        return Err(XploraError::NotInitialized);
    }
    let index = quest_index as usize;
    if index >= catalog.quests.len() {
        return Err(XploraError::InvalidQuestIndex);
    }
    catalog.quests.remove(index);
    catalog.updated_at = now;
    assert(catalog@.quests =~= old(catalog)@.quests.remove(quest_index as int));
    Ok(())
}

/// After a removal the quests before the removed one stand where they stood, and each
/// quest after it stands exactly one index lower.
pub proof fn lemma_delete_shifts_down(
    registry: RegistryView,
    catalog: CatalogView,
    authority: Seq<u8>,
    quest_index: u8,
    now: i64,
)
    requires
        delete_quest_outcome(registry, catalog, authority, quest_index, now) is Ok,
    ensures
        ({
            let shrunk = delete_quest_outcome(registry, catalog, authority, quest_index, now)->Ok_0;
            &&& shrunk.quests.len() == catalog.quests.len() - 1
            &&& forall|i: int| 0 <= i < quest_index ==> shrunk.quests[i] == catalog.quests[i]
            &&& forall|i: int|
                quest_index < i < catalog.quests.len() ==> shrunk.quests[i - 1]
                    == catalog.quests[i]
        }),
{
}


/// A removal keeps a well-formed catalog well formed.
pub proof fn lemma_delete_quest_keeps_well_formed(
    registry: RegistryView,
    catalog: CatalogView,
    authority: Seq<u8>,
    quest_index: u8,
    now: i64,
)
    requires
        catalog.well_formed(),
        delete_quest_outcome(registry, catalog, authority, quest_index, now) is Ok,
    ensures
        delete_quest_outcome(registry, catalog, authority, quest_index, now)->Ok_0.well_formed(),
{
    let shrunk = delete_quest_outcome(registry, catalog, authority, quest_index, now)->Ok_0;
    assert forall|i: int| 0 <= i < shrunk.quests.len() implies crate::utils::valid_quest(
        #[trigger] shrunk.quests[i],
    ) by {
        if i < quest_index {
            assert(shrunk.quests[i] == catalog.quests[i]);
        } else {
            assert(shrunk.quests[i] == catalog.quests[i + 1]);
        }
    }
}

} // verus!
