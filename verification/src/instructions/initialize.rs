//! Creation of the registry.

use vstd::prelude::*;

use crate::errors::XploraError;
use crate::identity::Identity;
use crate::state::constants::PROGRAM_VERSION;
use crate::state::{slot_view, QuestRegistry, RegistryView};

verus! {

/// The registry as it is created: under `authority`, without locations, at the current
/// version.
pub open spec fn new_registry(authority: Seq<u8>) -> RegistryView {
    RegistryView { authority, total_locations: 0, version: PROGRAM_VERSION }
}

/// Creates the registry under `authority`.
///
/// `slot` is the registry's one slot. Fails with `AlreadyInitialized`, and changes
/// nothing, if the slot holds a registry already: the registry is created once.
pub fn initialize(slot: &mut Option<QuestRegistry>, authority: Identity) -> (done: Result<
    (),
    XploraError,
>)
    ensures
        *old(slot) is Some ==> done == Err::<(), XploraError>(XploraError::AlreadyInitialized)
            && *final(slot) == *old(slot),
        *old(slot) is None ==> done is Ok && slot_view(*final(slot)) == Some(
            new_registry(authority@),
        ),
{
    if slot.is_some() {
        return Err(XploraError::AlreadyInitialized);
    }
    *slot = Some(QuestRegistry { authority, total_locations: 0, version: PROGRAM_VERSION });
    Ok(())
}

} // verus!
