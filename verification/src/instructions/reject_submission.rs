//! Rejection of a submission.

use vstd::prelude::*;

use crate::errors::XploraError;
use crate::identity::Identity;
use crate::state::constants::MAX_REASON_LEN;
use crate::instructions::approve_submission::approve_outcome;
use crate::state::{
    CatalogView, ProfileView, QuestRegistry, QuestSubmission, RegistryView, SubmissionStatus,
    SubmissionView,
};
use crate::utils::{text_within, valid_rejection_reason};

verus! {

/// What a rejection does: the submission after it, or the error.
///
/// The errors, in the order in which they are looked for: `Unauthorized` unless
/// `authority` is the registry's; `SubmissionNotPending` unless the submission is pending;
/// `InvalidDescription` for a reason that is empty or longer than 200 characters.
pub open spec fn reject_outcome(
    submission: SubmissionView,
    registry: RegistryView,
    authority: Seq<u8>,
    validator: Seq<u8>,
    reason: Seq<char>,
    now: i64,
) -> Result<SubmissionView, XploraError> {
    if registry.authority != authority {
        Err(XploraError::Unauthorized)
    } else if submission.status != SubmissionStatus::Pending {
        Err(XploraError::SubmissionNotPending)
    } else if !valid_rejection_reason(reason) {
        Err(XploraError::InvalidDescription)
    } else {
        Ok(
            SubmissionView {
                status: SubmissionStatus::Rejected,
                validator: Some(validator),
                validated_at: Some(now),
                ..submission
            },
        )
    }
}

/// What is announced when a submission has been rejected. The reason is announced only:
/// the submission does not keep it.
#[derive(Clone, Debug, PartialEq)]
pub struct QuestRejectionEvent {
    pub user: Identity,
    pub location: String,
    pub quest_index: u8,
    pub reason: String,
    pub timestamp: i64,
}

/// Rejects a pending submission.
///
/// `authority` is the identity presented as the registry's authority, and is checked
/// against the registry; `validator` is the caller, and is recorded on the submission. The
/// validator is not required to be the authority: a caller for whom the two must be the
/// same compares them before the call.
///
/// On success the submission is `Rejected` and holds the validator and the time, and the
/// event carries the reason. On an error the submission has not changed.
pub fn reject_submission(
    submission: &mut QuestSubmission,
    registry: &QuestRegistry,
    authority: &Identity,
    validator: &Identity,
    reason: String,
    now: i64,
) -> (rejected: Result<QuestRejectionEvent, XploraError>)
    ensures
        match reject_outcome(old(submission)@, registry@, authority@, validator@, reason@, now) {
            Ok(decided) => {
                &&& final(submission)@ == decided
                &&& rejected matches Ok(event)
                &&& event.user@ == decided.user
                &&& event.location@ == decided.location
                &&& event.quest_index == decided.quest_index
                &&& event.reason@ == reason@
                &&& event.timestamp == now
            },
            Err(error) => {
                &&& rejected == Err::<QuestRejectionEvent, XploraError>(error)
                &&& *final(submission) == *old(submission)
            },
        },
{
    if !registry.authority.same_as(authority) {
        return Err(XploraError::Unauthorized);
    }
    match submission.status {
        SubmissionStatus::Pending => {},
        _ => {
            return Err(XploraError::SubmissionNotPending);
        },
    }
    if !text_within(reason.as_str(), MAX_REASON_LEN) {
        return Err(XploraError::InvalidDescription);
    }
    submission.status = SubmissionStatus::Rejected;
    submission.validator = Some(*validator);
    submission.validated_at = Some(now);
    Ok(
        QuestRejectionEvent {
            user: submission.user,
            location: submission.location.clone(),
            quest_index: submission.quest_index,
            reason,
            timestamp: now,
        },
    )
}


/// A submission that is not pending is never rejected: the rejection fails, with
/// `SubmissionNotPending` where the authority is the registry's.
pub proof fn lemma_rejection_needs_pending(
    submission: SubmissionView,
    registry: RegistryView,
    authority: Seq<u8>,
    validator: Seq<u8>,
    reason: Seq<char>,
    now: i64,
)
    requires
        submission.status != SubmissionStatus::Pending,
    ensures
        reject_outcome(submission, registry, authority, validator, reason, now) is Err,
        registry.authority == authority ==> reject_outcome(
            submission,
            registry,
            authority,
            validator,
            reason,
            now,
        ) == Err::<SubmissionView, XploraError>(XploraError::SubmissionNotPending),
{
}

/// A rejection is final: the rejected submission holds the validator and the time, has
/// no reward if it had none, and every later rejection or approval of it fails, whoever
/// asks and whenever.
pub proof fn lemma_rejection_is_final(
    submission: SubmissionView,
    registry: RegistryView,
    authority: Seq<u8>,
    validator: Seq<u8>,
    reason: Seq<char>,
    now: i64,
)
    requires
        reject_outcome(submission, registry, authority, validator, reason, now) is Ok,
    ensures
        ({
            let decided = reject_outcome(
                submission,
                registry,
                authority,
                validator,
                reason,
                now,
            )->Ok_0;
            &&& submission.status == SubmissionStatus::Pending
            &&& decided.status == SubmissionStatus::Rejected
            &&& decided.validator == Some(validator)
            &&& decided.validated_at == Some(now)
            &&& decided.reward_amount == submission.reward_amount
            &&& submission.well_formed() ==> decided.well_formed()
            &&& forall|
                registry2: RegistryView,
                authority2: Seq<u8>,
                validator2: Seq<u8>,
                reason2: Seq<char>,
                later: i64,
            |
                (#[trigger] reject_outcome(
                    decided,
                    registry2,
                    authority2,
                    validator2,
                    reason2,
                    later,
                )) is Err
            &&& forall|
                catalog2: CatalogView,
                profile2: ProfileView,
                registry2: RegistryView,
                authority2: Seq<u8>,
                validator2: Seq<u8>,
                later: i64,
            |
                (#[trigger] approve_outcome(
                    decided,
                    catalog2,
                    profile2,
                    registry2,
                    authority2,
                    validator2,
                    later,
                )) is Err
        }),
{
}

} // verus!
