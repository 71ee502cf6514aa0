//! Recovery: what is found after a restart, and what is made of it.

use crate::effect::{EffectClass, EffectPhase};
use crate::error::StoreError;
use crate::ids::{digest_bytes, SessionId};
use crate::launch::LaunchState;
use crate::laws::words::{has_ended, is_settled};
use crate::mailbox::{DeliveryState, MessageSnapshot};
use crate::operation::OperationState;
use crate::recovery::{
    check_inventory_size, classified_rightly, recovery_effect_state, recovery_launch_state, recovery_message_state,
    recovery_operation_state, recovery_replay, unsettled_messages,
    validate_recovery_classifications, InventorySize, RecordedRecovery, RecoveredEntity,
    RecoveryClassification, RecoveryRequest, RecoveryState,
};
use crate::text::uuid_text;
use crate::time::Timestamp;
use vstd::prelude::*;

verus! {

/// A launch is classified by its own state.
pub proof fn launches_are_classified_by_their_state(value: LaunchState, state: RecoveryState)
    requires
        call_ensures(recovery_launch_state, (value,), state),
    ensures
        state is InstancePrepared <==> value is Prepared,
        state is InstanceAttached <==> value is Attached,
        state is InstanceReady <==> value is Ready,
        state is InstanceStopping <==> value is Stopping,
        state is InstanceStopped <==> value is Stopped,
        state is InstanceCleanupRequired <==> value is CleanupRequired,
{
}

/// An operation is classified by its own state, and as ended in whatever way it ended.
pub proof fn operations_are_classified_by_their_state(value: OperationState, state: RecoveryState)
    requires
        call_ensures(recovery_operation_state, (value,), state),
    ensures
        state is OperationQueued <==> value is Queued,
        state is OperationStarting <==> value is Starting,
        state is OperationRunning <==> value is Running,
        state is OperationWaiting <==> value is Waiting,
        state is OperationCancelling <==> value is Cancelling,
        state is OperationTerminal <==> has_ended(value),
{
}

/// A message is classified by its own state; one that is scheduled or leased, also by whether its
/// time has come.
pub proof fn messages_are_classified_by_their_state(
    value: DeliveryState,
    now: Timestamp,
    state: RecoveryState,
)
    requires
        call_ensures(recovery_message_state, (value, now), state),
    ensures
        state is MessageQueued <==> value is Queued,
        state is MessageRetryDeferred <==> value is RetryScheduled && now.spec_before(
            value->not_before,
        ),
        state is MessageRetryScheduled <==> value is RetryScheduled && !now.spec_before(
            value->not_before,
        ),
        state is MessageLeaseActive <==> value is Leased && now.spec_before(
            value->Leased_lease.expires_at,
        ),
        state is MessageLeased <==> value is Leased && !now.spec_before(
            value->Leased_lease.expires_at,
        ),
        state is MessageAcceptancePending <==> value is AcceptancePending,
        state is MessageAcceptanceUnknown <==> value is AcceptanceUnknown,
        state is MessageAccepted <==> value is Accepted,
        state is MessageUncertain <==> value is Uncertain,
        state is MessageDeadLetter <==> value is DeadLetter,
{
}

/// An effect that was started can be tried again only if it does no harm twice, or if that was
/// allowed; otherwise it is unsafe.
pub proof fn effects_are_classified_by_their_safety(
    value: EffectPhase,
    class: EffectClass,
    state: RecoveryState,
)
    requires
        call_ensures(recovery_effect_state, (value, class), state),
    ensures
        state is EffectReserved <==> value is Reserved,
        state is EffectCompleted <==> value is Completed || value is Failed,
        state is EffectStartedRetryable <==> value is RetryAuthorized || (value is Started && (
        class is ReadOnly || class is Idempotent)),
        state is EffectStartedUnsafe <==> value is Uncertain || (value is Started && (class
            is Transactional || class is NonIdempotent || class is Unknown)),
{
}

/// The row is of the session, and says of its entity what it is.
pub open spec fn says_what_it_is(
    row: RecoveryClassification,
    session_id: SessionId,
    now: Timestamp,
) -> bool {
    match row.entity {
        RecoveredEntity::Session(id) => id == session_id && row.state is SessionOpen,
        RecoveredEntity::Participant(found) => {
            &&& found matches Some(value)
            &&& value.session_id == session_id
            &&& row.state is ParticipantRegistered
        },
        RecoveredEntity::Instance(found) => {
            &&& found matches Some(value)
            &&& value.session_id == session_id
            &&& match value.state {
                LaunchState::Prepared => row.state is InstancePrepared,
                LaunchState::Attached => row.state is InstanceAttached,
                LaunchState::Ready => row.state is InstanceReady,
                LaunchState::Stopping => row.state is InstanceStopping,
                LaunchState::Stopped => row.state is InstanceStopped,
                LaunchState::CleanupRequired => row.state is InstanceCleanupRequired,
            }
        },
        RecoveredEntity::Operation(found) => {
            &&& found matches Some(value)
            &&& value.session_id == session_id
            &&& match value.state {
                OperationState::Queued => row.state is OperationQueued,
                OperationState::Starting => row.state is OperationStarting,
                OperationState::Running => row.state is OperationRunning,
                OperationState::Waiting => row.state is OperationWaiting,
                OperationState::Cancelling => row.state is OperationCancelling,
                _ => row.state is OperationTerminal,
            }
        },
        RecoveredEntity::Message(found) => {
            &&& found matches Some(value)
            &&& value.session_id == session_id
            &&& match value.state {
                DeliveryState::Queued => row.state is MessageQueued,
                DeliveryState::RetryScheduled { not_before } => if now.spec_before(not_before) {
                    row.state is MessageRetryDeferred
                } else {
                    row.state is MessageRetryScheduled
                },
                DeliveryState::Leased { lease } => if now.spec_before(lease.expires_at) {
                    row.state is MessageLeaseActive
                } else {
                    row.state is MessageLeased
                },
                DeliveryState::AcceptancePending { .. } => row.state is MessageAcceptancePending,
                DeliveryState::AcceptanceUnknown { .. } => row.state is MessageAcceptanceUnknown,
                DeliveryState::Accepted { .. } => row.state is MessageAccepted,
                DeliveryState::Uncertain { .. } => row.state is MessageUncertain,
                DeliveryState::DeadLetter { .. } => row.state is MessageDeadLetter,
            }
        },
        RecoveredEntity::Effect(found) => {
            &&& found matches Some(value)
            &&& value.session_id == session_id
            &&& match value.phase {
                EffectPhase::Reserved => row.state is EffectReserved,
                EffectPhase::RetryAuthorized => row.state is EffectStartedRetryable,
                EffectPhase::Started => if value.effect_class is ReadOnly || value.effect_class
                    is Idempotent {
                    row.state is EffectStartedRetryable
                } else {
                    row.state is EffectStartedUnsafe
                },
                EffectPhase::Uncertain => row.state is EffectStartedUnsafe,
                EffectPhase::Completed | EffectPhase::Failed => row.state is EffectCompleted,
            }
        },
    }
}

/// A classification is accepted exactly if each row is of the session, and says of its entity
/// what it is.
pub proof fn classifications_are_right(
    rows: Vec<RecoveryClassification>,
    session_id: SessionId,
    now: Timestamp,
    result: Result<(), StoreError>,
)
    requires
        call_ensures(validate_recovery_classifications, (&rows, session_id, now), result),
    ensures
        result is Ok <==> forall|i: int|
            0 <= i < rows@.len() ==> says_what_it_is(#[trigger] rows@[i], session_id, now),
        result matches Err(error) ==> error == StoreError::Invalid,
{
    assert forall|i: int| 0 <= i < rows@.len() implies says_what_it_is(
        #[trigger] rows@[i],
        session_id,
        now,
    ) == classified_rightly(rows@[i], session_id, now) by {}
    if result is Ok {
        assert forall|i: int| 0 <= i < rows@.len() implies says_what_it_is(
            #[trigger] rows@[i],
            session_id,
            now,
        ) by {
            assert(classified_rightly(rows@[i], session_id, now));
        }
    }
}

/// A recovery is repeated only by the same host, in the same epoch, for the same session and
/// with the same content.
pub proof fn recoveries_are_repeated_alike(
    request: RecoveryRequest,
    recorded: Option<RecordedRecovery>,
    result: Result<bool, StoreError>,
)
    requires
        call_ensures(recovery_replay, (request, recorded), result),
    ensures
        result == Ok::<bool, StoreError>(false) <==> recorded is None,
        result == Ok::<bool, StoreError>(true) <==> {
            &&& recorded matches Some(row)
            &&& row.session_id@ == uuid_text(request.session_id.0)
            &&& row.caller@ == uuid_text(request.caller.0)
            &&& row.digest@ == digest_bytes(request.digest)
            &&& row.owner_epoch == request.epoch.0
        },
        result is Err && request.epoch.0 <= i64::MAX ==> result == Err::<bool, StoreError>(
            StoreError::RequestConflict { request_id: request.request_id },
        ),
{
}

/// Everything that is classified, the session with it, stays within the limit.
pub proof fn inventories_are_bounded(
    size: InventorySize,
    max_classifications: u32,
    result: Result<(), StoreError>,
)
    requires
        call_ensures(check_inventory_size, (size, max_classifications), result),
    ensures
        result is Ok <==> size.launches + size.participants + size.operations + size.messages
            + size.effects < max_classifications,
        result matches Err(error) ==> error == StoreError::Invalid,
{
}

proof fn lemma_filter(messages: Seq<MessageSnapshot>, passes: spec_fn(MessageSnapshot) -> bool)
    ensures
        forall|i: int|
            0 <= i < messages.filter(passes).len() ==> passes(
                #[trigger] messages.filter(passes)[i],
            ) && messages.contains(messages.filter(passes)[i]),
        forall|i: int|
            0 <= i < messages.len() && passes(#[trigger] messages[i]) ==> messages.filter(
                passes,
            ).contains(messages[i]),
    decreases messages.len(),
{
    reveal(Seq::filter);
    if messages.len() > 0 {
        let earlier = messages.drop_last();
        lemma_filter(earlier, passes);
        let kept = messages.filter(passes);
        let before = earlier.filter(passes);
        assert forall|i: int| 0 <= i < kept.len() implies passes(#[trigger] kept[i])
            && messages.contains(kept[i]) by {
            if i < before.len() {
                assert(kept[i] == before[i]);
                assert(earlier.contains(before[i]));
                let j = choose|j: int| 0 <= j < earlier.len() && earlier[j] == before[i];
                assert(messages[j] == kept[i]);
            } else {
                assert(kept[i] == messages[messages.len() - 1]);
            }
        }
        assert forall|i: int|
            0 <= i < messages.len() && passes(#[trigger] messages[i]) implies kept.contains(
            messages[i],
        ) by {
            if i < earlier.len() {
                assert(earlier[i] == messages[i]);
                assert(before.contains(earlier[i]));
                let j = choose|j: int| 0 <= j < before.len() && before[j] == earlier[i];
                assert(kept[j] == messages[i]);
            } else {
                assert(kept[kept.len() - 1] == messages[i]);
            }
        }
    }
}

/// After a restart the messages that are not settled are looked after, all of them and no other.
pub proof fn open_messages_are_recovered(
    messages: Vec<MessageSnapshot>,
    index: int,
    unsettled: Vec<MessageSnapshot>,
)
    requires
        call_ensures(unsettled_messages, (&messages,), unsettled),
    ensures
        0 <= index < messages@.len() && !is_settled(messages@[index].state) ==> unsettled@.contains(
            messages@[index],
        ),
        0 <= index < unsettled@.len() ==> !is_settled(unsettled@[index].state)
            && messages@.contains(unsettled@[index]),
{
    lemma_filter(messages@, |message: MessageSnapshot| !message.state.terminal());
}

} // verus!
