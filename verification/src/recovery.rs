//! Recovery: what a new owner finds in a session, and how that is classified.

use crate::effect::{EffectClass, EffectEntry, EffectPhase};
use crate::error::StoreError;
use crate::ids::{
    digest_bytes, is_digest, is_identity, Digest, FencingEpoch, HostId, RequestId, SessionId,
};
use crate::launch::{LaunchSnapshot, LaunchState};
use crate::mailbox::{DeliveryState, MessageSnapshot};
use crate::operation::{OperationSnapshot, OperationState, ParticipantSnapshot};
use crate::text::uuid_text;
use crate::time::Timestamp;
use vstd::prelude::*;

verus! {

/// How something that is recovered stands.
#[derive(Clone, Copy, PartialEq, Eq, Debug, Structural)]
pub enum RecoveryState {
    SessionOpen,
    ParticipantRegistered,
    InstancePrepared,
    InstanceAttached,
    InstanceReady,
    InstanceStopping,
    InstanceStopped,
    InstanceCleanupRequired,
    OperationQueued,
    OperationStarting,
    OperationRunning,
    OperationWaiting,
    OperationCancelling,
    OperationTerminal,
    MessageQueued,
    MessageRetryScheduled,
    MessageRetryDeferred,
    MessageLeased,
    MessageLeaseActive,
    MessageAcceptancePending,
    MessageAcceptanceUnknown,
    MessageAccepted,
    MessageUncertain,
    MessageDeadLetter,
    EffectReserved,
    EffectStartedRetryable,
    EffectStartedUnsafe,
    EffectCompleted,
}

/// How a launch stands for recovery.
pub open spec fn launch_class(state: LaunchState) -> RecoveryState {
    match state {
        LaunchState::Prepared => RecoveryState::InstancePrepared,
        LaunchState::Attached => RecoveryState::InstanceAttached,
        LaunchState::Ready => RecoveryState::InstanceReady,
        LaunchState::Stopping => RecoveryState::InstanceStopping,
        LaunchState::Stopped => RecoveryState::InstanceStopped,
        LaunchState::CleanupRequired => RecoveryState::InstanceCleanupRequired,
    }
}

/// How a launch stands for recovery.
pub fn recovery_launch_state(value: LaunchState) -> (state: RecoveryState)
    ensures
        state == launch_class(value),
{
    match value {
        LaunchState::Prepared => RecoveryState::InstancePrepared,
        LaunchState::Attached => RecoveryState::InstanceAttached,
        LaunchState::Ready => RecoveryState::InstanceReady,
        LaunchState::Stopping => RecoveryState::InstanceStopping,
        LaunchState::Stopped => RecoveryState::InstanceStopped,
        LaunchState::CleanupRequired => RecoveryState::InstanceCleanupRequired,
    }
}

/// How an operation stands for recovery: one that is uncertain counts as over, like one that
/// ended.
pub open spec fn operation_class(state: OperationState) -> RecoveryState {
    match state {
        OperationState::Queued => RecoveryState::OperationQueued,
        OperationState::Starting => RecoveryState::OperationStarting,
        OperationState::Running => RecoveryState::OperationRunning,
        OperationState::Waiting => RecoveryState::OperationWaiting,
        OperationState::Cancelling => RecoveryState::OperationCancelling,
        _ => RecoveryState::OperationTerminal,
    }
}

/// How an operation stands for recovery.
pub fn recovery_operation_state(value: OperationState) -> (state: RecoveryState)
    ensures
        state == operation_class(value),
{
    match value {
        OperationState::Queued => RecoveryState::OperationQueued,
        OperationState::Starting => RecoveryState::OperationStarting,
        OperationState::Running => RecoveryState::OperationRunning,
        OperationState::Waiting => RecoveryState::OperationWaiting,
        OperationState::Cancelling => RecoveryState::OperationCancelling,
        _ => RecoveryState::OperationTerminal,
    }
}

/// How a message stands for recovery: a retry that is due differs from one that is not, and a
/// lease that has ended from one that holds.
pub open spec fn message_class(state: DeliveryState, now: Timestamp) -> RecoveryState {
    match state {
        DeliveryState::Queued => RecoveryState::MessageQueued,
        DeliveryState::RetryScheduled { not_before } => if now.spec_before(not_before) {
            RecoveryState::MessageRetryDeferred
        } else {
            RecoveryState::MessageRetryScheduled
        },
        DeliveryState::Leased { lease } => if now.spec_before(lease.expires_at) {
            RecoveryState::MessageLeaseActive
        } else {
            RecoveryState::MessageLeased
        },
        DeliveryState::AcceptancePending { .. } => RecoveryState::MessageAcceptancePending,
        DeliveryState::AcceptanceUnknown { .. } => RecoveryState::MessageAcceptanceUnknown,
        DeliveryState::Accepted { .. } => RecoveryState::MessageAccepted,
        DeliveryState::Uncertain { .. } => RecoveryState::MessageUncertain,
        DeliveryState::DeadLetter { .. } => RecoveryState::MessageDeadLetter,
    }
}

/// How a message stands for recovery.
pub fn recovery_message_state(value: DeliveryState, now: Timestamp) -> (state: RecoveryState)
    ensures
        state == message_class(value, now),
{
    match value {
        DeliveryState::Queued => RecoveryState::MessageQueued,
        DeliveryState::RetryScheduled { not_before } => if now.before(not_before) {
            RecoveryState::MessageRetryDeferred
        } else {
            RecoveryState::MessageRetryScheduled
        },
        DeliveryState::Leased { lease } => if now.before(lease.expires_at) {
            RecoveryState::MessageLeaseActive
        } else {
            RecoveryState::MessageLeased
        },
        DeliveryState::AcceptancePending { .. } => RecoveryState::MessageAcceptancePending,
        DeliveryState::AcceptanceUnknown { .. } => RecoveryState::MessageAcceptanceUnknown,
        DeliveryState::Accepted { .. } => RecoveryState::MessageAccepted,
        DeliveryState::Uncertain { .. } => RecoveryState::MessageUncertain,
        DeliveryState::DeadLetter { .. } => RecoveryState::MessageDeadLetter,
    }
}

/// How an effect stands for recovery: one that was started may be tried again only where that
/// does no harm, or was authorized.
pub open spec fn effect_class(phase: EffectPhase, class: EffectClass) -> RecoveryState {
    match phase {
        EffectPhase::Reserved => RecoveryState::EffectReserved,
        EffectPhase::RetryAuthorized => RecoveryState::EffectStartedRetryable,
        EffectPhase::Started => if class == EffectClass::ReadOnly || class
            == EffectClass::Idempotent {
            RecoveryState::EffectStartedRetryable
        } else {
            RecoveryState::EffectStartedUnsafe
        },
        EffectPhase::Uncertain => RecoveryState::EffectStartedUnsafe,
        EffectPhase::Completed | EffectPhase::Failed => RecoveryState::EffectCompleted,
    }
}

/// How an effect stands for recovery.
pub fn recovery_effect_state(value: EffectPhase, class: EffectClass) -> (state: RecoveryState)
    ensures
        state == effect_class(value, class),
{
    match value {
        EffectPhase::Reserved => RecoveryState::EffectReserved,
        EffectPhase::RetryAuthorized => RecoveryState::EffectStartedRetryable,
        EffectPhase::Started => if class == EffectClass::ReadOnly || class
            == EffectClass::Idempotent {
            RecoveryState::EffectStartedRetryable
        } else {
            RecoveryState::EffectStartedUnsafe
        },
        EffectPhase::Uncertain => RecoveryState::EffectStartedUnsafe,
        EffectPhase::Completed | EffectPhase::Failed => RecoveryState::EffectCompleted,
    }
}

/// Something that is classified, as it was found under its identity.
#[derive(Clone, Copy, PartialEq, Eq, Debug, Structural)]
pub enum RecoveredEntity {
    Session(SessionId),
    Participant(Option<ParticipantSnapshot>),
    Instance(Option<LaunchSnapshot>),
    Operation(Option<OperationSnapshot>),
    Message(Option<MessageSnapshot>),
    Effect(Option<EffectEntry>),
}

/// A classification: what it is about, and how that is said to stand.
#[derive(Clone, Copy, PartialEq, Eq, Debug, Structural)]
pub struct RecoveryClassification {
    pub entity: RecoveredEntity,
    pub state: RecoveryState,
}

/// Whether a classification is right: what it is about is there, in the session, and stands as
/// it says.
pub open spec fn classified_rightly(
    row: RecoveryClassification,
    session_id: SessionId,
    now: Timestamp,
) -> bool {
    match row.entity {
        RecoveredEntity::Session(id) => id == session_id && row.state == RecoveryState::SessionOpen,
        RecoveredEntity::Participant(found) => found matches Some(value) && value.session_id
            == session_id && row.state == RecoveryState::ParticipantRegistered,
        RecoveredEntity::Instance(found) => found matches Some(value) && value.session_id
            == session_id && row.state == launch_class(value.state),
        RecoveredEntity::Operation(found) => found matches Some(value) && value.session_id
            == session_id && row.state == operation_class(value.state),
        RecoveredEntity::Message(found) => found matches Some(value) && value.session_id
            == session_id && row.state == message_class(value.state, now),
        RecoveredEntity::Effect(found) => found matches Some(value) && value.session_id
            == session_id && row.state == effect_class(value.phase, value.effect_class),
    }
}

fn is_classified_rightly(
    row: RecoveryClassification,
    session_id: SessionId,
    now: Timestamp,
) -> (result: bool)
    ensures
        result == classified_rightly(row, session_id, now),
{
    match row.entity {
        RecoveredEntity::Session(id) => id == session_id && row.state == RecoveryState::SessionOpen,
        RecoveredEntity::Participant(Some(value)) => value.session_id == session_id && row.state
            == RecoveryState::ParticipantRegistered,
        RecoveredEntity::Instance(Some(value)) => value.session_id == session_id && row.state
            == recovery_launch_state(value.state),
        RecoveredEntity::Operation(Some(value)) => value.session_id == session_id && row.state
            == recovery_operation_state(value.state),
        RecoveredEntity::Message(Some(value)) => value.session_id == session_id && row.state
            == recovery_message_state(value.state, now),
        RecoveredEntity::Effect(Some(value)) => value.session_id == session_id && row.state
            == recovery_effect_state(value.phase, value.effect_class),
        _ => false,
    }
}

/// Every row says what the state of its entity makes of it.
pub open spec fn all_classified_rightly(
    rows: Seq<RecoveryClassification>,
    session_id: SessionId,
    now: Timestamp,
) -> bool {
    forall|i: int|
        0 <= i < rows.len() ==> classified_rightly(#[trigger] rows[i], session_id, now)
}

/// Checks classifications, at the time floor of the session: all must be right.
pub fn validate_recovery_classifications(
    rows: &Vec<RecoveryClassification>,
    session_id: SessionId,
    now: Timestamp,
) -> (result: Result<(), StoreError>)
    ensures
        result == (if all_classified_rightly(rows@, session_id, now) {
            Ok::<(), StoreError>(())
        } else {
            Err(StoreError::Invalid)
        }),
{
    let mut index: usize = 0;
    while index < rows.len()
        invariant
            index <= rows.len(),
            forall|i: int|
                0 <= i < index ==> classified_rightly(#[trigger] rows[i], session_id, now),
        decreases rows.len() - index,
    {
        if !is_classified_rightly(rows[index], session_id, now) {
            assert(!classified_rightly(rows@[index as int], session_id, now));
            return Err(StoreError::Invalid);
        }
        index = index + 1;
    }
    Ok(())
}

/// A request to record classifications.
#[derive(Clone, Copy, PartialEq, Eq, Debug, Structural)]
pub struct RecoveryRequest {
    pub request_id: RequestId,
    pub session_id: SessionId,
    pub caller: HostId,
    pub epoch: FencingEpoch,
    /// The digest of the classifications.
    pub digest: Digest,
}

/// Recorded classifications, as they are stored: the texts of the identities, and the bytes of the
/// digest.
pub struct RecordedRecovery {
    pub session_id: String,
    pub caller: String,
    pub owner_epoch: i64,
    pub digest: Vec<u8>,
}

/// Whether classifications were recorded before; other ones under the same identity conflict.
pub open spec fn recovery_replay_outcome(
    request: RecoveryRequest,
    recorded: Option<RecordedRecovery>,
) -> Result<bool, StoreError> {
    match recorded {
        None => Ok(false),
        Some(row) => if row.digest@ != digest_bytes(request.digest) || row.session_id@
            != uuid_text(request.session_id.0) || row.caller@ != uuid_text(request.caller.0) {
            Err(StoreError::RequestConflict { request_id: request.request_id })
        } else if request.epoch.0 > i64::MAX {
            Err(StoreError::Corrupt)
        } else if row.owner_epoch != request.epoch.0 {
            Err(StoreError::RequestConflict { request_id: request.request_id })
        } else {
            Ok(true)
        },
    }
}

/// Finds whether classifications were recorded before.
pub fn recovery_replay(request: RecoveryRequest, recorded: Option<RecordedRecovery>) -> (result:
    Result<bool, StoreError>)
    ensures
        result == recovery_replay_outcome(request, recorded),
{
    match recorded {
        None => Ok(false),
        Some(row) => {
            if !is_digest(&row.digest, request.digest) || !is_identity(
                row.session_id.as_str(),
                request.session_id.0,
            ) || !is_identity(row.caller.as_str(), request.caller.0) {
                return Err(StoreError::RequestConflict { request_id: request.request_id });
            }
            if request.epoch.0 > i64::MAX as u64 {
                return Err(StoreError::Corrupt);
            }
            if row.owner_epoch != request.epoch.0 as i64 {
                return Err(StoreError::RequestConflict { request_id: request.request_id });
            }
            Ok(true)
        },
    }
}

/// How much was found to recover.
#[derive(Clone, Copy, PartialEq, Eq, Debug, Structural)]
pub struct InventorySize {
    pub launches: u32,
    pub participants: u32,
    pub operations: u32,
    pub messages: u32,
    pub effects: u32,
}

/// Checks that an inventory, with the session itself, is not too large to classify.
pub fn check_inventory_size(size: InventorySize, max_classifications: u32) -> (result: Result<
    (),
    StoreError,
>)
    ensures
        result == (if 1 + size.launches + size.participants + size.operations + size.messages
            + size.effects > max_classifications {
            Err::<(), StoreError>(StoreError::Invalid)
        } else {
            Ok(())
        }),
{
    let total: u64 = 1 + size.launches as u64 + size.participants as u64 + size.operations as u64
        + size.messages as u64 + size.effects as u64;
    if total > max_classifications as u64 {
        Err(StoreError::Invalid)
    } else {
        Ok(())
    }
}

/// The messages of an inventory: those that are not settled.
pub fn unsettled_messages(messages: &Vec<MessageSnapshot>) -> (unsettled: Vec<MessageSnapshot>)
    ensures
        unsettled@ == messages@.filter(|message: MessageSnapshot| !message.state.terminal()),
{
    let ghost unsettled_only = |message: MessageSnapshot| !message.state.terminal();
    let mut unsettled: Vec<MessageSnapshot> = Vec::new();
    let mut index: usize = 0;
    while index < messages.len()
        invariant
            index <= messages.len(),
            unsettled_only == (|message: MessageSnapshot| !message.state.terminal()),
            unsettled@ == messages@.take(index as int).filter(unsettled_only),
        decreases messages.len() - index,
    {
        let message: MessageSnapshot = messages[index];
        if !message.state.is_terminal() {
            unsettled.push(message);
        }
        proof {
            let next = messages@.take(index + 1);
            assert(next.drop_last() =~= messages@.take(index as int));
            reveal(Seq::filter);
        }
        index = index + 1;
    }
    assert(messages@.take(index as int) =~= messages@);
    unsettled
}

/// An effect is held safe to try again only if trying it again does no harm by its class, or was
/// authorized.
pub proof fn only_safe_effects_are_retryable(phase: EffectPhase, class: EffectClass)
    requires
        effect_class(phase, class) == RecoveryState::EffectStartedRetryable,
    ensures
        phase == EffectPhase::RetryAuthorized || class == EffectClass::ReadOnly || class
            == EffectClass::Idempotent,
{
}

/// For everything that is there, exactly one classification is right.
pub proof fn classifications_are_determined(
    entity: RecoveredEntity,
    left: RecoveryState,
    right: RecoveryState,
    session_id: SessionId,
    now: Timestamp,
)
    requires
        classified_rightly(RecoveryClassification { entity, state: left }, session_id, now),
        classified_rightly(RecoveryClassification { entity, state: right }, session_id, now),
    ensures
        left == right,
{
}

} // verus!
