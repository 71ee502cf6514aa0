//! The errors of the store and the form in which failures are kept.

use crate::ids::{
    ArtifactId, Digest, FencingEpoch, HostId, LaunchAttemptId, MessageId, OperationId,
    ParticipantId, RequestId, SessionId, TemplateId,
};
use crate::time::Timestamp;
use vstd::prelude::*;
use vstd::std_specs::convert::FromSpecImpl;

verus! {

/// A resource whose use is limited per session and over the whole store.
#[derive(Clone, Copy, PartialEq, Eq, Debug, Structural)]
pub enum CapacityResource {
    Participants,
    ActiveOperations,
    QueuedOperations,
    Messages,
    MessageBytes,
    Artifacts,
    ArtifactBytes,
    Retries,
    RetainedEvents,
    PendingRequests,
    Subscriptions,
}

/// Which limit a request ran into.
#[derive(Clone, Copy, PartialEq, Eq, Debug, Structural)]
pub enum CapacityReason {
    SessionLimit { resource: CapacityResource },
    GlobalLimit { resource: CapacityResource },
}

/// Who owns a session.
#[derive(Clone, Copy, PartialEq, Eq, Debug, Structural)]
pub enum OwnershipSnapshot {
    Unowned,
    Owned { host_id: HostId, epoch: FencingEpoch, expires_at: Timestamp },
}

/// Why the store did not carry out a request.
#[allow(inconsistent_fields)]
#[derive(PartialEq, Eq, Debug)]
pub enum StoreError {
    SessionNotFound { session_id: SessionId },
    TemplateNotFound { template_id: TemplateId },
    ParticipantNotFound { participant_id: ParticipantId },
    RootParticipantNotFound { session_id: SessionId },
    OperationNotFound { operation_id: OperationId },
    SessionClosed { session_id: SessionId },
    AlreadyClosed { session_id: SessionId },
    CompatibilityConflict { session_id: SessionId, persisted: Digest, requested: Digest },
    InterruptedSession { session_id: SessionId },
    ConsumerConflict { session_id: SessionId, persisted: String, requested: String },
    RequestConflict { request_id: RequestId },
    OwnershipHeld { ownership: OwnershipSnapshot },
    OwnershipExpired { session_id: SessionId, epoch: FencingEpoch },
    StaleOwnership {
        session_id: SessionId,
        attempted: FencingEpoch,
        current: Option<FencingEpoch>,
    },
    LeaseTooLong,
    SchemaTooNew { found: u32, supported: u32 },
    Corrupt,
    Busy,
    Invalid,
    MessageNotFound { message_id: MessageId },
    ArtifactNotFound { artifact_id: ArtifactId },
    LaunchNotFound { attempt_id: LaunchAttemptId },
    MessageOversize,
    MailboxQuotaExceeded,
    CapacityExceeded { reason: CapacityReason },
    ProjectionStale,
    Unavailable,
}

/// A refused request: the error, and whether the refusal itself is kept in the request ledger.
///
/// A recorded refusal is committed, so that repeating the request gives the same error; any
/// other refusal rolls the transaction back.
#[derive(PartialEq, Eq, Debug)]
pub struct Refusal {
    pub error: StoreError,
    pub recorded: bool,
}

/// A failure as it is kept in the request ledger.
#[allow(inconsistent_fields)]
#[derive(PartialEq, Eq, Debug)]
pub enum FailureWire {
    SessionNotFound { session_id: SessionId },
    TemplateNotFound { template_id: TemplateId },
    ParticipantNotFound { participant_id: ParticipantId },
    RootParticipantNotFound { session_id: SessionId },
    OperationNotFound { operation_id: OperationId },
    SessionClosed { session_id: SessionId },
    AlreadyClosed { session_id: SessionId },
    CompatibilityConflict { session_id: SessionId, persisted: Digest, requested: Digest },
    InterruptedSession { session_id: SessionId },
    ConsumerConflict { session_id: SessionId, persisted: String, requested: String },
    RequestConflict { request_id: RequestId },
    OwnershipHeld { ownership: OwnershipSnapshot },
    OwnershipExpired { session_id: SessionId, epoch: FencingEpoch },
    StaleOwnership {
        session_id: SessionId,
        attempted: FencingEpoch,
        current: Option<FencingEpoch>,
    },
    LeaseTooLong,
    SchemaTooNew { found: u32, supported: u32 },
    Corrupt,
    Busy,
    Invalid,
    MessageNotFound { message_id: MessageId },
    ArtifactNotFound { artifact_id: ArtifactId },
    LaunchNotFound { attempt_id: LaunchAttemptId },
    MessageOversize,
    MailboxQuotaExceeded,
    CapacityExceeded { reason: CapacityReason },
    ProjectionStale,
    Unavailable,
}

/// The kept form of an error: the same variant with the same fields.
pub open spec fn wire_of(error: StoreError) -> FailureWire {
    match error {
        StoreError::SessionNotFound { session_id } => FailureWire::SessionNotFound { session_id },
        StoreError::TemplateNotFound { template_id } => {
            FailureWire::TemplateNotFound { template_id }
        },
        StoreError::ParticipantNotFound { participant_id } => {
            FailureWire::ParticipantNotFound { participant_id }
        },
        StoreError::RootParticipantNotFound { session_id } => {
            FailureWire::RootParticipantNotFound { session_id }
        },
        StoreError::OperationNotFound { operation_id } => {
            FailureWire::OperationNotFound { operation_id }
        },
        StoreError::SessionClosed { session_id } => FailureWire::SessionClosed { session_id },
        StoreError::AlreadyClosed { session_id } => FailureWire::AlreadyClosed { session_id },
        StoreError::CompatibilityConflict { session_id, persisted, requested } => {
            FailureWire::CompatibilityConflict { session_id, persisted, requested }
        },
        StoreError::InterruptedSession { session_id } => {
            FailureWire::InterruptedSession { session_id }
        },
        StoreError::ConsumerConflict { session_id, persisted, requested } => {
            FailureWire::ConsumerConflict { session_id, persisted, requested }
        },
        StoreError::RequestConflict { request_id } => FailureWire::RequestConflict { request_id },
        StoreError::OwnershipHeld { ownership } => FailureWire::OwnershipHeld { ownership },
        StoreError::OwnershipExpired { session_id, epoch } => {
            FailureWire::OwnershipExpired { session_id, epoch }
        },
        StoreError::StaleOwnership { session_id, attempted, current } => {
            FailureWire::StaleOwnership { session_id, attempted, current }
        },
        StoreError::LeaseTooLong => FailureWire::LeaseTooLong,
        StoreError::SchemaTooNew { found, supported } => {
            FailureWire::SchemaTooNew { found, supported }
        },
        StoreError::Corrupt => FailureWire::Corrupt,
        StoreError::Busy => FailureWire::Busy,
        StoreError::Invalid => FailureWire::Invalid,
        StoreError::MessageNotFound { message_id } => FailureWire::MessageNotFound { message_id },
        StoreError::ArtifactNotFound { artifact_id } => {
            FailureWire::ArtifactNotFound { artifact_id }
        },
        StoreError::LaunchNotFound { attempt_id } => FailureWire::LaunchNotFound { attempt_id },
        StoreError::MessageOversize => FailureWire::MessageOversize,
        StoreError::MailboxQuotaExceeded => FailureWire::MailboxQuotaExceeded,
        StoreError::CapacityExceeded { reason } => FailureWire::CapacityExceeded { reason },
        StoreError::ProjectionStale => FailureWire::ProjectionStale,
        StoreError::Unavailable => FailureWire::Unavailable,
    }
}

/// The error that a kept failure stands for: the same variant with the same fields.
pub open spec fn error_of(wire: FailureWire) -> StoreError {
    match wire {
        FailureWire::SessionNotFound { session_id } => StoreError::SessionNotFound { session_id },
        FailureWire::TemplateNotFound { template_id } => {
            StoreError::TemplateNotFound { template_id }
        },
        FailureWire::ParticipantNotFound { participant_id } => {
            StoreError::ParticipantNotFound { participant_id }
        },
        FailureWire::RootParticipantNotFound { session_id } => {
            StoreError::RootParticipantNotFound { session_id }
        },
        FailureWire::OperationNotFound { operation_id } => {
            StoreError::OperationNotFound { operation_id }
        },
        FailureWire::SessionClosed { session_id } => StoreError::SessionClosed { session_id },
        FailureWire::AlreadyClosed { session_id } => StoreError::AlreadyClosed { session_id },
        FailureWire::CompatibilityConflict { session_id, persisted, requested } => {
            StoreError::CompatibilityConflict { session_id, persisted, requested }
        },
        FailureWire::InterruptedSession { session_id } => {
            StoreError::InterruptedSession { session_id }
        },
        FailureWire::ConsumerConflict { session_id, persisted, requested } => {
            StoreError::ConsumerConflict { session_id, persisted, requested }
        },
        FailureWire::RequestConflict { request_id } => StoreError::RequestConflict { request_id },
        FailureWire::OwnershipHeld { ownership } => StoreError::OwnershipHeld { ownership },
        FailureWire::OwnershipExpired { session_id, epoch } => {
            StoreError::OwnershipExpired { session_id, epoch }
        },
        FailureWire::StaleOwnership { session_id, attempted, current } => {
            StoreError::StaleOwnership { session_id, attempted, current }
        },
        FailureWire::LeaseTooLong => StoreError::LeaseTooLong,
        FailureWire::SchemaTooNew { found, supported } => {
            StoreError::SchemaTooNew { found, supported }
        },
        FailureWire::Corrupt => StoreError::Corrupt,
        FailureWire::Busy => StoreError::Busy,
        FailureWire::Invalid => StoreError::Invalid,
        FailureWire::MessageNotFound { message_id } => StoreError::MessageNotFound { message_id },
        FailureWire::ArtifactNotFound { artifact_id } => {
            StoreError::ArtifactNotFound { artifact_id }
        },
        FailureWire::LaunchNotFound { attempt_id } => StoreError::LaunchNotFound { attempt_id },
        FailureWire::MessageOversize => StoreError::MessageOversize,
        FailureWire::MailboxQuotaExceeded => StoreError::MailboxQuotaExceeded,
        FailureWire::CapacityExceeded { reason } => StoreError::CapacityExceeded { reason },
        FailureWire::ProjectionStale => StoreError::ProjectionStale,
        FailureWire::Unavailable => StoreError::Unavailable,
    }
}

impl FromSpecImpl<&StoreError> for FailureWire {
    open spec fn obeys_from_spec() -> bool {
        true
    }

    open spec fn from_spec(error: &StoreError) -> FailureWire {
        wire_of(*error)
    }
}

impl From<&StoreError> for FailureWire {
    fn from(error: &StoreError) -> (wire: FailureWire) {
        match error {
            StoreError::SessionNotFound { session_id } => {
                FailureWire::SessionNotFound { session_id: *session_id }
            },
            StoreError::TemplateNotFound { template_id } => {
                FailureWire::TemplateNotFound { template_id: *template_id }
            },
            StoreError::ParticipantNotFound { participant_id } => {
                FailureWire::ParticipantNotFound { participant_id: *participant_id }
            },
            StoreError::RootParticipantNotFound { session_id } => {
                FailureWire::RootParticipantNotFound { session_id: *session_id }
            },
            StoreError::OperationNotFound { operation_id } => {
                FailureWire::OperationNotFound { operation_id: *operation_id }
            },
            StoreError::SessionClosed { session_id } => {
                FailureWire::SessionClosed { session_id: *session_id }
            },
            StoreError::AlreadyClosed { session_id } => {
                FailureWire::AlreadyClosed { session_id: *session_id }
            },
            StoreError::CompatibilityConflict { session_id, persisted, requested } => {
                FailureWire::CompatibilityConflict {
                    session_id: *session_id,
                    persisted: *persisted,
                    requested: *requested,
                }
            },
            StoreError::InterruptedSession { session_id } => {
                FailureWire::InterruptedSession { session_id: *session_id }
            },
            StoreError::ConsumerConflict { session_id, persisted, requested } => {
                FailureWire::ConsumerConflict {
                    session_id: *session_id,
                    persisted: persisted.clone(),
                    requested: requested.clone(),
                }
            },
            StoreError::RequestConflict { request_id } => {
                FailureWire::RequestConflict { request_id: *request_id }
            },
            StoreError::OwnershipHeld { ownership } => {
                FailureWire::OwnershipHeld { ownership: *ownership }
            },
            StoreError::OwnershipExpired { session_id, epoch } => {
                FailureWire::OwnershipExpired { session_id: *session_id, epoch: *epoch }
            },
            StoreError::StaleOwnership { session_id, attempted, current } => {
                FailureWire::StaleOwnership {
                    session_id: *session_id,
                    attempted: *attempted,
                    current: *current,
                }
            },
            StoreError::LeaseTooLong => FailureWire::LeaseTooLong,
            StoreError::SchemaTooNew { found, supported } => {
                FailureWire::SchemaTooNew { found: *found, supported: *supported }
            },
            StoreError::Corrupt => FailureWire::Corrupt,
            StoreError::Busy => FailureWire::Busy,
            StoreError::Invalid => FailureWire::Invalid,
            StoreError::MessageNotFound { message_id } => {
                FailureWire::MessageNotFound { message_id: *message_id }
            },
            StoreError::ArtifactNotFound { artifact_id } => {
                FailureWire::ArtifactNotFound { artifact_id: *artifact_id }
            },
            StoreError::LaunchNotFound { attempt_id } => {
                FailureWire::LaunchNotFound { attempt_id: *attempt_id }
            },
            StoreError::MessageOversize => FailureWire::MessageOversize,
            StoreError::MailboxQuotaExceeded => FailureWire::MailboxQuotaExceeded,
            StoreError::CapacityExceeded { reason } => {
                FailureWire::CapacityExceeded { reason: *reason }
            },
            StoreError::ProjectionStale => FailureWire::ProjectionStale,
            StoreError::Unavailable => FailureWire::Unavailable,
        }
    }
}

impl FromSpecImpl<FailureWire> for StoreError {
    open spec fn obeys_from_spec() -> bool {
        true
    }

    open spec fn from_spec(wire: FailureWire) -> StoreError {
        error_of(wire)
    }
}

impl From<FailureWire> for StoreError {
    fn from(wire: FailureWire) -> (error: StoreError) {
        match wire {
            FailureWire::SessionNotFound { session_id } => {
                StoreError::SessionNotFound { session_id }
            },
            FailureWire::TemplateNotFound { template_id } => {
                StoreError::TemplateNotFound { template_id }
            },
            FailureWire::ParticipantNotFound { participant_id } => {
                StoreError::ParticipantNotFound { participant_id }
            },
            FailureWire::RootParticipantNotFound { session_id } => {
                StoreError::RootParticipantNotFound { session_id }
            },
            FailureWire::OperationNotFound { operation_id } => {
                StoreError::OperationNotFound { operation_id }
            },
            FailureWire::SessionClosed { session_id } => StoreError::SessionClosed { session_id },
            FailureWire::AlreadyClosed { session_id } => StoreError::AlreadyClosed { session_id },
            FailureWire::CompatibilityConflict { session_id, persisted, requested } => {
                StoreError::CompatibilityConflict { session_id, persisted, requested }
            },
            FailureWire::InterruptedSession { session_id } => {
                StoreError::InterruptedSession { session_id }
            },
            FailureWire::ConsumerConflict { session_id, persisted, requested } => {
                StoreError::ConsumerConflict { session_id, persisted, requested }
            },
            FailureWire::RequestConflict { request_id } => {
                StoreError::RequestConflict { request_id }
            },
            FailureWire::OwnershipHeld { ownership } => StoreError::OwnershipHeld { ownership },
            FailureWire::OwnershipExpired { session_id, epoch } => {
                StoreError::OwnershipExpired { session_id, epoch }
            },
            FailureWire::StaleOwnership { session_id, attempted, current } => {
                StoreError::StaleOwnership { session_id, attempted, current }
            },
            FailureWire::LeaseTooLong => StoreError::LeaseTooLong,
            FailureWire::SchemaTooNew { found, supported } => {
                StoreError::SchemaTooNew { found, supported }
            },
            FailureWire::Corrupt => StoreError::Corrupt,
            FailureWire::Busy => StoreError::Busy,
            FailureWire::Invalid => StoreError::Invalid,
            FailureWire::MessageNotFound { message_id } => {
                StoreError::MessageNotFound { message_id }
            },
            FailureWire::ArtifactNotFound { artifact_id } => {
                StoreError::ArtifactNotFound { artifact_id }
            },
            FailureWire::LaunchNotFound { attempt_id } => StoreError::LaunchNotFound { attempt_id },
            FailureWire::MessageOversize => StoreError::MessageOversize,
            FailureWire::MailboxQuotaExceeded => StoreError::MailboxQuotaExceeded,
            FailureWire::CapacityExceeded { reason } => StoreError::CapacityExceeded { reason },
            FailureWire::ProjectionStale => StoreError::ProjectionStale,
            FailureWire::Unavailable => StoreError::Unavailable,
        }
    }
}

/// A failure read back from the ledger is the error that was written, and the other way round.
pub proof fn failures_read_back(error: StoreError, wire: FailureWire)
    ensures
        error_of(wire_of(error)) == error,
        wire_of(error_of(wire)) == wire,
{
}

} // verus!
