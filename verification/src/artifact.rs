//! Artifacts: what operations leave behind, and how that is given up again.

use crate::capacity::{
    capacity_obstacle, consume_capacity_reservation, consumption_outcome, ensure_derived_capacity,
    CapacityLimit, CapacityUsage, ReserveCapacity, StoredReservation,
};
use crate::error::{CapacityResource, StoreError};
use crate::ids::{
    decode_revision, to_u64, ArtifactId, Digest, OperationId, ParticipantId, RequestId, Revision,
    SessionId,
};
use crate::operation::{OperationSnapshot, ParticipantSnapshot};
use crate::session::{column_instant, instant_columns};
use crate::text::{format_uuid, same_text, text_mark, uuid_text};
use crate::time::{decode_timestamp, Timestamp};
use vstd::prelude::*;

verus! {

/// Where an artifact stands.
#[derive(Clone, Copy, PartialEq, Eq, Debug, Structural)]
pub enum ArtifactState {
    Available,
    LogicallyDeleted,
    PhysicallyErased,
}

/// The stored name of a state.
pub open spec fn artifact_text(value: ArtifactState) -> Seq<char> {
    match value {
        ArtifactState::Available => "available"@,
        ArtifactState::LogicallyDeleted => "logically_deleted"@,
        ArtifactState::PhysicallyErased => "physically_erased"@,
    }
}

/// The stored name of a state.
pub fn artifact_state_name(value: ArtifactState) -> (name: &'static str)
    ensures
        name@ == artifact_text(value),
{
    match value {
        ArtifactState::Available => "available",
        ArtifactState::LogicallyDeleted => "logically_deleted",
        ArtifactState::PhysicallyErased => "physically_erased",
    }
}

/// Reads the stored name of a state; any other text is corruption.
pub fn parse_artifact_state(value: &str) -> (result: Result<ArtifactState, StoreError>)
    ensures
        match result {
            Ok(found) => artifact_text(found) == value@,
            Err(error) => error == StoreError::Corrupt && forall|other: ArtifactState|
                #[trigger] artifact_text(other) != value@,
        },
{
    if same_text(value, "available") {
        Ok(ArtifactState::Available)
    } else if same_text(value, "logically_deleted") {
        Ok(ArtifactState::LogicallyDeleted)
    } else if same_text(value, "physically_erased") {
        Ok(ArtifactState::PhysicallyErased)
    } else {
        Err(StoreError::Corrupt)
    }
}

/// A stored name stands for one value only, so a name that was written is read back as the
/// value it was written for.
pub proof fn artifact_state_names_are_distinct(left: ArtifactState, right: ArtifactState)
    requires
        artifact_text(left) == artifact_text(right),
    ensures
        left == right,
{
    reveal_strlit("available");
    reveal_strlit("logically_deleted");
    reveal_strlit("physically_erased");
    assert(text_mark(artifact_text(left)) == text_mark(artifact_text(right)));
}

/// An artifact. Its media type is known by the digest of its text, and its locator follows from
/// its identity.
#[derive(Clone, Copy, PartialEq, Eq, Debug, Structural)]
pub struct ArtifactSnapshot {
    pub artifact_id: ArtifactId,
    pub session_id: SessionId,
    pub creator_participant_id: ParticipantId,
    pub creator_operation_id: OperationId,
    pub media_type: Digest,
    pub size: u64,
    pub digest: Digest,
    pub state: ArtifactState,
    pub revision: Revision,
    pub retention_until: Timestamp,
    pub created_at: Timestamp,
    pub deleted_at: Option<Timestamp>,
}

/// The locator of an artifact.
pub open spec fn locator(session_id: SessionId, artifact_id: ArtifactId) -> Seq<char> {
    uuid_text(session_id.0) + "/"@ + uuid_text(artifact_id.0) + ".blob"@
}

/// The locator of an artifact.
pub fn artifact_locator(session_id: SessionId, artifact_id: ArtifactId) -> (text: String)
    ensures
        text@ == locator(session_id, artifact_id),
{
    let mut text: String = format_uuid(session_id.0);
    let artifact: String = format_uuid(artifact_id.0);
    text.append("/");
    text.append(artifact.as_str());
    text.append(".blob");
    text
}

/// The stored columns of an artifact, but for its state.
#[derive(Clone, Copy, PartialEq, Eq, Debug)]
pub struct ArtifactColumns {
    pub artifact_id: ArtifactId,
    pub session_id: SessionId,
    pub creator_participant_id: Option<ParticipantId>,
    pub creator_operation_id: Option<OperationId>,
    pub media_type: Digest,
    pub size: i64,
    pub digest: Digest,
    pub revision: i64,
    pub retention: (i64, i64),
    pub created: (i64, i64),
    pub deleted: (Option<i64>, Option<i64>),
}

/// Whether the two halves of the time of a deletion are both there and sound, or neither.
pub open spec fn deletion_sound(deleted: (Option<i64>, Option<i64>)) -> bool {
    match deleted {
        (None, None) => true,
        (Some(seconds), Some(nanos)) => instant_columns((seconds, nanos)),
        _ => false,
    }
}

/// When an artifact was deleted.
pub open spec fn deletion(deleted: (Option<i64>, Option<i64>)) -> Option<Timestamp> {
    match deleted {
        (Some(seconds), Some(nanos)) => Some(column_instant((seconds, nanos))),
        _ => None,
    }
}

/// Whether the stored columns of an artifact can be read.
pub open spec fn artifact_columns_sound(columns: ArtifactColumns) -> bool {
    &&& columns.creator_participant_id is Some
    &&& columns.creator_operation_id is Some
    &&& columns.size >= 0
    &&& columns.revision >= 1
    &&& instant_columns(columns.retention)
    &&& instant_columns(columns.created)
    &&& deletion_sound(columns.deleted)
}

/// The artifact that stored columns hold.
pub open spec fn artifact_in(columns: ArtifactColumns, state: ArtifactState) -> ArtifactSnapshot {
    ArtifactSnapshot {
        artifact_id: columns.artifact_id,
        session_id: columns.session_id,
        creator_participant_id: columns.creator_participant_id->Some_0,
        creator_operation_id: columns.creator_operation_id->Some_0,
        media_type: columns.media_type,
        size: columns.size as u64,
        digest: columns.digest,
        state,
        revision: Revision(columns.revision as u64),
        retention_until: column_instant(columns.retention),
        created_at: column_instant(columns.created),
        deleted_at: deletion(columns.deleted),
    }
}

/// Reads an artifact: columns that do not hold one are corruption.
///
/// `well_formed` tells whether the columns are accepted by their types, and the artifact that
/// they hold is structurally valid.
pub fn decode_artifact(columns: ArtifactColumns, state: &str, well_formed: bool) -> (result: Result<
    ArtifactSnapshot,
    StoreError,
>)
    ensures
        match result {
            Ok(snapshot) => {
                &&& well_formed
                &&& artifact_columns_sound(columns)
                &&& artifact_text(snapshot.state) == state@
                &&& snapshot == artifact_in(columns, snapshot.state)
            },
            Err(error) => {
                &&& error == StoreError::Corrupt
                &&& (!well_formed || !artifact_columns_sound(columns) || forall|
                    other: ArtifactState,
                |
                    #[trigger] artifact_text(other) != state@)
            },
        },
{
    if !well_formed {
        return Err(StoreError::Corrupt);
    }
    let state: ArtifactState = match parse_artifact_state(state) {
        Ok(state) => state,
        Err(error) => {
            return Err(error);
        },
    };
    let (participant, operation): (ParticipantId, OperationId) = match (
        columns.creator_participant_id,
        columns.creator_operation_id,
    ) {
        (Some(participant), Some(operation)) => (participant, operation),
        _ => {
            return Err(StoreError::Corrupt);
        },
    };
    let deleted_at: Option<Timestamp> = match columns.deleted {
        (None, None) => None,
        (Some(seconds), Some(nanos)) => match decode_timestamp(seconds, nanos) {
            Ok(instant) => Some(instant),
            Err(error) => {
                return Err(error);
            },
        },
        _ => {
            return Err(StoreError::Corrupt);
        },
    };
    match (
        to_u64(columns.size),
        decode_revision(columns.revision),
        decode_timestamp(columns.retention.0, columns.retention.1),
        decode_timestamp(columns.created.0, columns.created.1),
    ) {
        (Ok(size), Ok(revision), Ok(retention_until), Ok(created_at)) => Ok(
            ArtifactSnapshot {
                artifact_id: columns.artifact_id,
                session_id: columns.session_id,
                creator_participant_id: participant,
                creator_operation_id: operation,
                media_type: columns.media_type,
                size,
                digest: columns.digest,
                state,
                revision,
                retention_until,
                created_at,
                deleted_at,
            },
        ),
        _ => Err(StoreError::Corrupt),
    }
}

/// A wish to publish an artifact.
#[derive(Clone, Copy, PartialEq, Eq, Debug, Structural)]
pub struct PublishArtifact {
    pub session_id: SessionId,
    pub artifact_id: ArtifactId,
    pub creator_participant_id: ParticipantId,
    pub creator_operation_id: OperationId,
    pub media_type: Digest,
    pub size: u64,
    pub digest: Digest,
    pub retention_until: Timestamp,
    pub artifact_reservation_id: RequestId,
    pub byte_reservation_id: Option<RequestId>,
}

/// What was found of a resource that publishing takes: the reservation, the reserved amounts
/// where they are kept, what the stored rows amount to, and the limits.
#[derive(Clone, Copy, PartialEq, Eq, Debug, Structural)]
pub struct ResourceFacts {
    pub stored: Option<StoredReservation>,
    pub session_reserved: Option<i64>,
    pub global_reserved: Option<i64>,
    pub derived_session: u64,
    pub derived_global: u64,
    pub limit: CapacityLimit,
}

/// What was found for a wish to publish.
#[derive(Clone, Copy, PartialEq, Eq, Debug, Structural)]
pub struct PublishFacts {
    pub creator: Option<ParticipantSnapshot>,
    pub operation: Option<OperationSnapshot>,
    /// Whether the artifact is well formed.
    pub structurally_valid: bool,
    pub artifacts: ResourceFacts,
    pub bytes: ResourceFacts,
    pub max_bytes: u64,
}

/// An artifact to be written, and the reserved amounts that remain for artifacts and, where
/// some were used, for bytes.
#[derive(Clone, Copy, PartialEq, Eq, Debug)]
pub struct PublishPlan {
    pub artifact: ArtifactSnapshot,
    pub artifacts_reserved: (i64, i64),
    pub bytes_reserved: Option<(i64, i64)>,
}

/// An artifact that was just published.
pub open spec fn published(command: PublishArtifact, now: Timestamp) -> ArtifactSnapshot {
    ArtifactSnapshot {
        artifact_id: command.artifact_id,
        session_id: command.session_id,
        creator_participant_id: command.creator_participant_id,
        creator_operation_id: command.creator_operation_id,
        media_type: command.media_type,
        size: command.size,
        digest: command.digest,
        state: ArtifactState::Available,
        revision: Revision(1),
        retention_until: command.retention_until,
        created_at: now,
        deleted_at: None,
    }
}

/// The reservation that publishing takes up.
pub open spec fn taken_up(
    command: PublishArtifact,
    reservation_id: RequestId,
    resource: CapacityResource,
    amount: u64,
) -> ReserveCapacity {
    ReserveCapacity {
        reservation_id,
        session_id: command.session_id,
        campaign_id: command.creator_participant_id,
        resource,
        amount,
    }
}

/// The use of a resource with given reserved amounts.
pub open spec fn usage(facts: ResourceFacts, reserved: (i64, i64)) -> CapacityUsage {
    CapacityUsage {
        derived_session: facts.derived_session,
        derived_global: facts.derived_global,
        reserved_session: reserved.0,
        reserved_global: reserved.1,
    }
}

/// The reserved amounts as they are kept.
pub open spec fn reserved(facts: ResourceFacts) -> (i64, i64) {
    (
        match facts.session_reserved {
            Some(amount) => amount,
            None => 0,
        },
        match facts.global_reserved {
            Some(amount) => amount,
            None => 0,
        },
    )
}

/// How the bytes of an artifact are paid for: an empty one takes no reservation, any other takes
/// up exactly one of its size. What remains reserved, where something was taken.
pub open spec fn paid_bytes(command: PublishArtifact, bytes: ResourceFacts) -> Result<
    Option<(i64, i64)>,
    StoreError,
> {
    match command.byte_reservation_id {
        None => if command.size == 0 {
            Ok(None)
        } else {
            Err(StoreError::Invalid)
        },
        Some(id) => if command.size == 0 {
            Err(StoreError::Invalid)
        } else {
            match consumption_outcome(
                taken_up(command, id, CapacityResource::ArtifactBytes, command.size),
                bytes.stored,
                bytes.session_reserved,
                bytes.global_reserved,
            ) {
                Ok(remaining) => Ok(Some(remaining)),
                Err(error) => Err(error),
            }
        },
    }
}

/// Whether a wish to publish is in order, but for what it takes of the limits.
pub open spec fn publish_obstacle(
    command: PublishArtifact,
    named_locator: Seq<char>,
    facts: PublishFacts,
) -> Option<StoreError> {
    match (facts.creator, facts.operation) {
        (None, _) => Some(
            StoreError::ParticipantNotFound { participant_id: command.creator_participant_id },
        ),
        (_, None) => Some(
            StoreError::OperationNotFound { operation_id: command.creator_operation_id },
        ),
        (Some(creator), Some(operation)) => if creator.session_id != command.session_id
            || operation.session_id != command.session_id || operation.participant_id
            != command.creator_participant_id || named_locator != locator(
            command.session_id,
            command.artifact_id,
        ) || command.size > facts.max_bytes || !facts.structurally_valid {
            Some(StoreError::Invalid)
        } else {
            None
        },
    }
}

/// The outcome of a wish to publish an artifact.
///
/// It takes up a reservation of one artifact and one of its bytes, and then fits within the
/// limits.
pub open spec fn publish_outcome(
    command: PublishArtifact,
    named_locator: Seq<char>,
    facts: PublishFacts,
    now: Timestamp,
) -> Result<PublishPlan, StoreError> {
    if publish_obstacle(command, named_locator, facts) is Some {
        Err(publish_obstacle(command, named_locator, facts)->Some_0)
    } else {
        match consumption_outcome(
            taken_up(command, command.artifact_reservation_id, CapacityResource::Artifacts, 1),
            facts.artifacts.stored,
            facts.artifacts.session_reserved,
            facts.artifacts.global_reserved,
        ) {
            Err(error) => Err(error),
            Ok(artifacts_reserved) => match paid_bytes(command, facts.bytes) {
                Err(error) => Err(error),
                Ok(bytes_reserved) => {
                    let bytes = match bytes_reserved {
                        Some(remaining) => remaining,
                        None => reserved(facts.bytes),
                    };
                    match (
                        capacity_obstacle(
                            CapacityResource::Artifacts,
                            usage(facts.artifacts, artifacts_reserved),
                            facts.artifacts.limit,
                            1,
                        ),
                        capacity_obstacle(
                            CapacityResource::ArtifactBytes,
                            usage(facts.bytes, bytes),
                            facts.bytes.limit,
                            command.size,
                        ),
                    ) {
                        (Some(error), _) => Err(error),
                        (None, Some(error)) => Err(error),
                        (None, None) => Ok(
                            PublishPlan {
                                artifact: published(command, now),
                                artifacts_reserved,
                                bytes_reserved,
                            },
                        ),
                    }
                },
            },
        }
    }
}

fn pay_bytes(command: PublishArtifact, bytes: ResourceFacts) -> (result: Result<
    Option<(i64, i64)>,
    StoreError,
>)
    ensures
        result == paid_bytes(command, bytes),
{
    match command.byte_reservation_id {
        None => if command.size == 0 {
            Ok(None)
        } else {
            Err(StoreError::Invalid)
        },
        Some(reservation_id) => {
            if command.size == 0 {
                return Err(StoreError::Invalid);
            }
            match consume_capacity_reservation(
                ReserveCapacity {
                    reservation_id,
                    session_id: command.session_id,
                    campaign_id: command.creator_participant_id,
                    resource: CapacityResource::ArtifactBytes,
                    amount: command.size,
                },
                bytes.stored,
                bytes.session_reserved,
                bytes.global_reserved,
            ) {
                Ok(remaining) => Ok(Some(remaining)),
                Err(error) => Err(error),
            }
        },
    }
}

fn check_publish(command: PublishArtifact, named_locator: &String, facts: PublishFacts) -> (result:
    Option<StoreError>)
    ensures
        result == publish_obstacle(command, named_locator@, facts),
{
    let (creator, operation): (ParticipantSnapshot, OperationSnapshot) = match (
        facts.creator,
        facts.operation,
    ) {
        (Some(creator), Some(operation)) => (creator, operation),
        (None, _) => {
            return Some(
                StoreError::ParticipantNotFound { participant_id: command.creator_participant_id },
            );
        },
        (_, None) => {
            return Some(
                StoreError::OperationNotFound { operation_id: command.creator_operation_id },
            );
        },
    };
    if creator.session_id != command.session_id || operation.session_id != command.session_id
        || operation.participant_id != command.creator_participant_id {
        return Some(StoreError::Invalid);
    }
    let expected: String = artifact_locator(command.session_id, command.artifact_id);
    if !same_text(named_locator.as_str(), expected.as_str()) || command.size > facts.max_bytes
        || !facts.structurally_valid {
        return Some(StoreError::Invalid);
    }
    None
}

/// Decides a wish to publish an artifact.
pub fn publish_artifact(
    command: PublishArtifact,
    named_locator: &String,
    facts: PublishFacts,
    now: Timestamp,
) -> (result: Result<PublishPlan, StoreError>)
    ensures
        result == publish_outcome(command, named_locator@, facts, now),
{
    match check_publish(command, named_locator, facts) {
        Some(error) => {
            return Err(error);
        },
        None => {},
    }
    let artifacts_reserved: (i64, i64) = match consume_capacity_reservation(
        ReserveCapacity {
            reservation_id: command.artifact_reservation_id,
            session_id: command.session_id,
            campaign_id: command.creator_participant_id,
            resource: CapacityResource::Artifacts,
            amount: 1,
        },
        facts.artifacts.stored,
        facts.artifacts.session_reserved,
        facts.artifacts.global_reserved,
    ) {
        Ok(remaining) => remaining,
        Err(error) => {
            return Err(error);
        },
    };
    let bytes_reserved: Option<(i64, i64)> = match pay_bytes(command, facts.bytes) {
        Ok(remaining) => remaining,
        Err(error) => {
            return Err(error);
        },
    };
    match ensure_derived_capacity(
        CapacityResource::Artifacts,
        CapacityUsage {
            derived_session: facts.artifacts.derived_session,
            derived_global: facts.artifacts.derived_global,
            reserved_session: artifacts_reserved.0,
            reserved_global: artifacts_reserved.1,
        },
        facts.artifacts.limit,
        1,
    ) {
        Ok(_) => {},
        Err(error) => {
            return Err(error);
        },
    }
    let (session_bytes, global_bytes): (i64, i64) = match bytes_reserved {
        Some(remaining) => remaining,
        None => (
            facts.bytes.session_reserved.unwrap_or(0),
            facts.bytes.global_reserved.unwrap_or(0),
        ),
    };
    match ensure_derived_capacity(
        CapacityResource::ArtifactBytes,
        CapacityUsage {
            derived_session: facts.bytes.derived_session,
            derived_global: facts.bytes.derived_global,
            reserved_session: session_bytes,
            reserved_global: global_bytes,
        },
        facts.bytes.limit,
        command.size,
    ) {
        Ok(_) => {},
        Err(error) => {
            return Err(error);
        },
    }
    Ok(
        PublishPlan {
            artifact: ArtifactSnapshot {
                artifact_id: command.artifact_id,
                session_id: command.session_id,
                creator_participant_id: command.creator_participant_id,
                creator_operation_id: command.creator_operation_id,
                media_type: command.media_type,
                size: command.size,
                digest: command.digest,
                state: ArtifactState::Available,
                revision: Revision::initial(),
                retention_until: command.retention_until,
                created_at: now,
                deleted_at: None,
            },
            artifacts_reserved,
            bytes_reserved,
        },
    )
}

/// Finds an artifact for a reader: only one of the session that is available.
pub fn load_artifact(
    session_id: SessionId,
    artifact_id: ArtifactId,
    found: Option<ArtifactSnapshot>,
) -> (result: Result<ArtifactSnapshot, StoreError>)
    ensures
        result == (match found {
            Some(value) if value.session_id == session_id && value.state
                == ArtifactState::Available => Ok::<ArtifactSnapshot, StoreError>(value),
            _ => Err(StoreError::ArtifactNotFound { artifact_id }),
        }),
{
    match found {
        Some(value) => if value.session_id == session_id && value.state
            == ArtifactState::Available {
            Ok(value)
        } else {
            Err(StoreError::ArtifactNotFound { artifact_id })
        },
        None => Err(StoreError::ArtifactNotFound { artifact_id }),
    }
}

/// The outcome of a wish to delete an artifact: it is no longer available, but kept.
pub open spec fn delete_outcome(
    session_id: SessionId,
    artifact_id: ArtifactId,
    found: Option<ArtifactSnapshot>,
    now: Timestamp,
) -> Result<ArtifactSnapshot, StoreError> {
    match found {
        None => Err(StoreError::ArtifactNotFound { artifact_id }),
        Some(value) => if value.session_id != session_id || value.state
            != ArtifactState::Available {
            Err(StoreError::Invalid)
        } else {
            match value.revision.spec_next() {
                None => Err(StoreError::Corrupt),
                Some(revision) => Ok(
                    ArtifactSnapshot {
                        state: ArtifactState::LogicallyDeleted,
                        deleted_at: Some(now),
                        revision,
                        ..value
                    },
                ),
            }
        },
    }
}

/// Decides a wish to delete an artifact.
pub fn logically_delete_artifact(
    session_id: SessionId,
    artifact_id: ArtifactId,
    found: Option<ArtifactSnapshot>,
    now: Timestamp,
) -> (result: Result<ArtifactSnapshot, StoreError>)
    ensures
        result == delete_outcome(session_id, artifact_id, found, now),
{
    match found {
        None => Err(StoreError::ArtifactNotFound { artifact_id }),
        Some(value) => {
            if value.session_id != session_id || value.state != ArtifactState::Available {
                return Err(StoreError::Invalid);
            }
            match value.revision.next() {
                None => Err(StoreError::Corrupt),
                Some(revision) => Ok(
                    ArtifactSnapshot {
                        state: ArtifactState::LogicallyDeleted,
                        deleted_at: Some(now),
                        revision,
                        ..value
                    },
                ),
            }
        },
    }
}

/// Whether an artifact of a session may be erased: it was deleted, and its retention is over.
pub open spec fn erasable(value: ArtifactSnapshot, session_id: SessionId, now: Timestamp) -> bool {
    &&& value.session_id == session_id
    &&& value.state == ArtifactState::LogicallyDeleted
    &&& !now.spec_before(value.retention_until)
}

/// Decides whether the bytes of an artifact may be erased: the artifact, where they may.
///
/// `recorded` is the artifact as it was left by the same request before.
pub fn authorize_physical_erasure(
    session_id: SessionId,
    artifact_id: ArtifactId,
    recorded: Option<ArtifactSnapshot>,
    found: Option<ArtifactSnapshot>,
    now: Timestamp,
) -> (result: Result<ArtifactSnapshot, StoreError>)
    ensures
        result == (match (recorded, found) {
            (Some(recorded), _) => if recorded.state == ArtifactState::PhysicallyErased {
                Ok::<ArtifactSnapshot, StoreError>(recorded)
            } else {
                Err(StoreError::Corrupt)
            },
            (None, None) => Err(StoreError::ArtifactNotFound { artifact_id }),
            (None, Some(value)) => if erasable(value, session_id, now) {
                Ok(value)
            } else {
                Err(StoreError::Invalid)
            },
        }),
{
    match (recorded, found) {
        (Some(recorded), _) => if recorded.state == ArtifactState::PhysicallyErased {
            Ok(recorded)
        } else {
            Err(StoreError::Corrupt)
        },
        (None, None) => Err(StoreError::ArtifactNotFound { artifact_id }),
        (None, Some(value)) => if value.session_id != session_id || value.state
            != ArtifactState::LogicallyDeleted || now.before(value.retention_until) {
            Err(StoreError::Invalid)
        } else {
            Ok(value)
        },
    }
}

/// The outcome of telling that an artifact was erased.
pub open spec fn erase_outcome(
    session_id: SessionId,
    artifact_id: ArtifactId,
    found: Option<ArtifactSnapshot>,
    now: Timestamp,
) -> Result<ArtifactSnapshot, StoreError> {
    match found {
        None => Err(StoreError::ArtifactNotFound { artifact_id }),
        Some(value) => if !erasable(value, session_id, now) {
            Err(StoreError::Invalid)
        } else {
            match value.revision.spec_next() {
                None => Err(StoreError::Corrupt),
                Some(revision) => Ok(
                    ArtifactSnapshot { state: ArtifactState::PhysicallyErased, revision, ..value },
                ),
            }
        },
    }
}

/// Decides what is kept of an artifact that was erased.
pub fn transition_erased(
    session_id: SessionId,
    artifact_id: ArtifactId,
    found: Option<ArtifactSnapshot>,
    now: Timestamp,
) -> (result: Result<ArtifactSnapshot, StoreError>)
    ensures
        result == erase_outcome(session_id, artifact_id, found, now),
{
    match found {
        None => Err(StoreError::ArtifactNotFound { artifact_id }),
        Some(value) => {
            if value.session_id != session_id || value.state != ArtifactState::LogicallyDeleted
                || now.before(value.retention_until) {
                return Err(StoreError::Invalid);
            }
            match value.revision.next() {
                None => Err(StoreError::Corrupt),
                Some(revision) => Ok(
                    ArtifactSnapshot { state: ArtifactState::PhysicallyErased, revision, ..value },
                ),
            }
        },
    }
}

/// The most artifacts that are listed at once for erasure.
pub const MAX_RETENTION_LIMIT: usize = 1024;

/// Checks how many artifacts are asked for.
pub fn check_retention_limit(limit: usize) -> (result: Result<(), StoreError>)
    ensures
        result == (if 1 <= limit <= MAX_RETENTION_LIMIT {
            Ok::<(), StoreError>(())
        } else {
            Err(StoreError::Invalid)
        }),
{
    if limit == 0 || limit > MAX_RETENTION_LIMIT {
        Err(StoreError::Invalid)
    } else {
        Ok(())
    }
}

/// Publishing keeps within the limits of the session and of the store, and takes up exactly what
/// was reserved: one artifact and its bytes.
pub proof fn artifacts_stay_within_limits(
    command: PublishArtifact,
    named_locator: Seq<char>,
    facts: PublishFacts,
    now: Timestamp,
)
    ensures
        publish_outcome(command, named_locator, facts, now) matches Ok(plan) ==> {
            &&& facts.artifacts.derived_session + 1 <= facts.artifacts.limit.per_session
            &&& facts.artifacts.derived_global + 1 <= facts.artifacts.limit.global
            &&& facts.bytes.derived_session + command.size <= facts.bytes.limit.per_session
            &&& facts.bytes.derived_global + command.size <= facts.bytes.limit.global
            &&& facts.artifacts.session_reserved matches Some(before)
                && plan.artifacts_reserved.0 == before - 1
            &&& command.size > 0 ==> (facts.bytes.session_reserved matches Some(before)
                && plan.bytes_reserved matches Some(after) && after.0 == before - command.size)
        },
{
}

/// An artifact only ever goes from available to deleted to erased: a deleted one is not deleted
/// again, an erased one is neither deleted nor erased again, and one that is available is not
/// erased.
pub proof fn artifacts_only_go_forward(
    value: ArtifactSnapshot,
    session_id: SessionId,
    now: Timestamp,
)
    ensures
        delete_outcome(session_id, value.artifact_id, Some(value), now) is Ok ==> value.state
            == ArtifactState::Available,
        erase_outcome(session_id, value.artifact_id, Some(value), now) is Ok ==> value.state
            == ArtifactState::LogicallyDeleted,
        delete_outcome(session_id, value.artifact_id, Some(value), now) matches Ok(after) ==> {
            &&& after.state == ArtifactState::LogicallyDeleted
            &&& after.revision.0 == value.revision.0 + 1
            &&& delete_outcome(session_id, value.artifact_id, Some(after), now) is Err
        },
        erase_outcome(session_id, value.artifact_id, Some(value), now) matches Ok(after) ==> {
            &&& after.state == ArtifactState::PhysicallyErased
            &&& after.revision.0 == value.revision.0 + 1
            &&& delete_outcome(session_id, value.artifact_id, Some(after), now) is Err
            &&& erase_outcome(session_id, value.artifact_id, Some(after), now) is Err
        },
{
}

/// No artifact is erased before its retention is over.
pub proof fn retention_is_kept(
    value: ArtifactSnapshot,
    session_id: SessionId,
    now: Timestamp,
)
    requires
        now.spec_before(value.retention_until),
    ensures
        erase_outcome(session_id, value.artifact_id, Some(value), now) is Err,
        !erasable(value, session_id, now),
{
}

} // verus!
