//! Artifacts: published against reservations, deleted, and erased once they need not be kept.

use crate::artifact::{
    artifact_locator, artifact_state_name, authorize_physical_erasure, check_retention_limit,
    decode_artifact, load_artifact, logically_delete_artifact, publish_artifact,
    transition_erased, ArtifactColumns, ArtifactSnapshot, ArtifactState, PublishArtifact,
    PublishFacts, PublishPlan, ResourceFacts,
};
use crate::capacity::{CapacityUsage, StoredReservation};
use crate::error::{CapacityResource, StoreError};
use crate::ids::{ArtifactId, SessionId};
use crate::laws::words::has_room;
use crate::text::uuid_text;
use crate::time::Timestamp;
use vstd::prelude::*;

verus! {

/// What an artifact is, as opposed to whether it can still be had.
pub open spec fn same_artifact(before: ArtifactSnapshot, after: ArtifactSnapshot) -> bool {
    &&& after.artifact_id == before.artifact_id
    &&& after.session_id == before.session_id
    &&& after.creator_participant_id == before.creator_participant_id
    &&& after.creator_operation_id == before.creator_operation_id
    &&& after.media_type == before.media_type
    &&& after.size == before.size
    &&& after.digest == before.digest
    &&& after.retention_until == before.retention_until
    &&& after.created_at == before.created_at
}

/// The creator holds a reservation for so much of the resource, and both counters cover it.
pub open spec fn is_paid_for(
    command: PublishArtifact,
    facts: ResourceFacts,
    resource: CapacityResource,
    amount: u64,
) -> bool {
    &&& facts.stored matches Some(kept)
    &&& kept.session_id == command.session_id
    &&& kept.campaign_id == command.creator_participant_id
    &&& kept.resource == resource
    &&& kept.amount == amount
    &&& !kept.released
    &&& facts.session_reserved matches Some(session)
    &&& facts.global_reserved matches Some(global)
    &&& session >= amount
    &&& global >= amount
}

/// With the reservation given up, so much more can be kept.
pub open spec fn can_be_kept(facts: ResourceFacts, amount: u64) -> bool {
    has_room(
        CapacityUsage {
            derived_session: facts.derived_session,
            derived_global: facts.derived_global,
            reserved_session: (facts.session_reserved->Some_0 - amount) as i64,
            reserved_global: (facts.global_reserved->Some_0 - amount) as i64,
        },
        facts.limit,
        amount as int,
    )
}

/// An artifact is published for an operation of its creator in the session, under the name that
/// follows from its identity, and for a reservation of the artifact and of its bytes, which are
/// used up by it.
pub proof fn artifacts_are_published_against_reservations(
    command: PublishArtifact,
    named_locator: String,
    locator: String,
    facts: PublishFacts,
    now: Timestamp,
    result: Result<PublishPlan, StoreError>,
)
    requires
        call_ensures(publish_artifact, (command, &named_locator, facts, now), result),
        call_ensures(artifact_locator, (command.session_id, command.artifact_id), locator),
    ensures
        command.size > 0 ==> (result is Ok <==> {
            &&& may_be_published(command, named_locator, locator, facts)
            &&& command.byte_reservation_id is Some
            &&& is_paid_for(command, facts.artifacts, CapacityResource::Artifacts, 1)
            &&& is_paid_for(command, facts.bytes, CapacityResource::ArtifactBytes, command.size)
            &&& can_be_kept(facts.artifacts, 1)
            &&& can_be_kept(facts.bytes, command.size)
        }),
        result matches Ok(plan) ==> {
            &&& may_be_published(command, named_locator, locator, facts)
            &&& is_paid_for(command, facts.artifacts, CapacityResource::Artifacts, 1)
            &&& command.size == 0 <==> command.byte_reservation_id is None
            &&& plan.artifact.artifact_id == command.artifact_id
            &&& plan.artifact.session_id == command.session_id
            &&& plan.artifact.creator_participant_id == command.creator_participant_id
            &&& plan.artifact.creator_operation_id == command.creator_operation_id
            &&& plan.artifact.media_type == command.media_type
            &&& plan.artifact.size == command.size
            &&& plan.artifact.digest == command.digest
            &&& plan.artifact.state is Available
            &&& plan.artifact.revision.0 == 1
            &&& plan.artifact.retention_until == command.retention_until
            &&& plan.artifact.created_at == now
            &&& plan.artifact.deleted_at is None
            &&& plan.artifacts_reserved.0 == facts.artifacts.session_reserved->Some_0 - 1
            &&& plan.artifacts_reserved.1 == facts.artifacts.global_reserved->Some_0 - 1
            &&& plan.bytes_reserved is Some <==> command.size > 0
            &&& plan.bytes_reserved matches Some((session, global)) ==> {
                &&& session == facts.bytes.session_reserved->Some_0 - command.size
                &&& global == facts.bytes.global_reserved->Some_0 - command.size
            }
        },
        facts.creator is None ==> result == Err::<PublishPlan, StoreError>(
            StoreError::ParticipantNotFound { participant_id: command.creator_participant_id },
        ),
        facts.creator is Some && facts.operation is None ==> result == Err::<
            PublishPlan,
            StoreError,
        >(StoreError::OperationNotFound { operation_id: command.creator_operation_id }),
        facts.creator is Some && facts.operation is Some && !may_be_published(
            command,
            named_locator,
            locator,
            facts,
        ) ==> result == Err::<PublishPlan, StoreError>(StoreError::Invalid),
{
}

/// The artifact is its creator's, of the session, named rightly, valid, and not too large.
pub open spec fn may_be_published(
    command: PublishArtifact,
    named_locator: String,
    locator: String,
    facts: PublishFacts,
) -> bool {
    &&& facts.creator matches Some(creator)
    &&& creator.session_id == command.session_id
    &&& facts.operation matches Some(operation)
    &&& operation.session_id == command.session_id
    &&& operation.participant_id == command.creator_participant_id
    &&& named_locator@ == locator@
    &&& command.size <= facts.max_bytes
    &&& facts.structurally_valid
}

/// An artifact lies under its session, and under its own identity there.
pub proof fn artifacts_lie_under_their_session(
    session_id: SessionId,
    artifact_id: ArtifactId,
    locator: String,
)
    requires
        call_ensures(artifact_locator, (session_id, artifact_id), locator),
    ensures
        locator@ == uuid_text(session_id.0) + "/"@ + uuid_text(artifact_id.0) + ".blob"@,
{
}

/// An artifact is handed out only in its session and while it is available; in every other case
/// it is as if it were not there.
pub proof fn deleted_artifacts_are_not_handed_out(
    session_id: SessionId,
    artifact_id: ArtifactId,
    found: Option<ArtifactSnapshot>,
    result: Result<ArtifactSnapshot, StoreError>,
)
    requires
        call_ensures(load_artifact, (session_id, artifact_id, found), result),
    ensures
        result is Ok <==> (found matches Some(value) && value.session_id == session_id
            && value.state is Available),
        result matches Ok(value) ==> found == Some(value),
        result matches Err(error) ==> error == (StoreError::ArtifactNotFound { artifact_id }),
{
}

/// An artifact is deleted once, by its session, and remembers when.
pub proof fn artifacts_are_deleted_once(
    session_id: SessionId,
    artifact_id: ArtifactId,
    found: Option<ArtifactSnapshot>,
    now: Timestamp,
    result: Result<ArtifactSnapshot, StoreError>,
)
    requires
        call_ensures(
            logically_delete_artifact,
            (session_id, artifact_id, found, now),
            result,
        ),
    ensures
        result is Ok <==> (found matches Some(value) && value.session_id == session_id
            && value.state is Available && value.revision.0 < u64::MAX),
        result matches Ok(after) ==> {
            let before = found->Some_0;
            &&& same_artifact(before, after)
            &&& after.state is LogicallyDeleted
            &&& after.deleted_at == Some(now)
            &&& after.revision.0 == before.revision.0 + 1
        },
        found is None ==> result == Err::<ArtifactSnapshot, StoreError>(
            StoreError::ArtifactNotFound { artifact_id },
        ),
        found matches Some(value) && (value.session_id != session_id || !(value.state
            is Available)) ==> result == Err::<ArtifactSnapshot, StoreError>(StoreError::Invalid),
{
}

/// The artifact was deleted by its session, and need not be kept any more.
pub open spec fn may_be_erased(
    value: ArtifactSnapshot,
    session_id: SessionId,
    now: Timestamp,
) -> bool {
    &&& value.session_id == session_id
    &&& value.state is LogicallyDeleted
    &&& !now.spec_before(value.retention_until)
}

/// An artifact is erased once, after it was deleted and its time is up; what was erased before is
/// told as it was recorded.
pub proof fn artifacts_are_erased_after_their_time(
    session_id: SessionId,
    artifact_id: ArtifactId,
    recorded: Option<ArtifactSnapshot>,
    found: Option<ArtifactSnapshot>,
    now: Timestamp,
    allowed: Result<ArtifactSnapshot, StoreError>,
    result: Result<ArtifactSnapshot, StoreError>,
)
    requires
        call_ensures(
            authorize_physical_erasure,
            (session_id, artifact_id, recorded, found, now),
            allowed,
        ),
        call_ensures(transition_erased, (session_id, artifact_id, found, now), result),
    ensures
        recorded is None ==> (allowed is Ok <==> (found matches Some(value) && may_be_erased(
            value,
            session_id,
            now,
        ))),
        recorded is None ==> (allowed matches Ok(value) ==> found == Some(value)),
        recorded matches Some(erased) ==> {
            &&& erased.state is PhysicallyErased ==> allowed == Ok::<ArtifactSnapshot, StoreError>(
                erased,
            )
            &&& !(erased.state is PhysicallyErased) ==> allowed == Err::<
                ArtifactSnapshot,
                StoreError,
            >(StoreError::Corrupt)
        },
        result is Ok <==> (found matches Some(value) && may_be_erased(value, session_id, now)
            && value.revision.0 < u64::MAX),
        result matches Ok(after) ==> {
            let before = found->Some_0;
            &&& same_artifact(before, after)
            &&& after.state is PhysicallyErased
            &&& after.deleted_at == before.deleted_at
            &&& after.revision.0 == before.revision.0 + 1
        },
        found is None ==> result == Err::<ArtifactSnapshot, StoreError>(
            StoreError::ArtifactNotFound { artifact_id },
        ) && (recorded is None ==> allowed == Err::<ArtifactSnapshot, StoreError>(
            StoreError::ArtifactNotFound { artifact_id },
        )),
        found matches Some(value) && !may_be_erased(value, session_id, now) ==> result == Err::<
            ArtifactSnapshot,
            StoreError,
        >(StoreError::Invalid),
{
}

/// At least one artifact is asked for at a time, and not more than a thousand and twenty-four.
pub proof fn retention_is_worked_off_in_batches(limit: usize, result: Result<(), StoreError>)
    requires
        call_ensures(check_retention_limit, (limit,), result),
    ensures
        result is Ok <==> 1 <= limit <= 1024,
        result matches Err(error) ==> error == StoreError::Invalid,
{
}

/// An artifact is read back as its columns say.
pub proof fn artifact_columns_are_read(
    columns: ArtifactColumns,
    state: &str,
    well_formed: bool,
    snapshot: ArtifactSnapshot,
    name: &'static str,
)
    requires
        call_ensures(
            decode_artifact,
            (columns, state, well_formed),
            Ok::<ArtifactSnapshot, StoreError>(snapshot),
        ),
        call_ensures(artifact_state_name, (snapshot.state,), name),
    ensures
        well_formed,
        state@ == name@,
        snapshot.artifact_id == columns.artifact_id,
        snapshot.session_id == columns.session_id,
        columns.creator_participant_id == Some(snapshot.creator_participant_id),
        columns.creator_operation_id == Some(snapshot.creator_operation_id),
        snapshot.media_type == columns.media_type,
        snapshot.size == columns.size,
        snapshot.digest == columns.digest,
        columns.revision >= 1,
        snapshot.revision.0 == columns.revision,
        snapshot.retention_until.seconds == columns.retention.0,
        snapshot.retention_until.nanos == columns.retention.1,
        snapshot.created_at.seconds == columns.created.0,
        snapshot.created_at.nanos == columns.created.1,
        snapshot.deleted_at is Some <==> columns.deleted.0 is Some,
        columns.deleted.0 is Some <==> columns.deleted.1 is Some,
        snapshot.deleted_at matches Some(deleted) ==> Some(deleted.seconds) == columns.deleted.0
            && deleted.nanos == columns.deleted.1->Some_0,
{
}

} // verus!
