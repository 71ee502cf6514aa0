//! Launches of drivers: prepared, attached to a process, and stopped.

use crate::error::{Refusal, StoreError};
use crate::ids::{DriverId, FencingEpoch, InstanceId, LaunchAttemptId, ParticipantId, Revision, SessionId};
use crate::laws::words::{refused_for_good, refused_for_now};
use crate::launch::{
    decode_launch, existence, launch_state_name, mutate_launch, prepare_launch,
    valid_launch_transition, validate_prepare_replay, LaunchChange, LaunchColumns, LaunchPlan,
    LaunchSnapshot, LaunchState, PrepareLaunch, ProcessEvidence,
};
use crate::text::uuid_value;
use vstd::prelude::*;

verus! {

/// A launch is prepared once, for a participant that is not being cancelled, in the words of the
/// command; asked for again it is found as it is.
pub proof fn launches_are_prepared_once(
    command: PrepareLaunch,
    cancelled: bool,
    existing: Option<LaunchSnapshot>,
    result: Result<LaunchPlan, Refusal>,
    again: Result<(), StoreError>,
)
    requires
        call_ensures(prepare_launch, (command, cancelled, existing), result),
        call_ensures(validate_prepare_replay, (cancelled,), again),
    ensures
        result matches Ok(LaunchPlan::Create(_)) <==> !cancelled && existing is None,
        result matches Ok(LaunchPlan::Unchanged(_)) <==> {
            &&& !cancelled
            &&& existing matches Some(launch)
            &&& launch.session_id == command.session_id
            &&& launch.participant_id == command.participant_id
            &&& launch.driver_id == command.driver_id
            &&& launch.driver_configuration_digest == command.driver_configuration_digest
            &&& launch.credential_digest == command.credential_digest
        },
        result matches Ok(LaunchPlan::Unchanged(kept)) ==> existing == Some(kept),
        result matches Ok(LaunchPlan::Create(launch)) ==> {
            &&& launch.session_id == command.session_id
            &&& launch.ownership_epoch == Some(command.epoch)
            &&& launch.participant_id == command.participant_id
            &&& launch.driver_id == command.driver_id
            &&& launch.driver_configuration_digest == command.driver_configuration_digest
            &&& launch.attempt_id == command.attempt_id
            &&& launch.instance_id is None
            &&& launch.state is Prepared
            &&& launch.revision.0 == 1
            &&& launch.credential_digest == command.credential_digest
            &&& launch.evidence is None
            &&& launch.cleanup_reason is None
        },
        result is Err ==> refused_for_good(result, StoreError::Invalid),
        again is Ok <==> !cancelled,
        again matches Err(error) ==> error == StoreError::Invalid,
{
}

/// What a launch is, as opposed to how far it got.
pub open spec fn same_launch(before: LaunchSnapshot, after: LaunchSnapshot) -> bool {
    &&& after.session_id == before.session_id
    &&& after.ownership_epoch == before.ownership_epoch
    &&& after.participant_id == before.participant_id
    &&& after.driver_id == before.driver_id
    &&& after.driver_configuration_digest == before.driver_configuration_digest
    &&& after.attempt_id == before.attempt_id
    &&& after.credential_digest == before.credential_digest
}

/// Where a launch can go: from attached to ready, from either to stopping, from there to stopped;
/// and from anywhere but the end to cleaning up, which also leads to stopped.
pub open spec fn can_go(from: LaunchState, to: LaunchState) -> bool {
    match from {
        LaunchState::Prepared => to is CleanupRequired,
        LaunchState::Attached => to is Ready || to is Stopping || to is CleanupRequired,
        LaunchState::Ready => to is Stopping || to is CleanupRequired,
        LaunchState::Stopping => to is Stopped || to is CleanupRequired,
        LaunchState::CleanupRequired => to is Stopped || to is CleanupRequired,
        LaunchState::Stopped => false,
    }
}

/// A launch moves along its states and no other way.
pub proof fn launches_move_along_their_states(from: LaunchState, to: LaunchState, result: bool)
    requires
        call_ensures(valid_launch_transition, (from, to), result),
    ensures
        result <==> can_go(from, to),
{
}

/// Everything that tells a process from any other is known.
pub open spec fn identifies_a_process(evidence: ProcessEvidence) -> bool {
    &&& evidence.process_id > 0
    &&& evidence.process_group_id > 0
    &&& evidence.parent_process_id > 0
    &&& evidence.creation_marker > 0
    &&& evidence.executable_identity.high != 0 || evidence.executable_identity.low != 0
}

/// A prepared launch is attached to an instance that is not taken, with evidence that identifies
/// its process.
pub proof fn launches_are_attached_with_evidence(
    session_id: SessionId,
    expected_revision: Revision,
    instance_id: InstanceId,
    evidence: ProcessEvidence,
    launch: LaunchSnapshot,
    instance_taken: bool,
    result: Result<LaunchSnapshot, Refusal>,
)
    requires
        call_ensures(
            mutate_launch,
            (
                session_id,
                expected_revision,
                LaunchChange::Attach { instance_id, evidence },
                Some(launch),
                instance_taken,
            ),
            result,
        ),
    ensures
        result is Ok <==> {
            &&& launch.session_id == session_id
            &&& launch.revision == expected_revision
            &&& launch.revision.0 < u64::MAX
            &&& launch.state is Prepared
            &&& launch.instance_id is None
            &&& identifies_a_process(evidence)
            &&& !instance_taken
        },
        result matches Ok(after) ==> {
            &&& same_launch(launch, after)
            &&& after.state is Attached
            &&& after.instance_id == Some(instance_id)
            &&& after.evidence == Some(evidence)
            &&& after.cleanup_reason == launch.cleanup_reason
            &&& after.revision.0 == launch.revision.0 + 1
        },
        result is Err && launch.revision.0 < u64::MAX ==> refused_for_good(
            result,
            StoreError::Invalid,
        ),
{
}

/// A launch moves to the state that is asked for, with a reason exactly when it has to be cleaned
/// up. Instance and evidence stay what they were.
pub proof fn launches_move_with_their_reason(
    session_id: SessionId,
    expected_revision: Revision,
    change: LaunchChange,
    launch: LaunchSnapshot,
    result: Result<LaunchSnapshot, Refusal>,
    missing: Result<LaunchSnapshot, Refusal>,
)
    requires
        call_ensures(
            mutate_launch,
            (session_id, expected_revision, change, Some(launch), false),
            result,
        ),
        call_ensures(
            mutate_launch,
            (session_id, expected_revision, change, None::<LaunchSnapshot>, false),
            missing,
        ),
        change is Move,
    ensures
        result is Ok <==> {
            &&& launch.session_id == session_id
            &&& launch.revision == expected_revision
            &&& launch.revision.0 < u64::MAX
            &&& can_go(launch.state, change->target)
            &&& change->target is CleanupRequired <==> change->cleanup_reason is Some
        },
        result matches Ok(after) ==> {
            &&& same_launch(launch, after)
            &&& after.state == change->target
            &&& after.instance_id == launch.instance_id
            &&& after.evidence == launch.evidence
            &&& after.cleanup_reason == change->cleanup_reason
            &&& after.revision.0 == launch.revision.0 + 1
        },
        refused_for_good(missing, StoreError::Invalid),
{
}

/// A launch is read back as its columns say.
pub proof fn launch_columns_are_read(
    columns: LaunchColumns<'_>,
    snapshot: LaunchSnapshot,
    name: &'static str,
)
    requires
        call_ensures(
            decode_launch,
            (columns,),
            Ok::<LaunchSnapshot, StoreError>(snapshot),
        ),
        call_ensures(launch_state_name, (snapshot.state,), name),
    ensures
        columns.ids_accepted,
        uuid_value(columns.attempt_id@) == Some(snapshot.attempt_id.0),
        uuid_value(columns.session_id@) == Some(snapshot.session_id.0),
        uuid_value(columns.participant_id@) == Some(snapshot.participant_id.0),
        uuid_value(columns.driver_id@) == Some(snapshot.driver_id.0),
        columns.ownership_epoch is Some <==> snapshot.ownership_epoch is Some,
        columns.ownership_epoch matches Some(epoch) ==> epoch >= 1
            && snapshot.ownership_epoch->Some_0.0 == epoch,
        columns.instance_id is Some <==> snapshot.instance_id is Some,
        columns.instance_id matches Some(instance) ==> uuid_value(instance@) == Some(
            snapshot.instance_id->Some_0.0,
        ),
        columns.state@ == name@,
        columns.revision >= 1,
        snapshot.revision.0 == columns.revision,
        snapshot.driver_configuration_digest == columns.driver_configuration_digest,
        snapshot.credential_digest == columns.credential_digest,
        snapshot.evidence == columns.evidence,
        snapshot.cleanup_reason == columns.cleanup_reason,
{
}

/// A count of one says that something exists, of zero that it does not.
pub proof fn existence_is_read(value: i64, result: Result<bool, StoreError>)
    requires
        call_ensures(existence, (value,), result),
    ensures
        result == Ok::<bool, StoreError>(true) <==> value == 1,
        result == Ok::<bool, StoreError>(false) <==> value == 0,
        result matches Err(error) ==> error == StoreError::Corrupt,
{
}

} // verus!
