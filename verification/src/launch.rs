//! Launches: how driver instances come up and go down.

use crate::error::{Refusal, StoreError};
use crate::ids::{
    decode_epoch, decode_revision, parse_driver_id, parse_instance_id, parse_launch_attempt,
    parse_participant_id, parse_session_id, Digest, DriverId, FencingEpoch, InstanceId,
    LaunchAttemptId, ParticipantId, Revision, SessionId,
};
use crate::operation::{bare_refusal, kept_refusal};
use crate::text::{same_text, text_mark, uuid_value};
use vstd::prelude::*;

verus! {

/// Where a launch stands.
#[derive(Clone, Copy, PartialEq, Eq, Debug, Structural)]
pub enum LaunchState {
    Prepared,
    Attached,
    Ready,
    Stopping,
    Stopped,
    CleanupRequired,
}

/// The stored name of a launch state.
pub open spec fn launch_text(value: LaunchState) -> Seq<char> {
    match value {
        LaunchState::Prepared => "prepared"@,
        LaunchState::Attached => "attached"@,
        LaunchState::Ready => "ready"@,
        LaunchState::Stopping => "stopping"@,
        LaunchState::Stopped => "stopped"@,
        LaunchState::CleanupRequired => "cleanup_required"@,
    }
}

/// The stored name of a launch state.
pub fn launch_state_name(value: LaunchState) -> (name: &'static str)
    ensures
        name@ == launch_text(value),
{
    match value {
        LaunchState::Prepared => "prepared",
        LaunchState::Attached => "attached",
        LaunchState::Ready => "ready",
        LaunchState::Stopping => "stopping",
        LaunchState::Stopped => "stopped",
        LaunchState::CleanupRequired => "cleanup_required",
    }
}

/// Reads the stored name of a launch state; any other text is corruption.
pub fn parse_launch_state(value: &str) -> (result: Result<LaunchState, StoreError>)
    ensures
        match result {
            Ok(found) => launch_text(found) == value@,
            Err(error) => error == StoreError::Corrupt && forall|other: LaunchState|
                #[trigger] launch_text(other) != value@,
        },
{
    if same_text(value, "prepared") {
        Ok(LaunchState::Prepared)
    } else if same_text(value, "attached") {
        Ok(LaunchState::Attached)
    } else if same_text(value, "ready") {
        Ok(LaunchState::Ready)
    } else if same_text(value, "stopping") {
        Ok(LaunchState::Stopping)
    } else if same_text(value, "stopped") {
        Ok(LaunchState::Stopped)
    } else if same_text(value, "cleanup_required") {
        Ok(LaunchState::CleanupRequired)
    } else {
        Err(StoreError::Corrupt)
    }
}

/// A stored name stands for one value only, so a name that was written is read back as the
/// value it was written for.
pub proof fn launch_state_names_are_distinct(left: LaunchState, right: LaunchState)
    requires
        launch_text(left) == launch_text(right),
    ensures
        left == right,
{
    reveal_strlit("prepared");
    reveal_strlit("attached");
    reveal_strlit("ready");
    reveal_strlit("stopping");
    reveal_strlit("stopped");
    reveal_strlit("cleanup_required");
    assert(text_mark(launch_text(left)) == text_mark(launch_text(right)));
}

/// What is known of the process of an instance.
#[derive(Clone, Copy, PartialEq, Eq, Debug, Structural)]
pub struct ProcessEvidence {
    pub process_id: u64,
    pub process_group_id: u64,
    pub parent_process_id: u64,
    pub creation_marker: u64,
    pub executable_identity: Digest,
}

impl ProcessEvidence {
    /// Every part is there.
    pub open spec fn complete(self) -> bool {
        &&& self.process_id != 0
        &&& self.process_group_id != 0
        &&& self.parent_process_id != 0
        &&& self.creation_marker != 0
        &&& self.executable_identity != (Digest { high: 0, low: 0 })
    }

    /// Whether every part is there.
    pub fn is_complete(self) -> (result: bool)
        ensures
            result == self.complete(),
    {
        self.process_id != 0 && self.process_group_id != 0 && self.parent_process_id != 0
            && self.creation_marker != 0 && self.executable_identity != Digest { high: 0, low: 0 }
    }
}

/// A launch. The reason for a cleanup is known by the digest of its text.
#[derive(Clone, Copy, PartialEq, Eq, Debug, Structural)]
pub struct LaunchSnapshot {
    pub session_id: SessionId,
    pub ownership_epoch: Option<FencingEpoch>,
    pub participant_id: ParticipantId,
    pub driver_id: DriverId,
    pub driver_configuration_digest: Digest,
    pub attempt_id: LaunchAttemptId,
    pub instance_id: Option<InstanceId>,
    pub state: LaunchState,
    pub revision: Revision,
    pub credential_digest: Digest,
    pub evidence: Option<ProcessEvidence>,
    pub cleanup_reason: Option<Digest>,
}

impl LaunchSnapshot {
    /// A launch has an instance exactly where it has evidence of it, has none while it is
    /// prepared, and has a reason for a cleanup exactly while it requires one.
    pub open spec fn sound(self) -> bool {
        &&& (self.instance_id is Some <==> self.evidence is Some)
        &&& (self.state == LaunchState::Prepared ==> self.instance_id is None)
        &&& (self.state == LaunchState::CleanupRequired <==> self.cleanup_reason is Some)
        &&& self.evidence matches Some(evidence) ==> evidence.complete()
    }
}

/// The stored columns of a launch.
#[derive(Clone, Copy)]
pub struct LaunchColumns<'a> {
    /// Whether the identities in the columns are accepted by their types.
    pub ids_accepted: bool,
    pub attempt_id: &'a str,
    pub session_id: &'a str,
    pub ownership_epoch: Option<i64>,
    pub participant_id: &'a str,
    pub driver_id: &'a str,
    pub driver_configuration_digest: Digest,
    pub instance_id: Option<&'a str>,
    pub state: &'a str,
    pub revision: i64,
    pub credential_digest: Digest,
    pub evidence: Option<ProcessEvidence>,
    pub cleanup_reason: Option<Digest>,
}

/// Whether the stored columns of a launch, but for its state, can be read.
pub open spec fn launch_columns_sound(columns: LaunchColumns<'_>) -> bool {
    &&& columns.ids_accepted
    &&& uuid_value(columns.attempt_id@) is Some
    &&& uuid_value(columns.session_id@) is Some
    &&& columns.ownership_epoch matches Some(epoch) ==> epoch >= 1
    &&& uuid_value(columns.participant_id@) is Some
    &&& uuid_value(columns.driver_id@) is Some
    &&& columns.instance_id matches Some(instance) ==> uuid_value(instance@) is Some
    &&& columns.revision >= 1
}

/// The launch that stored columns hold.
pub open spec fn launch_in(columns: LaunchColumns<'_>, state: LaunchState) -> LaunchSnapshot {
    LaunchSnapshot {
        session_id: SessionId(uuid_value(columns.session_id@)->Some_0),
        ownership_epoch: match columns.ownership_epoch {
            Some(epoch) => Some(FencingEpoch(epoch as u64)),
            None => None,
        },
        participant_id: ParticipantId(uuid_value(columns.participant_id@)->Some_0),
        driver_id: DriverId(uuid_value(columns.driver_id@)->Some_0),
        driver_configuration_digest: columns.driver_configuration_digest,
        attempt_id: LaunchAttemptId(uuid_value(columns.attempt_id@)->Some_0),
        instance_id: match columns.instance_id {
            Some(instance) => Some(InstanceId(uuid_value(instance@)->Some_0)),
            None => None,
        },
        state,
        revision: Revision(columns.revision as u64),
        credential_digest: columns.credential_digest,
        evidence: columns.evidence,
        cleanup_reason: columns.cleanup_reason,
    }
}

/// Reads a launch: columns that do not hold one are corruption.
pub fn decode_launch(columns: LaunchColumns<'_>) -> (result: Result<LaunchSnapshot, StoreError>)
    ensures
        match result {
            Ok(snapshot) => {
                &&& launch_columns_sound(columns)
                &&& launch_text(snapshot.state) == columns.state@
                &&& snapshot == launch_in(columns, snapshot.state)
            },
            Err(error) => {
                &&& error == StoreError::Corrupt
                &&& (!launch_columns_sound(columns) || forall|other: LaunchState|
                    #[trigger] launch_text(other) != columns.state@)
            },
        },
{
    let ownership_epoch: Option<FencingEpoch> = match columns.ownership_epoch {
        Some(value) => match decode_epoch(value) {
            Ok(epoch) => Some(epoch),
            Err(error) => {
                return Err(error);
            },
        },
        None => None,
    };
    let instance_id: Option<InstanceId> = match columns.instance_id {
        Some(value) => match parse_instance_id(value, columns.ids_accepted) {
            Ok(instance) => Some(instance),
            Err(error) => {
                return Err(error);
            },
        },
        None => None,
    };
    let (state, revision): (LaunchState, Revision) = match (
        parse_launch_state(columns.state),
        decode_revision(columns.revision),
    ) {
        (Ok(state), Ok(revision)) => (state, revision),
        _ => {
            return Err(StoreError::Corrupt);
        },
    };
    match (
        parse_launch_attempt(columns.attempt_id, columns.ids_accepted),
        parse_session_id(columns.session_id, columns.ids_accepted),
        parse_participant_id(columns.participant_id, columns.ids_accepted),
        parse_driver_id(columns.driver_id, columns.ids_accepted),
    ) {
        (Ok(attempt_id), Ok(session_id), Ok(participant_id), Ok(driver_id)) => Ok(
            LaunchSnapshot {
                session_id,
                ownership_epoch,
                participant_id,
                driver_id,
                driver_configuration_digest: columns.driver_configuration_digest,
                attempt_id,
                instance_id,
                state,
                revision,
                credential_digest: columns.credential_digest,
                evidence: columns.evidence,
                cleanup_reason: columns.cleanup_reason,
            },
        ),
        _ => Err(StoreError::Corrupt),
    }
}

/// A wish to prepare a launch.
#[derive(Clone, Copy, PartialEq, Eq, Debug, Structural)]
pub struct PrepareLaunch {
    pub session_id: SessionId,
    pub epoch: FencingEpoch,
    pub participant_id: ParticipantId,
    pub driver_id: DriverId,
    pub driver_configuration_digest: Digest,
    pub attempt_id: LaunchAttemptId,
    pub credential_digest: Digest,
}

/// A launch that is there, or is to be written.
#[derive(Clone, Copy, PartialEq, Eq, Debug, Structural)]
pub enum LaunchPlan {
    Unchanged(LaunchSnapshot),
    Create(LaunchSnapshot),
}

/// Whether a launch is the one that a wish asks for.
pub open spec fn answers_prepare(existing: LaunchSnapshot, command: PrepareLaunch) -> bool {
    &&& existing.session_id == command.session_id
    &&& existing.participant_id == command.participant_id
    &&& existing.driver_id == command.driver_id
    &&& existing.driver_configuration_digest == command.driver_configuration_digest
    &&& existing.credential_digest == command.credential_digest
}

/// A launch that has just been prepared.
pub open spec fn prepared(command: PrepareLaunch) -> LaunchSnapshot {
    LaunchSnapshot {
        session_id: command.session_id,
        ownership_epoch: Some(command.epoch),
        participant_id: command.participant_id,
        driver_id: command.driver_id,
        driver_configuration_digest: command.driver_configuration_digest,
        attempt_id: command.attempt_id,
        instance_id: None,
        state: LaunchState::Prepared,
        revision: Revision(1),
        credential_digest: command.credential_digest,
        evidence: None,
        cleanup_reason: None,
    }
}

/// The outcome of a wish to prepare a launch.
pub open spec fn prepare_outcome(
    command: PrepareLaunch,
    cancelled: bool,
    existing: Option<LaunchSnapshot>,
) -> Result<LaunchPlan, Refusal> {
    if cancelled {
        Err(kept_refusal(StoreError::Invalid))
    } else {
        match existing {
            Some(existing) => if answers_prepare(existing, command) {
                Ok(LaunchPlan::Unchanged(existing))
            } else {
                Err(kept_refusal(StoreError::Invalid))
            },
            None => Ok(LaunchPlan::Create(prepared(command))),
        }
    }
}

/// Decides a wish to prepare a launch.
///
/// `cancelled` tells whether the cancellation of the participant was asked for.
pub fn prepare_launch(
    command: PrepareLaunch,
    cancelled: bool,
    existing: Option<LaunchSnapshot>,
) -> (result: Result<LaunchPlan, Refusal>)
    ensures
        result == prepare_outcome(command, cancelled, existing),
{
    if cancelled {
        return Err(Refusal { error: StoreError::Invalid, recorded: true });
    }
    match existing {
        Some(existing) => if existing.session_id != command.session_id || existing.participant_id
            != command.participant_id || existing.driver_id != command.driver_id
            || existing.driver_configuration_digest != command.driver_configuration_digest
            || existing.credential_digest != command.credential_digest {
            Err(Refusal { error: StoreError::Invalid, recorded: true })
        } else {
            Ok(LaunchPlan::Unchanged(existing))
        },
        None => Ok(
            LaunchPlan::Create(
                LaunchSnapshot {
                    session_id: command.session_id,
                    ownership_epoch: Some(command.epoch),
                    participant_id: command.participant_id,
                    driver_id: command.driver_id,
                    driver_configuration_digest: command.driver_configuration_digest,
                    attempt_id: command.attempt_id,
                    instance_id: None,
                    state: LaunchState::Prepared,
                    revision: Revision::initial(),
                    credential_digest: command.credential_digest,
                    evidence: None,
                    cleanup_reason: None,
                },
            ),
        ),
    }
}

/// Answers a repeated wish to prepare a launch: a participant that is to be cancelled is not
/// launched, not even again.
pub fn validate_prepare_replay(cancelled: bool) -> (result: Result<(), StoreError>)
    ensures
        result == (if cancelled {
            Err::<(), StoreError>(StoreError::Invalid)
        } else {
            Ok(())
        }),
{
    if cancelled {
        Err(StoreError::Invalid)
    } else {
        Ok(())
    }
}

/// The moves of a launch after it was attached.
pub open spec fn launch_moves(from: LaunchState, to: LaunchState) -> bool {
    match to {
        LaunchState::Ready => from == LaunchState::Attached,
        LaunchState::Stopping => from == LaunchState::Attached || from == LaunchState::Ready,
        LaunchState::CleanupRequired => from != LaunchState::Stopped,
        LaunchState::Stopped => from == LaunchState::Stopping || from
            == LaunchState::CleanupRequired,
        LaunchState::Prepared | LaunchState::Attached => false,
    }
}

/// Whether a launch may move from one state to another.
pub fn valid_launch_transition(from: LaunchState, to: LaunchState) -> (result: bool)
    ensures
        result == launch_moves(from, to),
{
    match (from, to) {
        (LaunchState::Attached, LaunchState::Ready) => true,
        (LaunchState::Attached | LaunchState::Ready, LaunchState::Stopping) => true,
        (
            LaunchState::Prepared
            | LaunchState::Attached
            | LaunchState::Ready
            | LaunchState::Stopping
            | LaunchState::CleanupRequired,
            LaunchState::CleanupRequired,
        ) => true,
        (LaunchState::Stopping | LaunchState::CleanupRequired, LaunchState::Stopped) => true,
        _ => false,
    }
}

/// What changes a launch.
#[derive(Clone, Copy, PartialEq, Eq, Debug, Structural)]
pub enum LaunchChange {
    /// An instance has come up.
    Attach { instance_id: InstanceId, evidence: ProcessEvidence },
    /// The launch moves on.
    Move { target: LaunchState, cleanup_reason: Option<Digest> },
}

/// A launch after a change, before its revision: nothing where the change does not apply.
///
/// An instance is attached once, to a prepared launch, with complete evidence. A reason is given
/// exactly for a cleanup.
pub open spec fn changed_launch(snapshot: LaunchSnapshot, change: LaunchChange) -> Option<
    LaunchSnapshot,
> {
    match change {
        LaunchChange::Attach { instance_id, evidence } => if snapshot.state == LaunchState::Prepared
            && snapshot.instance_id is None && evidence.complete() {
            Some(
                LaunchSnapshot {
                    instance_id: Some(instance_id),
                    evidence: Some(evidence),
                    state: LaunchState::Attached,
                    ..snapshot
                },
            )
        } else {
            None
        },
        LaunchChange::Move { target, cleanup_reason } => if launch_moves(snapshot.state, target) && (
        target == LaunchState::CleanupRequired <==> cleanup_reason is Some) {
            Some(LaunchSnapshot { state: target, cleanup_reason, ..snapshot })
        } else {
            None
        },
    }
}

fn apply_change(snapshot: LaunchSnapshot, change: LaunchChange) -> (after: Option<LaunchSnapshot>)
    ensures
        after == changed_launch(snapshot, change),
{
    match change {
        LaunchChange::Attach { instance_id, evidence } => if snapshot.state != LaunchState::Prepared
            || snapshot.instance_id.is_some() || !evidence.is_complete() {
            None
        } else {
            Some(
                LaunchSnapshot {
                    instance_id: Some(instance_id),
                    evidence: Some(evidence),
                    state: LaunchState::Attached,
                    ..snapshot
                },
            )
        },
        LaunchChange::Move { target, cleanup_reason } => {
            let cleans: bool = target == LaunchState::CleanupRequired;
            if !valid_launch_transition(snapshot.state, target) || cleans
                != cleanup_reason.is_some() {
                None
            } else {
                Some(LaunchSnapshot { state: target, cleanup_reason, ..snapshot })
            }
        },
    }
}

/// The outcome of a wish to change a launch.
pub open spec fn launch_outcome(
    session_id: SessionId,
    expected_revision: Revision,
    change: LaunchChange,
    launch: Option<LaunchSnapshot>,
    instance_taken: bool,
) -> Result<LaunchSnapshot, Refusal> {
    match launch {
        None => Err(kept_refusal(StoreError::Invalid)),
        Some(snapshot) => if snapshot.session_id != session_id || snapshot.revision
            != expected_revision || changed_launch(snapshot, change) is None {
            Err(kept_refusal(StoreError::Invalid))
        } else {
            let after = changed_launch(snapshot, change)->Some_0;
            if after.instance_id is Some && instance_taken {
                Err(kept_refusal(StoreError::Invalid))
            } else {
                match snapshot.revision.spec_next() {
                    Some(revision) => Ok(LaunchSnapshot { revision, ..after }),
                    None => Err(bare_refusal(StoreError::Corrupt)),
                }
            }
        },
    }
}

/// Decides a wish to change a launch.
///
/// `instance_taken` tells whether another launch has the instance.
pub fn mutate_launch(
    session_id: SessionId,
    expected_revision: Revision,
    change: LaunchChange,
    launch: Option<LaunchSnapshot>,
    instance_taken: bool,
) -> (result: Result<LaunchSnapshot, Refusal>)
    ensures
        result == launch_outcome(session_id, expected_revision, change, launch, instance_taken),
{
    let snapshot: LaunchSnapshot = match launch {
        Some(snapshot) => snapshot,
        None => {
            return Err(Refusal { error: StoreError::Invalid, recorded: true });
        },
    };
    if snapshot.session_id != session_id || snapshot.revision != expected_revision {
        return Err(Refusal { error: StoreError::Invalid, recorded: true });
    }
    let after: LaunchSnapshot = match apply_change(snapshot, change) {
        Some(after) => after,
        None => {
            return Err(Refusal { error: StoreError::Invalid, recorded: true });
        },
    };
    if after.instance_id.is_some() && instance_taken {
        return Err(Refusal { error: StoreError::Invalid, recorded: true });
    }
    match snapshot.revision.next() {
        Some(revision) => Ok(LaunchSnapshot { revision, ..after }),
        None => Err(Refusal { error: StoreError::Corrupt, recorded: false }),
    }
}

/// Preparing and changing a launch leave it sound, and the instance of a launch never changes
/// once it has one.
pub proof fn launches_stay_sound(
    command: PrepareLaunch,
    session_id: SessionId,
    expected_revision: Revision,
    change: LaunchChange,
    snapshot: LaunchSnapshot,
    instance_taken: bool,
)
    requires
        snapshot.sound(),
    ensures
        prepared(command).sound(),
        launch_outcome(
            session_id,
            expected_revision,
            change,
            Some(snapshot),
            instance_taken,
        ) matches Ok(after) ==> {
            &&& after.sound()
            &&& after.revision.0 == snapshot.revision.0 + 1
            &&& snapshot.instance_id is Some ==> after.instance_id == snapshot.instance_id
        },
{
}

/// A launch that has stopped stays stopped.
pub proof fn stopped_launches_stay_stopped(snapshot: LaunchSnapshot, change: LaunchChange)
    requires
        snapshot.state == LaunchState::Stopped,
    ensures
        changed_launch(snapshot, change) is None,
{
}

/// From every state a launch can be brought to a stop, by way of a cleanup.
pub proof fn launches_can_always_be_cleaned_up(state: LaunchState)
    ensures
        state == LaunchState::Stopped || launch_moves(state, LaunchState::CleanupRequired),
        launch_moves(LaunchState::CleanupRequired, LaunchState::Stopped),
{
}

/// Reads the answer to a question whether any row exists.
pub fn existence(value: i64) -> (result: Result<bool, StoreError>)
    ensures
        result == (if value == 0 {
            Ok::<bool, StoreError>(false)
        } else if value == 1 {
            Ok(true)
        } else {
            Err(StoreError::Corrupt)
        }),
{
    if value == 0 {
        Ok(false)
    } else if value == 1 {
        Ok(true)
    } else {
        Err(StoreError::Corrupt)
    }
}

} // verus!
