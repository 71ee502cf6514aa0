//! Participants, and the operations that they carry out.

use crate::capacity::{capacity_obstacle, ensure_derived_capacity, CapacityLimit, CapacityUsage};
use crate::error::{CapacityResource, Refusal, StoreError};
use crate::ids::{
    Digest, MessageId, OperationId, ParticipantId, RequestId, Revision, SessionId, TemplateId,
};
use crate::mailbox::{
    all_retired, mailbox_after, message_room, queue_counters, retirable,
    retire_correlated_messages, retired_messages_are_settled, saturating_room, take_room,
    Correlation, DeliveryState, Envelope, MailboxCounter, MessageBody, MessagePlan,
    MessagePriority, MessageSnapshot, StoreLimits,
};
use crate::projection::event::transition_allowed;
use crate::projection::ProjectionView;
use crate::text::{same_text, text_mark};
use crate::time::Timestamp;
use vstd::prelude::*;

verus! {

/// Where an operation stands.
#[derive(Clone, Copy, PartialEq, Eq, Debug, Structural)]
pub enum OperationState {
    Queued,
    Starting,
    Running,
    Waiting,
    Cancelling,
    Succeeded,
    Failed,
    Cancelled,
    Blocked,
    Uncertain,
}

/// What may happen to an operation.
#[derive(Clone, Copy, PartialEq, Eq, Debug, Structural)]
pub enum OperationAction {
    BeginStart,
    ReportRunning,
    Wait,
    Resume,
    RequestCancel,
    ReportCancelled,
    ReportFailure,
    ReportSuccess,
    ReportBlocked,
    ReportUncertain,
}

/// How an operation ended.
#[derive(Clone, Copy, PartialEq, Eq, Debug, Structural)]
pub enum OutcomeKind {
    Succeeded,
    Failed,
    Cancelled,
    Blocked,
    Uncertain,
}

/// The end of an operation: how it ended, and the digest under which it is made known.
#[derive(Clone, Copy, PartialEq, Eq, Debug, Structural)]
pub struct TerminalOutcome {
    pub kind: OutcomeKind,
    pub public_digest: Digest,
}

/// The stored name of an operation state.
pub open spec fn state_text(value: OperationState) -> Seq<char> {
    match value {
        OperationState::Queued => "queued"@,
        OperationState::Starting => "starting"@,
        OperationState::Running => "running"@,
        OperationState::Waiting => "waiting"@,
        OperationState::Cancelling => "cancelling"@,
        OperationState::Succeeded => "succeeded"@,
        OperationState::Failed => "failed"@,
        OperationState::Cancelled => "cancelled"@,
        OperationState::Blocked => "blocked"@,
        OperationState::Uncertain => "uncertain"@,
    }
}

/// The stored name of an operation state.
pub fn operation_state_name(value: OperationState) -> (name: &'static str)
    ensures
        name@ == state_text(value),
{
    match value {
        OperationState::Queued => "queued",
        OperationState::Starting => "starting",
        OperationState::Running => "running",
        OperationState::Waiting => "waiting",
        OperationState::Cancelling => "cancelling",
        OperationState::Succeeded => "succeeded",
        OperationState::Failed => "failed",
        OperationState::Cancelled => "cancelled",
        OperationState::Blocked => "blocked",
        OperationState::Uncertain => "uncertain",
    }
}

/// Reads the stored name of an operation state; any other text is corruption.
pub fn parse_operation_state(value: &str) -> (result: Result<OperationState, StoreError>)
    ensures
        match result {
            Ok(found) => state_text(found) == value@,
            Err(error) => error == StoreError::Corrupt && forall|other: OperationState|
                #[trigger] state_text(other) != value@,
        },
{
    if same_text(value, "queued") {
        Ok(OperationState::Queued)
    } else if same_text(value, "starting") {
        Ok(OperationState::Starting)
    } else if same_text(value, "running") {
        Ok(OperationState::Running)
    } else if same_text(value, "waiting") {
        Ok(OperationState::Waiting)
    } else if same_text(value, "cancelling") {
        Ok(OperationState::Cancelling)
    } else if same_text(value, "succeeded") {
        Ok(OperationState::Succeeded)
    } else if same_text(value, "failed") {
        Ok(OperationState::Failed)
    } else if same_text(value, "cancelled") {
        Ok(OperationState::Cancelled)
    } else if same_text(value, "blocked") {
        Ok(OperationState::Blocked)
    } else if same_text(value, "uncertain") {
        Ok(OperationState::Uncertain)
    } else {
        Err(StoreError::Corrupt)
    }
}

/// A stored name stands for one value only, so a name that was written is read back as the
/// value it was written for.
pub proof fn operation_state_names_are_distinct(left: OperationState, right: OperationState)
    requires
        state_text(left) == state_text(right),
    ensures
        left == right,
{
    reveal_strlit("queued");
    reveal_strlit("starting");
    reveal_strlit("running");
    reveal_strlit("waiting");
    reveal_strlit("cancelling");
    reveal_strlit("succeeded");
    reveal_strlit("failed");
    reveal_strlit("cancelled");
    reveal_strlit("blocked");
    reveal_strlit("uncertain");
    assert(text_mark(state_text(left)) == text_mark(state_text(right)));
}

/// The stored name of an outcome.
pub open spec fn outcome_text(value: OutcomeKind) -> Seq<char> {
    match value {
        OutcomeKind::Succeeded => "succeeded"@,
        OutcomeKind::Failed => "failed"@,
        OutcomeKind::Cancelled => "cancelled"@,
        OutcomeKind::Blocked => "blocked"@,
        OutcomeKind::Uncertain => "uncertain"@,
    }
}

/// The stored name of an outcome.
pub fn terminal_outcome_name(value: OutcomeKind) -> (name: &'static str)
    ensures
        name@ == outcome_text(value),
{
    match value {
        OutcomeKind::Succeeded => "succeeded",
        OutcomeKind::Failed => "failed",
        OutcomeKind::Cancelled => "cancelled",
        OutcomeKind::Blocked => "blocked",
        OutcomeKind::Uncertain => "uncertain",
    }
}

/// A stored name stands for one value only, so a name that was written is read back as the
/// value it was written for.
pub proof fn outcome_names_are_distinct(left: OutcomeKind, right: OutcomeKind)
    requires
        outcome_text(left) == outcome_text(right),
    ensures
        left == right,
{
    reveal_strlit("succeeded");
    reveal_strlit("failed");
    reveal_strlit("cancelled");
    reveal_strlit("blocked");
    reveal_strlit("uncertain");
    assert(text_mark(outcome_text(left)) == text_mark(outcome_text(right)));
}

/// The type of the event that tells a state.
pub open spec fn state_event(state: OperationState) -> Seq<char> {
    match state {
        OperationState::Queued => "operation.queued"@,
        OperationState::Starting => "operation.starting"@,
        OperationState::Running => "operation.running"@,
        OperationState::Waiting => "operation.waiting"@,
        OperationState::Cancelling => "operation.cancelling"@,
        OperationState::Succeeded => "operation.succeeded"@,
        OperationState::Failed => "operation.failed"@,
        OperationState::Cancelled => "operation.cancelled"@,
        OperationState::Blocked => "operation.blocked"@,
        OperationState::Uncertain => "operation.uncertain"@,
    }
}

/// The type of the event that tells a state.
pub fn operation_event_name(state: OperationState) -> (name: &'static str)
    ensures
        name@ == state_event(state),
{
    match state {
        OperationState::Queued => "operation.queued",
        OperationState::Starting => "operation.starting",
        OperationState::Running => "operation.running",
        OperationState::Waiting => "operation.waiting",
        OperationState::Cancelling => "operation.cancelling",
        OperationState::Succeeded => "operation.succeeded",
        OperationState::Failed => "operation.failed",
        OperationState::Cancelled => "operation.cancelled",
        OperationState::Blocked => "operation.blocked",
        OperationState::Uncertain => "operation.uncertain",
    }
}

/// The event type of a state is the name of the state behind the name of the family.
pub proof fn event_types_end_in_the_state(state: OperationState)
    ensures
        state_event(state) == "operation."@ + state_text(state),
{
    reveal_strlit("operation.");
    reveal_strlit("queued");
    reveal_strlit("operation.queued");
    reveal_strlit("starting");
    reveal_strlit("operation.starting");
    reveal_strlit("running");
    reveal_strlit("operation.running");
    reveal_strlit("waiting");
    reveal_strlit("operation.waiting");
    reveal_strlit("cancelling");
    reveal_strlit("operation.cancelling");
    reveal_strlit("succeeded");
    reveal_strlit("operation.succeeded");
    reveal_strlit("failed");
    reveal_strlit("operation.failed");
    reveal_strlit("cancelled");
    reveal_strlit("operation.cancelled");
    reveal_strlit("blocked");
    reveal_strlit("operation.blocked");
    reveal_strlit("uncertain");
    reveal_strlit("operation.uncertain");
    assert(state_event(state) =~= "operation."@ + state_text(state));
}

impl OperationState {
    /// Whether nothing more happens.
    pub open spec fn terminal(self) -> bool {
        match self {
            OperationState::Succeeded | OperationState::Failed | OperationState::Cancelled
            | OperationState::Blocked | OperationState::Uncertain => true,
            _ => false,
        }
    }

    /// Whether nothing more happens.
    pub fn is_terminal(self) -> (result: bool)
        ensures
            result == self.terminal(),
    {
        match self {
            OperationState::Succeeded | OperationState::Failed | OperationState::Cancelled
            | OperationState::Blocked | OperationState::Uncertain => true,
            _ => false,
        }
    }
}

/// The state in which an outcome leaves an operation.
pub open spec fn ending_state(kind: OutcomeKind) -> OperationState {
    match kind {
        OutcomeKind::Succeeded => OperationState::Succeeded,
        OutcomeKind::Failed => OperationState::Failed,
        OutcomeKind::Cancelled => OperationState::Cancelled,
        OutcomeKind::Blocked => OperationState::Blocked,
        OutcomeKind::Uncertain => OperationState::Uncertain,
    }
}

fn ends_in(kind: OutcomeKind) -> (state: OperationState)
    ensures
        state == ending_state(kind),
{
    match kind {
        OutcomeKind::Succeeded => OperationState::Succeeded,
        OutcomeKind::Failed => OperationState::Failed,
        OutcomeKind::Cancelled => OperationState::Cancelled,
        OutcomeKind::Blocked => OperationState::Blocked,
        OutcomeKind::Uncertain => OperationState::Uncertain,
    }
}

/// Whether an outcome belongs to a state.
pub fn terminal_matches_state(state: OperationState, outcome: TerminalOutcome) -> (result: bool)
    ensures
        result == (ending_state(outcome.kind) == state),
{
    ends_in(outcome.kind) == state
}

/// Whether a state goes with an outcome: an ended operation has the outcome of its state, and
/// any other has none.
pub open spec fn outcome_fits(state: OperationState, outcome: Option<TerminalOutcome>) -> bool {
    match outcome {
        Some(outcome) => ending_state(outcome.kind) == state,
        None => !state.terminal(),
    }
}

/// Whether a state goes with an outcome.
pub fn valid_terminal_outcome(state: OperationState, outcome: Option<TerminalOutcome>) -> (result:
    bool)
    ensures
        result == outcome_fits(state, outcome),
{
    match outcome {
        Some(outcome) => terminal_matches_state(state, outcome),
        None => !state.is_terminal(),
    }
}

/// The state to which an action leads.
pub open spec fn next_state(state: OperationState, action: OperationAction) -> Option<
    OperationState,
> {
    match (state, action) {
        (OperationState::Queued, OperationAction::BeginStart) => Some(OperationState::Starting),
        (OperationState::Starting, OperationAction::ReportRunning) => Some(OperationState::Running),
        (OperationState::Waiting, OperationAction::Resume) => Some(OperationState::Running),
        (OperationState::Running, OperationAction::Wait) => Some(OperationState::Waiting),
        (
            OperationState::Queued
            | OperationState::Starting
            | OperationState::Running
            | OperationState::Waiting,
            OperationAction::RequestCancel,
        ) => Some(OperationState::Cancelling),
        (
            OperationState::Queued | OperationState::Cancelling,
            OperationAction::ReportCancelled,
        ) => Some(OperationState::Cancelled),
        (
            OperationState::Queued
            | OperationState::Starting
            | OperationState::Running
            | OperationState::Waiting
            | OperationState::Cancelling,
            OperationAction::ReportFailure,
        ) => Some(OperationState::Failed),
        (OperationState::Running, OperationAction::ReportSuccess) => Some(
            OperationState::Succeeded,
        ),
        (
            OperationState::Running | OperationState::Waiting,
            OperationAction::ReportBlocked,
        ) => Some(OperationState::Blocked),
        (
            OperationState::Starting
            | OperationState::Running
            | OperationState::Waiting
            | OperationState::Cancelling,
            OperationAction::ReportUncertain,
        ) => Some(OperationState::Uncertain),
        _ => None,
    }
}

/// The state to which an action leads, where it leads anywhere.
pub fn next_operation_state(state: OperationState, action: OperationAction) -> (next: Option<
    OperationState,
>)
    ensures
        next == next_state(state, action),
{
    match (state, action) {
        (OperationState::Queued, OperationAction::BeginStart) => Some(OperationState::Starting),
        (OperationState::Starting, OperationAction::ReportRunning) => Some(OperationState::Running),
        (OperationState::Waiting, OperationAction::Resume) => Some(OperationState::Running),
        (OperationState::Running, OperationAction::Wait) => Some(OperationState::Waiting),
        (
            OperationState::Queued
            | OperationState::Starting
            | OperationState::Running
            | OperationState::Waiting,
            OperationAction::RequestCancel,
        ) => Some(OperationState::Cancelling),
        (
            OperationState::Queued | OperationState::Cancelling,
            OperationAction::ReportCancelled,
        ) => Some(OperationState::Cancelled),
        (
            OperationState::Queued
            | OperationState::Starting
            | OperationState::Running
            | OperationState::Waiting
            | OperationState::Cancelling,
            OperationAction::ReportFailure,
        ) => Some(OperationState::Failed),
        (OperationState::Running, OperationAction::ReportSuccess) => Some(
            OperationState::Succeeded,
        ),
        (
            OperationState::Running | OperationState::Waiting,
            OperationAction::ReportBlocked,
        ) => Some(OperationState::Blocked),
        (
            OperationState::Starting
            | OperationState::Running
            | OperationState::Waiting
            | OperationState::Cancelling,
            OperationAction::ReportUncertain,
        ) => Some(OperationState::Uncertain),
        _ => None,
    }
}

/// An operation that has ended stays as it is: no action leads out of it.
pub proof fn ended_operations_stay_ended(state: OperationState, action: OperationAction)
    requires
        state.terminal(),
    ensures
        next_state(state, action) is None,
{
}

/// An operation can always be brought to an end: a failure can be reported in every state that
/// is not an end.
pub proof fn live_operations_can_fail(state: OperationState)
    requires
        !state.terminal(),
    ensures
        next_state(state, OperationAction::ReportFailure) == Some(OperationState::Failed),
{
}

/// The active work view follows every move of an operation that the view provides for. It does
/// not provide for a queued operation that fails or is cancelled at once, nor for a cancellation
/// while an operation starts.
pub proof fn projections_follow_operations(state: OperationState, action: OperationAction)
    requires
        next_state(state, action) is Some,
        state == OperationState::Queued ==> !next_state(state, action)->Some_0.terminal(),
        state == OperationState::Starting ==> action != OperationAction::RequestCancel,
    ensures
        transition_allowed(
            ProjectionView::ActiveWork,
            state_event(state),
            state_event(next_state(state, action)->Some_0),
        ),
{
}

/// An operation.
#[derive(Clone, Copy, PartialEq, Eq, Debug, Structural)]
pub struct OperationSnapshot {
    pub session_id: SessionId,
    pub operation_id: OperationId,
    pub participant_id: ParticipantId,
    pub start_request_id: RequestId,
    pub input_message_id: MessageId,
    pub waiting_on_message_id: Option<MessageId>,
    pub input_digest: Digest,
    pub state: OperationState,
    pub revision: Revision,
    pub terminal_outcome: Option<TerminalOutcome>,
    pub created_at: Timestamp,
    pub updated_at: Timestamp,
}

impl OperationSnapshot {
    /// An operation waits for a message exactly while it is waiting, has an outcome exactly once
    /// it has ended, and has not changed before it was created.
    pub open spec fn sound(self) -> bool {
        &&& outcome_fits(self.state, self.terminal_outcome)
        &&& (self.state == OperationState::Waiting <==> self.waiting_on_message_id is Some)
        &&& !self.updated_at.spec_before(self.created_at)
    }
}

/// Checks an operation that was read, together with the name of its outcome that is kept beside
/// it.
pub fn decode_operation(snapshot: OperationSnapshot, outcome_name: Option<&str>) -> (result: Result<
    OperationSnapshot,
    StoreError,
>)
    ensures
        ({
            let named = match (outcome_name, snapshot.terminal_outcome) {
                (Some(name), Some(outcome)) => name@ == outcome_text(outcome.kind),
                (None, None) => true,
                _ => false,
            };
            result == (if snapshot.sound() && named {
                Ok::<OperationSnapshot, StoreError>(snapshot)
            } else {
                Err(StoreError::Corrupt)
            })
        }),
{
    let named: bool = match (outcome_name, snapshot.terminal_outcome) {
        (Some(name), Some(outcome)) => same_text(name, terminal_outcome_name(outcome.kind)),
        (None, None) => true,
        _ => false,
    };
    let waits: bool = snapshot.state == OperationState::Waiting;
    if snapshot.updated_at.before(snapshot.created_at) || !named || !valid_terminal_outcome(
        snapshot.state,
        snapshot.terminal_outcome,
    ) || waits != snapshot.waiting_on_message_id.is_some() {
        Err(StoreError::Corrupt)
    } else {
        Ok(snapshot)
    }
}

/// A participant of a session.
#[derive(Clone, Copy, PartialEq, Eq, Debug, Structural)]
pub struct ParticipantSnapshot {
    pub session_id: SessionId,
    pub participant_id: ParticipantId,
    pub parent_participant_id: Option<ParticipantId>,
    pub depth: u32,
    pub template_id: TemplateId,
    pub template_compatibility: Digest,
    pub revision: Revision,
}

impl ParticipantSnapshot {
    /// The root stands at depth one, everyone else below it, and no one below the deepest level.
    pub open spec fn sound(self, max_depth: u32) -> bool {
        &&& 1 <= self.depth <= max_depth
        &&& (self.parent_participant_id is None <==> self.depth == 1)
    }
}

/// Checks a participant that was read.
pub fn decode_participant(snapshot: ParticipantSnapshot, max_depth: u32) -> (result: Result<
    ParticipantSnapshot,
    StoreError,
>)
    ensures
        result == (if snapshot.sound(max_depth) {
            Ok::<ParticipantSnapshot, StoreError>(snapshot)
        } else {
            Err(StoreError::Corrupt)
        }),
{
    let is_root: bool = snapshot.parent_participant_id.is_none();
    let at_top: bool = snapshot.depth == 1;
    if snapshot.depth == 0 || snapshot.depth > max_depth || is_root != at_top {
        Err(StoreError::Corrupt)
    } else {
        Ok(snapshot)
    }
}

/// Whether the cancellation of a participant was asked for, from the kept mark.
pub fn participant_cancellation_requested(mark: Option<i64>) -> (result: Result<bool, StoreError>)
    ensures
        result == (match mark {
            None => Ok::<bool, StoreError>(false),
            Some(mark) => if mark == 0 {
                Ok(false)
            } else if mark == 1 {
                Ok(true)
            } else {
                Err(StoreError::Corrupt)
            },
        }),
{
    match mark {
        None => Ok(false),
        Some(mark) => if mark == 0 {
            Ok(false)
        } else if mark == 1 {
            Ok(true)
        } else {
            Err(StoreError::Corrupt)
        },
    }
}

/// A wish for the root participant of a session.
#[derive(Clone, Copy, PartialEq, Eq, Debug, Structural)]
pub struct CreateRootParticipant {
    pub session_id: SessionId,
    pub participant_id: ParticipantId,
    pub template_id: TemplateId,
    pub expected_compatibility: Digest,
}

/// What was found for a wish for a root participant.
#[derive(Clone, Copy, PartialEq, Eq, Debug, Structural)]
pub struct RootFacts {
    /// The compatibility of the template, where it is registered.
    pub template: Option<Digest>,
    /// Whether the session takes participants of the template.
    pub template_allowed: bool,
    /// The participant that already has the identity.
    pub existing: Option<ParticipantSnapshot>,
    /// Whether the session has a root.
    pub root_exists: bool,
    /// The use of participants.
    pub usage: CapacityUsage,
    /// The limits on participants.
    pub limit: CapacityLimit,
}

/// A participant that is there, or is to be written.
#[derive(Clone, Copy, PartialEq, Eq, Debug, Structural)]
pub enum ParticipantPlan {
    Unchanged(ParticipantSnapshot),
    Create(ParticipantSnapshot),
}

/// The refusal that goes into the ledger.
pub open spec fn kept_refusal(error: StoreError) -> Refusal {
    Refusal { error, recorded: true }
}

/// The refusal that leaves no trace.
pub open spec fn bare_refusal(error: StoreError) -> Refusal {
    Refusal { error, recorded: false }
}

fn refuse_invalid() -> (refusal: Refusal)
    ensures
        refusal == kept_refusal(StoreError::Invalid),
{
    Refusal { error: StoreError::Invalid, recorded: true }
}

/// The outcome of a wish for a root participant.
pub open spec fn root_outcome(command: CreateRootParticipant, facts: RootFacts) -> Result<
    ParticipantPlan,
    Refusal,
> {
    if facts.template != Some(command.expected_compatibility) || !facts.template_allowed {
        Err(kept_refusal(StoreError::Invalid))
    } else {
        match facts.existing {
            Some(existing) => if existing.session_id == command.session_id && existing.template_id
                == command.template_id {
                Ok(ParticipantPlan::Unchanged(existing))
            } else {
                Err(kept_refusal(StoreError::Invalid))
            },
            None => if facts.root_exists {
                Err(kept_refusal(StoreError::Invalid))
            } else {
                match capacity_obstacle(
                    CapacityResource::Participants,
                    facts.usage,
                    facts.limit,
                    1,
                ) {
                    Some(error) => Err(bare_refusal(error)),
                    None => Ok(
                        ParticipantPlan::Create(
                            ParticipantSnapshot {
                                session_id: command.session_id,
                                participant_id: command.participant_id,
                                parent_participant_id: None,
                                depth: 1,
                                template_id: command.template_id,
                                template_compatibility: command.expected_compatibility,
                                revision: Revision(1),
                            },
                        ),
                    ),
                }
            },
        }
    }
}

/// Decides a wish for a root participant.
pub fn create_root_participant(command: CreateRootParticipant, facts: RootFacts) -> (result: Result<
    ParticipantPlan,
    Refusal,
>)
    ensures
        result == root_outcome(command, facts),
{
    if facts.template != Some(command.expected_compatibility) || !facts.template_allowed {
        return Err(refuse_invalid());
    }
    if let Some(existing) = facts.existing {
        if existing.session_id != command.session_id || existing.template_id
            != command.template_id {
            return Err(refuse_invalid());
        }
        return Ok(ParticipantPlan::Unchanged(existing));
    }
    if facts.root_exists {
        return Err(refuse_invalid());
    }
    match ensure_derived_capacity(CapacityResource::Participants, facts.usage, facts.limit, 1) {
        Ok(_) => {},
        Err(error) => {
            return Err(Refusal { error, recorded: false });
        },
    }
    Ok(
        ParticipantPlan::Create(
            ParticipantSnapshot {
                session_id: command.session_id,
                participant_id: command.participant_id,
                parent_participant_id: None,
                depth: 1,
                template_id: command.template_id,
                template_compatibility: command.expected_compatibility,
                revision: Revision::initial(),
            },
        ),
    )
}

/// Checks that a recorded participant is still as it was recorded.
pub fn validate_participant_replay(
    recorded: ParticipantSnapshot,
    current: Option<ParticipantSnapshot>,
) -> (result: Result<(), StoreError>)
    ensures
        result == (if current == Some(recorded) {
            Ok::<(), StoreError>(())
        } else {
            Err(StoreError::Corrupt)
        }),
{
    if current == Some(recorded) {
        Ok(())
    } else {
        Err(StoreError::Corrupt)
    }
}

/// A wish for a participant below another.
#[derive(Clone, Copy, PartialEq, Eq, Debug, Structural)]
pub struct CreateChildParticipant {
    pub session_id: SessionId,
    pub participant_id: ParticipantId,
    pub parent_participant_id: ParticipantId,
    pub template_id: TemplateId,
    pub expected_compatibility: Digest,
}

/// What was found for a wish for a participant below another.
#[derive(Clone, Copy, PartialEq, Eq, Debug, Structural)]
pub struct ChildFacts {
    pub parent: Option<ParticipantSnapshot>,
    /// Whether the cancellation of the parent was asked for.
    pub parent_cancelled: bool,
    /// The compatibility of the template, where it is registered.
    pub template: Option<Digest>,
    /// Whether the session takes participants of the template.
    pub template_allowed: bool,
    /// Whether a participant already has the identity.
    pub exists: bool,
    /// How many participants stand directly below the parent.
    pub direct: i64,
    /// How many participants the session has.
    pub total: i64,
    /// The use of participants.
    pub usage: CapacityUsage,
    /// The limits on participants.
    pub limit: CapacityLimit,
}

/// Whether a participant may be placed below its parent.
pub open spec fn child_admissible(
    command: CreateChildParticipant,
    facts: ChildFacts,
    limits: StoreLimits,
) -> bool {
    &&& facts.parent matches Some(parent)
    &&& parent.session_id == command.session_id
    &&& parent.depth < limits.max_participant_depth
    &&& !facts.parent_cancelled
    &&& facts.template == Some(command.expected_compatibility)
    &&& command.participant_id != command.parent_participant_id
    &&& facts.template_allowed
    &&& !facts.exists
    &&& facts.direct < limits.max_direct_children
    &&& facts.total < limits.max_session_participants
}

/// The participant that is placed below a parent.
pub open spec fn child_of(
    command: CreateChildParticipant,
    parent: ParticipantSnapshot,
) -> ParticipantSnapshot {
    ParticipantSnapshot {
        session_id: command.session_id,
        participant_id: command.participant_id,
        parent_participant_id: Some(command.parent_participant_id),
        depth: (parent.depth + 1) as u32,
        template_id: command.template_id,
        template_compatibility: command.expected_compatibility,
        revision: Revision(1),
    }
}

/// The outcome of a wish for a participant below another.
pub open spec fn child_outcome(
    command: CreateChildParticipant,
    facts: ChildFacts,
    limits: StoreLimits,
) -> Result<ParticipantSnapshot, Refusal> {
    if !child_admissible(command, facts, limits) {
        Err(kept_refusal(StoreError::Invalid))
    } else {
        match capacity_obstacle(CapacityResource::Participants, facts.usage, facts.limit, 1) {
            Some(error) => Err(bare_refusal(error)),
            None => Ok(child_of(command, facts.parent->Some_0)),
        }
    }
}

/// Decides a wish for a participant below another.
pub fn create_child_participant(
    command: CreateChildParticipant,
    facts: ChildFacts,
    limits: StoreLimits,
) -> (result: Result<ParticipantSnapshot, Refusal>)
    ensures
        result == child_outcome(command, facts, limits),
{
    let parent: ParticipantSnapshot = match facts.parent {
        Some(parent) => parent,
        None => {
            return Err(refuse_invalid());
        },
    };
    if facts.parent_cancelled || facts.template != Some(command.expected_compatibility)
        || parent.session_id != command.session_id || command.participant_id
        == command.parent_participant_id || parent.depth >= limits.max_participant_depth
        || !facts.template_allowed || facts.exists || facts.direct
        >= limits.max_direct_children as i64 || facts.total
        >= limits.max_session_participants as i64 {
        return Err(refuse_invalid());
    }
    match ensure_derived_capacity(CapacityResource::Participants, facts.usage, facts.limit, 1) {
        Ok(_) => {},
        Err(error) => {
            return Err(Refusal { error, recorded: false });
        },
    }
    Ok(
        ParticipantSnapshot {
            session_id: command.session_id,
            participant_id: command.participant_id,
            parent_participant_id: Some(command.parent_participant_id),
            depth: parent.depth + 1,
            template_id: command.template_id,
            template_compatibility: command.expected_compatibility,
            revision: Revision::initial(),
        },
    )
}

/// Every participant that is created is sound, so it can be read back; the tree never grows
/// deeper than its limit.
pub proof fn created_participants_are_sound(
    root: CreateRootParticipant,
    root_facts: RootFacts,
    command: CreateChildParticipant,
    facts: ChildFacts,
    limits: StoreLimits,
)
    requires
        limits.max_participant_depth >= 1,
        facts.parent matches Some(parent) ==> parent.sound(limits.max_participant_depth),
    ensures
        root_outcome(root, root_facts) matches Ok(ParticipantPlan::Create(snapshot))
            ==> snapshot.sound(limits.max_participant_depth),
        child_outcome(command, facts, limits) matches Ok(snapshot) ==> {
            &&& snapshot.sound(limits.max_participant_depth)
            &&& snapshot.depth == facts.parent->Some_0.depth + 1
        },
{
}

/// A wish to start an operation.
#[derive(Clone, Copy, PartialEq, Eq, Debug, Structural)]
pub struct StartOperation {
    pub request_id: RequestId,
    pub session_id: SessionId,
    pub operation_id: OperationId,
    pub participant_id: ParticipantId,
    pub input_message_id: MessageId,
    /// The digest of the input.
    pub input_digest: Digest,
    /// The size of the envelope that tells the input, in bytes.
    pub envelope_size: u64,
}

/// What was found for a wish to start an operation.
#[derive(Clone, Copy, PartialEq, Eq, Debug, Structural)]
pub struct StartFacts {
    pub participant: Option<ParticipantSnapshot>,
    /// Whether the cancellation of the participant was asked for.
    pub cancelled: bool,
    /// The compatibility of the template of the participant, where it is registered and valid.
    pub template: Option<Digest>,
    /// Whether the template takes the input.
    pub input_valid: bool,
    /// Whether the participant has an operation that has not ended.
    pub unfinished: bool,
    /// Whether an operation already has the identity.
    pub exists: bool,
    /// Whether a message already has the identity of the input.
    pub message_exists: bool,
    /// The mailbox of the participant, where it has one.
    pub counter: Option<MailboxCounter>,
    pub queued_usage: CapacityUsage,
    pub queued_limit: CapacityLimit,
    pub message_usage: CapacityUsage,
    pub message_limit: CapacityLimit,
    pub byte_usage: CapacityUsage,
    pub byte_limit: CapacityLimit,
}

/// The operation that a wish starts.
pub open spec fn queued_operation(command: StartOperation, now: Timestamp) -> OperationSnapshot {
    OperationSnapshot {
        session_id: command.session_id,
        operation_id: command.operation_id,
        participant_id: command.participant_id,
        start_request_id: command.request_id,
        input_message_id: command.input_message_id,
        waiting_on_message_id: None,
        input_digest: command.input_digest,
        state: OperationState::Queued,
        revision: Revision(1),
        terminal_outcome: None,
        created_at: now,
        updated_at: now,
    }
}

/// The envelope that tells a participant the input of an operation.
pub open spec fn input_envelope(
    operation_id: OperationId,
    input_digest: Digest,
    size: u64,
) -> Envelope {
    Envelope { body: MessageBody::OperationInput { operation_id, input_digest }, size }
}

/// The message that tells a participant the input of an operation.
pub open spec fn input_message(
    operation: OperationSnapshot,
    size: u64,
    sequence: u64,
) -> MessageSnapshot {
    MessageSnapshot {
        session_id: operation.session_id,
        message_id: operation.input_message_id,
        source: operation.participant_id,
        destination: operation.participant_id,
        mailbox_sequence: sequence,
        priority: MessagePriority::Ordinary,
        correlation: Correlation {
            operation_id: Some(operation.operation_id),
            in_reply_to: None,
        },
        envelope: input_envelope(operation.operation_id, operation.input_digest, size),
        attempt_count: 0,
        state: DeliveryState::Queued,
        revision: Revision(1),
        created_at: operation.created_at,
        updated_at: operation.created_at,
    }
}

/// Makes the message that tells a participant the input of an operation.
pub fn make_input_message(operation: OperationSnapshot, size: u64, sequence: u64) -> (message:
    MessageSnapshot)
    ensures
        message == input_message(operation, size, sequence),
{
    MessageSnapshot {
        session_id: operation.session_id,
        message_id: operation.input_message_id,
        source: operation.participant_id,
        destination: operation.participant_id,
        mailbox_sequence: sequence,
        priority: MessagePriority::Ordinary,
        correlation: Correlation {
            operation_id: Some(operation.operation_id),
            in_reply_to: None,
        },
        envelope: Envelope {
            body: MessageBody::OperationInput {
                operation_id: operation.operation_id,
                input_digest: operation.input_digest,
            },
            size,
        },
        attempt_count: 0,
        state: DeliveryState::Queued,
        revision: Revision::initial(),
        created_at: operation.created_at,
        updated_at: operation.created_at,
    }
}

/// A new operation, its input message, and the mailbox after it.
#[derive(Clone, Copy, PartialEq, Eq, Debug, Structural)]
pub struct StartPlan {
    pub operation: OperationSnapshot,
    pub message: MessageSnapshot,
    pub counter: MailboxCounter,
}

/// The obstacle to a wish to start an operation, up to its place in the mailbox.
pub open spec fn start_obstacle(command: StartOperation, facts: StartFacts) -> Option<Refusal> {
    if !(facts.participant matches Some(participant) && participant.session_id
        == command.session_id) || facts.cancelled {
        Some(kept_refusal(StoreError::Invalid))
    } else if facts.template != Some(facts.participant->Some_0.template_compatibility) {
        Some(bare_refusal(StoreError::Corrupt))
    } else if !facts.input_valid || facts.unfinished || facts.exists {
        Some(kept_refusal(StoreError::Invalid))
    } else if capacity_obstacle(
        CapacityResource::QueuedOperations,
        facts.queued_usage,
        facts.queued_limit,
        1,
    ) is Some {
        Some(
            bare_refusal(
                capacity_obstacle(
                    CapacityResource::QueuedOperations,
                    facts.queued_usage,
                    facts.queued_limit,
                    1,
                )->Some_0,
            ),
        )
    } else if facts.message_exists {
        Some(kept_refusal(StoreError::Invalid))
    } else if capacity_obstacle(
        CapacityResource::Messages,
        facts.message_usage,
        facts.message_limit,
        1,
    ) is Some {
        Some(
            bare_refusal(
                capacity_obstacle(
                    CapacityResource::Messages,
                    facts.message_usage,
                    facts.message_limit,
                    1,
                )->Some_0,
            ),
        )
    } else {
        match capacity_obstacle(
            CapacityResource::MessageBytes,
            facts.byte_usage,
            facts.byte_limit,
            command.envelope_size,
        ) {
            Some(error) => Some(bare_refusal(error)),
            None => None,
        }
    }
}

/// The outcome of a wish to start an operation.
pub open spec fn start_outcome(
    command: StartOperation,
    facts: StartFacts,
    limits: StoreLimits,
    now: Timestamp,
) -> Result<StartPlan, Refusal> {
    match start_obstacle(command, facts) {
        Some(refusal) => Err(refusal),
        None => match saturating_room(facts.counter, command.envelope_size, limits) {
            Err(error) => Err(
                Refusal { error, recorded: error == StoreError::MailboxQuotaExceeded },
            ),
            Ok((sequence, counter)) => {
                let operation = queued_operation(command, now);
                Ok(
                    StartPlan {
                        operation,
                        message: input_message(operation, command.envelope_size, sequence),
                        counter,
                    },
                )
            },
        },
    }
}

/// Decides a wish to start an operation, at the time floor of its session.
pub fn start_operation(
    command: StartOperation,
    facts: StartFacts,
    limits: StoreLimits,
    now: Timestamp,
) -> (result: Result<StartPlan, Refusal>)
    ensures
        result == start_outcome(command, facts, limits, now),
{
    let participant: ParticipantSnapshot = match facts.participant {
        Some(participant) => participant,
        None => {
            return Err(refuse_invalid());
        },
    };
    if participant.session_id != command.session_id || facts.cancelled {
        return Err(refuse_invalid());
    }
    if facts.template != Some(participant.template_compatibility) {
        return Err(Refusal { error: StoreError::Corrupt, recorded: false });
    }
    if !facts.input_valid || facts.unfinished || facts.exists {
        return Err(refuse_invalid());
    }
    match ensure_derived_capacity(
        CapacityResource::QueuedOperations,
        facts.queued_usage,
        facts.queued_limit,
        1,
    ) {
        Ok(_) => {},
        Err(error) => {
            return Err(Refusal { error, recorded: false });
        },
    }
    if facts.message_exists {
        return Err(refuse_invalid());
    }
    match ensure_derived_capacity(
        CapacityResource::Messages,
        facts.message_usage,
        facts.message_limit,
        1,
    ) {
        Ok(_) => {},
        Err(error) => {
            return Err(Refusal { error, recorded: false });
        },
    }
    match ensure_derived_capacity(
        CapacityResource::MessageBytes,
        facts.byte_usage,
        facts.byte_limit,
        command.envelope_size,
    ) {
        Ok(_) => {},
        Err(error) => {
            return Err(Refusal { error, recorded: false });
        },
    }
    match take_room(facts.counter, command.envelope_size, limits) {
        Err(error) => {
            let recorded: bool = match &error {
                StoreError::MailboxQuotaExceeded => true,
                _ => false,
            };
            Err(Refusal { error, recorded })
        },
        Ok((sequence, counter)) => {
            let operation = OperationSnapshot {
                session_id: command.session_id,
                operation_id: command.operation_id,
                participant_id: command.participant_id,
                start_request_id: command.request_id,
                input_message_id: command.input_message_id,
                waiting_on_message_id: None,
                input_digest: command.input_digest,
                state: OperationState::Queued,
                revision: Revision::initial(),
                terminal_outcome: None,
                created_at: now,
                updated_at: now,
            };
            Ok(
                StartPlan {
                    operation,
                    message: make_input_message(operation, command.envelope_size, sequence),
                    counter,
                },
            )
        },
    }
}

/// Whether a recorded start still stands: the operation and its input message are those that
/// were recorded.
pub open spec fn start_stands(
    recorded: OperationSnapshot,
    current: Option<OperationSnapshot>,
    message: Option<MessageSnapshot>,
) -> bool {
    &&& current matches Some(current)
    &&& current.session_id == recorded.session_id
    &&& current.participant_id == recorded.participant_id
    &&& current.start_request_id == recorded.start_request_id
    &&& current.input_message_id == recorded.input_message_id
    &&& message matches Some(message)
    &&& message.session_id == current.session_id
    &&& message.source == current.participant_id
    &&& message.destination == current.participant_id
    &&& message.correlation.operation_id == Some(current.operation_id)
    &&& message.correlation.in_reply_to is None
    &&& message.envelope.body == (MessageBody::OperationInput {
        operation_id: current.operation_id,
        input_digest: current.input_digest,
    })
}

/// Answers a repeated wish to start an operation with the operation as it now stands.
pub fn validate_start_replay(
    recorded: OperationSnapshot,
    current: Option<OperationSnapshot>,
    message: Option<MessageSnapshot>,
) -> (result: Result<OperationSnapshot, StoreError>)
    ensures
        result == (if start_stands(recorded, current, message) {
            Ok::<OperationSnapshot, StoreError>(current->Some_0)
        } else {
            Err(StoreError::Corrupt)
        }),
{
    match (current, message) {
        (Some(current), Some(message)) => {
            let input = MessageBody::OperationInput {
                operation_id: current.operation_id,
                input_digest: current.input_digest,
            };
            if current.session_id != recorded.session_id || current.participant_id
                != recorded.participant_id || current.start_request_id
                != recorded.start_request_id || current.input_message_id
                != recorded.input_message_id || message.session_id != current.session_id
                || message.source != current.participant_id || message.destination
                != current.participant_id || message.correlation.operation_id != Some(
                current.operation_id,
            ) || message.correlation.in_reply_to.is_some() || message.envelope.body != input {
                Err(StoreError::Corrupt)
            } else {
                Ok(current)
            }
        },
        _ => Err(StoreError::Corrupt),
    }
}

/// The stored input of an operation, read again by its template: whether it is in the one form
/// that the template gives it, and its digest.
#[derive(Clone, Copy, PartialEq, Eq, Debug, Structural)]
pub struct ReadInput {
    pub canonical: bool,
    pub digest: Digest,
}

/// Checks the stored input of an operation.
///
/// `registered` is the compatibility of the template of the participant, and `input` the stored
/// input, each where it is there; an input that the template does not take is not.
pub fn check_operation_input(
    operation_id: OperationId,
    operation: Option<OperationSnapshot>,
    participant: Option<ParticipantSnapshot>,
    registered: Option<Digest>,
    input: Option<ReadInput>,
) -> (result: Result<(), StoreError>)
    ensures
        result == (match operation {
            None => Err::<(), StoreError>(StoreError::OperationNotFound { operation_id }),
            Some(operation) => match (participant, input) {
                (Some(participant), Some(input)) if registered == Some(
                    participant.template_compatibility,
                ) && input.canonical && input.digest == operation.input_digest => Ok(()),
                _ => Err(StoreError::Corrupt),
            },
        }),
{
    let operation: OperationSnapshot = match operation {
        Some(operation) => operation,
        None => {
            return Err(StoreError::OperationNotFound { operation_id });
        },
    };
    match (participant, input) {
        (Some(participant), Some(input)) => if registered == Some(
            participant.template_compatibility,
        ) && input.canonical && input.digest == operation.input_digest {
            Ok(())
        } else {
            Err(StoreError::Corrupt)
        },
        _ => Err(StoreError::Corrupt),
    }
}

/// A wish to move an operation on.
#[derive(Clone, Copy, PartialEq, Eq, Debug, Structural)]
pub struct TransitionOperation {
    pub request_id: RequestId,
    pub session_id: SessionId,
    pub operation_id: OperationId,
    pub expected_revision: Revision,
    pub action: OperationAction,
    pub report_message_id: Option<MessageId>,
    pub terminal_outcome: Option<TerminalOutcome>,
}

/// Actions that a driver reports.
pub open spec fn driver_report(action: OperationAction) -> bool {
    match action {
        OperationAction::ReportRunning | OperationAction::ReportSuccess
        | OperationAction::ReportFailure | OperationAction::ReportCancelled
        | OperationAction::ReportBlocked | OperationAction::ReportUncertain => true,
        _ => false,
    }
}

/// Whether an action names the message that it has to.
///
/// Waiting names a message other than the input, and resuming the message that was waited for.
/// A driver names an accepted message of the operation; it may name none for an operation that
/// never came to run. No other action names a message.
pub open spec fn report_correlates(
    snapshot: OperationSnapshot,
    command: TransitionOperation,
    report: Option<MessageSnapshot>,
) -> bool {
    let named = command.report_message_id;
    if command.action == OperationAction::Wait {
        named is Some && named != Some(snapshot.input_message_id)
            && snapshot.waiting_on_message_id is None
    } else if command.action == OperationAction::Resume {
        snapshot.waiting_on_message_id is Some && named == snapshot.waiting_on_message_id
    } else if driver_report(command.action) {
        if named is None {
            (command.action == OperationAction::ReportFailure || command.action
                == OperationAction::ReportUncertain) && (snapshot.state == OperationState::Queued
                || snapshot.state == OperationState::Starting)
        } else {
            &&& report matches Some(message)
            &&& message.session_id == snapshot.session_id
            &&& message.destination == snapshot.participant_id
            &&& message.correlation.operation_id == Some(snapshot.operation_id)
            &&& message.state is Accepted
        }
    } else {
        named is None
    }
}

/// Whether an action names the message that it has to.
///
/// `report` is the named message, where one is named and there.
pub fn valid_report_correlation(
    snapshot: OperationSnapshot,
    command: TransitionOperation,
    report: Option<MessageSnapshot>,
) -> (result: bool)
    ensures
        result == report_correlates(snapshot, command, report),
{
    match command.action {
        OperationAction::Wait => command.report_message_id.is_some() && command.report_message_id
            != Some(snapshot.input_message_id) && snapshot.waiting_on_message_id.is_none(),
        OperationAction::Resume => snapshot.waiting_on_message_id.is_some()
            && command.report_message_id == snapshot.waiting_on_message_id,
        OperationAction::ReportRunning | OperationAction::ReportSuccess
        | OperationAction::ReportFailure | OperationAction::ReportCancelled
        | OperationAction::ReportBlocked | OperationAction::ReportUncertain => {
            if command.report_message_id.is_none() {
                let excusable: bool = command.action == OperationAction::ReportFailure
                    || command.action == OperationAction::ReportUncertain;
                return excusable && (snapshot.state == OperationState::Queued || snapshot.state
                    == OperationState::Starting);
            }
            match report {
                Some(message) => {
                    let accepted: bool = match message.state {
                        DeliveryState::Accepted { .. } => true,
                        _ => false,
                    };
                    message.session_id == snapshot.session_id && message.destination
                        == snapshot.participant_id && message.correlation.operation_id == Some(
                        snapshot.operation_id,
                    ) && accepted
                },
                None => false,
            }
        },
        OperationAction::BeginStart | OperationAction::RequestCancel => {
            command.report_message_id.is_none()
        },
    }
}

/// What was found for a wish to move an operation on.
#[derive(Clone, Copy, PartialEq, Eq, Debug, Structural)]
pub struct TransitionFacts {
    pub operation: Option<OperationSnapshot>,
    /// The named message, where one is named and there.
    pub report: Option<MessageSnapshot>,
    pub active_usage: CapacityUsage,
    pub active_limit: CapacityLimit,
    pub event_usage: CapacityUsage,
    pub event_limit: CapacityLimit,
}

/// Whether a wish to move an operation on is in order.
pub open spec fn move_admissible(command: TransitionOperation, facts: TransitionFacts) -> bool {
    &&& facts.operation matches Some(snapshot)
    &&& snapshot.session_id == command.session_id
    &&& snapshot.revision == command.expected_revision
    &&& report_correlates(snapshot, command, facts.report)
    &&& next_state(snapshot.state, command.action) matches Some(next)
    &&& outcome_fits(next, command.terminal_outcome)
}

/// An operation that has been moved on.
pub open spec fn moved(
    snapshot: OperationSnapshot,
    command: TransitionOperation,
    observed: Timestamp,
) -> OperationSnapshot {
    let next = next_state(snapshot.state, command.action)->Some_0;
    OperationSnapshot {
        state: next,
        waiting_on_message_id: if command.action == OperationAction::Wait {
            command.report_message_id
        } else if next == OperationState::Waiting {
            snapshot.waiting_on_message_id
        } else {
            None
        },
        revision: snapshot.revision.spec_next()->Some_0,
        updated_at: observed.spec_max(snapshot.updated_at),
        terminal_outcome: command.terminal_outcome,
        ..snapshot
    }
}

/// The capacity obstacle to moving an operation on: a queued operation that comes alive counts
/// as active, and every move leaves an event.
pub open spec fn move_obstacle(
    snapshot: OperationSnapshot,
    next: OperationState,
    facts: TransitionFacts,
) -> Option<StoreError> {
    let active = capacity_obstacle(
        CapacityResource::ActiveOperations,
        facts.active_usage,
        facts.active_limit,
        1,
    );
    if snapshot.state == OperationState::Queued && !next.terminal() && active is Some {
        active
    } else {
        capacity_obstacle(
            CapacityResource::RetainedEvents,
            facts.event_usage,
            facts.event_limit,
            1,
        )
    }
}

/// The outcome of a wish to move an operation on.
pub open spec fn transition_outcome(
    command: TransitionOperation,
    facts: TransitionFacts,
    observed: Timestamp,
) -> Result<OperationSnapshot, Refusal> {
    if !move_admissible(command, facts) {
        Err(kept_refusal(StoreError::Invalid))
    } else {
        let snapshot = facts.operation->Some_0;
        let next = next_state(snapshot.state, command.action)->Some_0;
        match move_obstacle(snapshot, next, facts) {
            Some(error) => Err(bare_refusal(error)),
            None => if snapshot.revision.spec_next() is None {
                Err(bare_refusal(StoreError::Corrupt))
            } else {
                Ok(moved(snapshot, command, observed))
            },
        }
    }
}

/// Moves an operation on, leaving aside what follows from its end.
pub fn move_operation(
    command: TransitionOperation,
    facts: TransitionFacts,
    observed: Timestamp,
) -> (result: Result<OperationSnapshot, Refusal>)
    ensures
        result == transition_outcome(command, facts, observed),
{
    let snapshot: OperationSnapshot = match facts.operation {
        Some(snapshot) => snapshot,
        None => {
            return Err(refuse_invalid());
        },
    };
    if snapshot.session_id != command.session_id || snapshot.revision != command.expected_revision
        || !valid_report_correlation(snapshot, command, facts.report) {
        return Err(refuse_invalid());
    }
    let next: OperationState = match next_operation_state(snapshot.state, command.action) {
        Some(next) => next,
        None => {
            return Err(refuse_invalid());
        },
    };
    if !valid_terminal_outcome(next, command.terminal_outcome) {
        return Err(refuse_invalid());
    }
    if snapshot.state == OperationState::Queued && !next.is_terminal() {
        match ensure_derived_capacity(
            CapacityResource::ActiveOperations,
            facts.active_usage,
            facts.active_limit,
            1,
        ) {
            Ok(_) => {},
            Err(error) => {
                return Err(Refusal { error, recorded: false });
            },
        }
    }
    match ensure_derived_capacity(
        CapacityResource::RetainedEvents,
        facts.event_usage,
        facts.event_limit,
        1,
    ) {
        Ok(_) => {},
        Err(error) => {
            return Err(Refusal { error, recorded: false });
        },
    }
    let revision: Revision = match snapshot.revision.next() {
        Some(revision) => revision,
        None => {
            return Err(Refusal { error: StoreError::Corrupt, recorded: false });
        },
    };
    let waiting_on_message_id: Option<MessageId> = if command.action == OperationAction::Wait {
        command.report_message_id
    } else if next == OperationState::Waiting {
        snapshot.waiting_on_message_id
    } else {
        None
    };
    Ok(
        OperationSnapshot {
            state: next,
            waiting_on_message_id,
            revision,
            updated_at: observed.later(snapshot.updated_at),
            terminal_outcome: command.terminal_outcome,
            ..snapshot
        },
    )
}

/// Starting an operation and moving it on leave it sound; a move advances its revision by one,
/// keeps its identity, and never turns its time back.
pub proof fn moves_keep_operations_sound(
    start: StartOperation,
    command: TransitionOperation,
    facts: TransitionFacts,
    now: Timestamp,
)
    requires
        facts.operation matches Some(snapshot) ==> snapshot.sound(),
    ensures
        queued_operation(start, now).sound(),
        transition_outcome(command, facts, now) matches Ok(after) ==> {
            let before = facts.operation->Some_0;
            &&& after.sound()
            &&& after.revision.0 == before.revision.0 + 1
            &&& after.operation_id == before.operation_id
            &&& after.session_id == before.session_id
            &&& after.participant_id == before.participant_id
            &&& after.created_at == before.created_at
            &&& !after.updated_at.spec_before(before.updated_at)
        },
{
}

/// A wish that was carried out cannot be carried out again at the same revision: the revision
/// it expects has passed.
pub proof fn moves_are_not_repeated(
    command: TransitionOperation,
    facts: TransitionFacts,
    now: Timestamp,
    later: Timestamp,
)
    requires
        transition_outcome(command, facts, now) is Ok,
    ensures
        transition_outcome(
            command,
            TransitionFacts {
                operation: Some(transition_outcome(command, facts, now)->Ok_0),
                ..facts
            },
            later,
        ) is Err,
{
}

/// How an outcome is made known outside its participant.
pub fn public_terminal_outcome(outcome: TerminalOutcome) -> (kind: OutcomeKind)
    ensures
        kind == outcome.kind,
{
    outcome.kind
}

/// What was found for telling the outcome of an operation to the parent of its participant.
#[derive(Clone, Copy, PartialEq, Eq, Debug, Structural)]
pub struct UpwardFacts {
    pub parent_id: ParticipantId,
    /// The operation of the parent that has not ended.
    pub parent_operation: Option<OperationId>,
    /// Whether the policy of the participant lets it tell the outcome.
    pub authorized: bool,
    /// The identity that the message is to have, and whether it is taken.
    pub message_id: MessageId,
    pub message_exists: bool,
    /// The mailbox of the parent, where it has one.
    pub counter: Option<MailboxCounter>,
    /// The size of the envelope, in bytes.
    pub envelope_size: u64,
    /// The priority that messages of this kind have.
    pub priority: MessagePriority,
}

/// The message that tells an outcome upward.
pub open spec fn outcome_message(
    operation: OperationSnapshot,
    outcome: TerminalOutcome,
    facts: UpwardFacts,
    sequence: u64,
) -> MessageSnapshot {
    MessageSnapshot {
        session_id: operation.session_id,
        message_id: facts.message_id,
        source: operation.participant_id,
        destination: facts.parent_id,
        mailbox_sequence: sequence,
        priority: facts.priority,
        correlation: Correlation { operation_id: facts.parent_operation, in_reply_to: None },
        envelope: Envelope {
            body: MessageBody::OperationOutcome {
                operation_id: operation.operation_id,
                outcome: outcome.kind,
                result_digest: outcome.public_digest,
            },
            size: facts.envelope_size,
        },
        attempt_count: 0,
        state: DeliveryState::Queued,
        revision: Revision(1),
        created_at: operation.updated_at,
        updated_at: operation.updated_at,
    }
}

/// What comes of telling an outcome upward: a message, or nothing where it is not authorized, the
/// identity is taken, or the mailbox is full.
pub open spec fn upward_outcome(
    operation: OperationSnapshot,
    outcome: TerminalOutcome,
    facts: UpwardFacts,
    limits: StoreLimits,
) -> Result<Option<MessagePlan>, StoreError> {
    if facts.parent_operation is None || !facts.authorized || facts.message_exists {
        Ok(None)
    } else {
        match message_room(facts.counter, facts.envelope_size, true, limits) {
            Err(refusal) => if refusal.error == StoreError::MailboxQuotaExceeded {
                Ok(None)
            } else {
                Err(refusal.error)
            },
            Ok((sequence, counter)) => Ok(
                Some(
                    MessagePlan {
                        message: outcome_message(operation, outcome, facts, sequence),
                        counter,
                    },
                ),
            ),
        }
    }
}

/// Tells the outcome of an operation to the parent of its participant.
pub fn tell_outcome_upward(
    operation: OperationSnapshot,
    outcome: TerminalOutcome,
    facts: UpwardFacts,
    limits: StoreLimits,
) -> (result: Result<Option<MessagePlan>, StoreError>)
    requires
        limits.wf(),
    ensures
        result == upward_outcome(operation, outcome, facts, limits),
{
    if facts.parent_operation.is_none() || !facts.authorized || facts.message_exists {
        return Ok(None);
    }
    match queue_counters(facts.counter, facts.envelope_size, true, limits) {
        Err(refusal) => match refusal.error {
            StoreError::MailboxQuotaExceeded => Ok(None),
            error => Err(error),
        },
        Ok((sequence, counter)) => {
            let message = MessageSnapshot {
                session_id: operation.session_id,
                message_id: facts.message_id,
                source: operation.participant_id,
                destination: facts.parent_id,
                mailbox_sequence: sequence,
                priority: facts.priority,
                correlation: Correlation {
                    operation_id: facts.parent_operation,
                    in_reply_to: None,
                },
                envelope: Envelope {
                    body: MessageBody::OperationOutcome {
                        operation_id: operation.operation_id,
                        outcome: public_terminal_outcome(outcome),
                        result_digest: outcome.public_digest,
                    },
                    size: facts.envelope_size,
                },
                attempt_count: 0,
                state: DeliveryState::Queued,
                revision: Revision::initial(),
                created_at: operation.updated_at,
                updated_at: operation.updated_at,
            };
            Ok(Some(MessagePlan { message, counter }))
        },
    }
}

/// What was found for the end of an operation.
pub struct EndFacts {
    /// The participant of the operation, where it is there.
    pub participant: Option<ParticipantSnapshot>,
    /// The messages to the participant that belong to the operation and are open.
    pub open: Vec<MessageSnapshot>,
    /// The mailbox of the participant, where it has one.
    pub counter: Option<MailboxCounter>,
    /// What was found for telling the parent of the participant.
    pub upward: UpwardFacts,
}

/// Whom the outcome of an operation was told.
#[derive(Clone, Copy, PartialEq, Eq, Debug, Structural)]
pub enum Told {
    /// The operation goes on, or its participant stands below nobody.
    Nobody,
    /// The parent is not told.
    Denied,
    Parent(MessagePlan),
}

/// Whom the outcome of an operation is told.
pub open spec fn told_outcome(
    operation: OperationSnapshot,
    participant: Option<ParticipantSnapshot>,
    upward: UpwardFacts,
    limits: StoreLimits,
) -> Result<Told, StoreError> {
    match (operation.terminal_outcome, participant) {
        (None, _) => Ok(Told::Nobody),
        (Some(_), None) => Err(StoreError::Corrupt),
        (Some(outcome), Some(participant)) => match participant.parent_participant_id {
            None => Ok(Told::Nobody),
            Some(parent_id) => match upward_outcome(
                operation,
                outcome,
                UpwardFacts { parent_id, ..upward },
                limits,
            ) {
                Err(error) => Err(error),
                Ok(None) => Ok(Told::Denied),
                Ok(Some(plan)) => Ok(Told::Parent(plan)),
            },
        },
    }
}

fn tell_outcome(
    operation: OperationSnapshot,
    participant: Option<ParticipantSnapshot>,
    upward: UpwardFacts,
    limits: StoreLimits,
) -> (result: Result<Told, StoreError>)
    requires
        limits.wf(),
    ensures
        result == told_outcome(operation, participant, upward, limits),
{
    match (operation.terminal_outcome, participant) {
        (None, _) => Ok(Told::Nobody),
        (Some(_), None) => Err(StoreError::Corrupt),
        (Some(outcome), Some(participant)) => match participant.parent_participant_id {
            None => Ok(Told::Nobody),
            Some(parent_id) => match tell_outcome_upward(
                operation,
                outcome,
                UpwardFacts { parent_id, ..upward },
                limits,
            ) {
                Err(error) => Err(error),
                Ok(None) => Ok(Told::Denied),
                Ok(Some(plan)) => Ok(Told::Parent(plan)),
            },
        },
    }
}

/// An operation that was moved on, and what follows where it ended: the messages that were
/// retired, the counts of the mailbox where they change, and whom the outcome was told.
pub struct MovedOperation {
    pub operation: OperationSnapshot,
    pub retired: Vec<MessageSnapshot>,
    pub counter: Option<MailboxCounter>,
    pub told: Told,
}

/// Whether a move of an operation has exactly the effects that it should have: none beyond the
/// operation while that goes on; once it has ended, its open messages are retired and its outcome
/// is told.
pub open spec fn moved_with_effects(
    plan: MovedOperation,
    end: EndFacts,
    limits: StoreLimits,
    observed: Timestamp,
) -> bool {
    &&& told_outcome(plan.operation, end.participant, end.upward, limits) == Ok::<Told, StoreError>(
        plan.told,
    )
    &&& if plan.operation.terminal_outcome is None {
        plan.retired@.len() == 0 && plan.counter is None
    } else {
        &&& retirable(end.open@, plan.operation, end.counter, observed)
        &&& all_retired(end.open@, plan.operation, observed, plan.retired@)
        &&& plan.counter == mailbox_after(end.counter, end.open@, end.open@.len())
    }
}

/// What stops an operation from ending: messages that cannot be retired, or an outcome that
/// cannot be told.
pub open spec fn end_obstacle(
    operation: OperationSnapshot,
    end: EndFacts,
    limits: StoreLimits,
    observed: Timestamp,
) -> Option<StoreError> {
    if operation.terminal_outcome is None {
        None
    } else if !retirable(end.open@, operation, end.counter, observed) {
        Some(StoreError::Corrupt)
    } else {
        match told_outcome(operation, end.participant, end.upward, limits) {
            Err(error) => Some(error),
            Ok(_) => None,
        }
    }
}

/// Decides a wish to move an operation on, with everything that follows.
pub fn transition_operation(
    command: TransitionOperation,
    facts: TransitionFacts,
    end: &EndFacts,
    limits: StoreLimits,
    observed: Timestamp,
) -> (result: Result<MovedOperation, Refusal>)
    requires
        limits.wf(),
    ensures
        match transition_outcome(command, facts, observed) {
            Err(refusal) => result matches Err(given) && given == refusal,
            Ok(operation) => match end_obstacle(operation, *end, limits, observed) {
                Some(error) => result matches Err(given) && given == bare_refusal(error),
                None => {
                    &&& result matches Ok(plan)
                    &&& plan.operation == operation
                    &&& moved_with_effects(plan, *end, limits, observed)
                },
            },
        },
{
    let operation: OperationSnapshot = match move_operation(command, facts, observed) {
        Ok(operation) => operation,
        Err(refusal) => {
            return Err(refusal);
        },
    };
    if operation.terminal_outcome.is_none() {
        let retired: Vec<MessageSnapshot> = Vec::new();
        return Ok(MovedOperation { operation, retired, counter: None, told: Told::Nobody });
    }
    match retire_correlated_messages(&end.open, operation, end.counter, observed) {
        Err(error) => Err(Refusal { error, recorded: false }),
        Ok((retired, counter)) => match tell_outcome(
            operation,
            end.participant,
            end.upward,
            limits,
        ) {
            Err(error) => Err(Refusal { error, recorded: false }),
            Ok(told) => Ok(MovedOperation { operation, retired, counter, told }),
        },
    }
}

/// An operation that has ended leaves no message to it open, and its outcome reaches no one but
/// the parent of its participant, under the operation of the parent that goes on.
pub proof fn ended_operations_leave_nothing_open(
    plan: MovedOperation,
    end: EndFacts,
    limits: StoreLimits,
    observed: Timestamp,
)
    requires
        moved_with_effects(plan, end, limits, observed),
        plan.operation.terminal_outcome is Some,
    ensures
        plan.retired@.len() == end.open@.len(),
        forall|i: int| 0 <= i < plan.retired@.len() ==> #[trigger] plan.retired@[i].state.terminal(),
        plan.told matches Told::Parent(told) ==> {
            &&& end.participant matches Some(participant)
            &&& participant.parent_participant_id == Some(told.message.destination)
            &&& told.message.source == plan.operation.participant_id
            &&& told.message.correlation.operation_id == end.upward.parent_operation
            &&& end.upward.parent_operation is Some
            &&& end.upward.authorized
        },
{
    assert forall|i: int| 0 <= i < plan.retired@.len() implies #[trigger] plan.retired@[
        i
    ].state.terminal() by {
        retired_messages_are_settled(end.open@[i], plan.operation, observed);
    }
}

} // verus!
