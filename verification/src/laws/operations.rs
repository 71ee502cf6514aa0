//! Participants and operations: who may be created, what may start, how an operation moves, and
//! who is told of its end.

use crate::error::{Refusal, StoreError};
use crate::ids::{Digest, MessageId, OperationId};
use crate::laws::hierarchies::same_operation;
use crate::laws::mailboxes::{bytes_of, is_retired, lemma_emptied};
use crate::laws::words::{
    has_ended, has_room, is_settled, just_queued, latest, placed_next, refused_for_good,
    refused_for_now, takes,
};
use crate::mailbox::{
    mailbox_after, MailboxCounter, MessageBody, MessagePlan, MessageSnapshot, StoreLimits,
};
use crate::operation::{
    check_operation_input, create_child_participant, create_root_participant, decode_operation,
    decode_participant, make_input_message, next_operation_state,
    move_obstacle, next_state, participant_cancellation_requested, start_operation, tell_outcome_upward, transition_operation,
    valid_report_correlation, valid_terminal_outcome, validate_participant_replay,
    validate_start_replay, ChildFacts, CreateChildParticipant, CreateRootParticipant, EndFacts,
    MovedOperation, OperationAction, OperationSnapshot, OperationState, OutcomeKind,
    ParticipantPlan, ParticipantSnapshot, ReadInput, RootFacts, StartFacts, StartOperation,
    StartPlan, TerminalOutcome, Told, TransitionFacts, TransitionOperation, UpwardFacts,
};
use crate::time::Timestamp;
use vstd::prelude::*;

verus! {

/// From where each action can be taken.
pub open spec fn can_be_taken(state: OperationState, action: OperationAction) -> bool {
    match action {
        OperationAction::BeginStart => state is Queued,
        OperationAction::ReportRunning => state is Starting,
        OperationAction::Wait | OperationAction::ReportSuccess => state is Running,
        OperationAction::Resume => state is Waiting,
        OperationAction::RequestCancel => !has_ended(state) && !(state is Cancelling),
        OperationAction::ReportCancelled => state is Queued || state is Cancelling,
        OperationAction::ReportFailure => !has_ended(state),
        OperationAction::ReportBlocked => state is Running || state is Waiting,
        OperationAction::ReportUncertain => !has_ended(state) && !(state is Queued),
    }
}

/// Where each action leads.
pub open spec fn leads_to(action: OperationAction, next: OperationState) -> bool {
    match action {
        OperationAction::BeginStart => next is Starting,
        OperationAction::ReportRunning | OperationAction::Resume => next is Running,
        OperationAction::Wait => next is Waiting,
        OperationAction::RequestCancel => next is Cancelling,
        OperationAction::ReportCancelled => next is Cancelled,
        OperationAction::ReportFailure => next is Failed,
        OperationAction::ReportSuccess => next is Succeeded,
        OperationAction::ReportBlocked => next is Blocked,
        OperationAction::ReportUncertain => next is Uncertain,
    }
}

/// An action leads from every state in which it can be taken to one and the same state.
pub proof fn actions_lead_to_their_state(
    state: OperationState,
    action: OperationAction,
    next: Option<OperationState>,
)
    requires
        call_ensures(next_operation_state, (state, action), next),
    ensures
        next is Some <==> can_be_taken(state, action),
        next matches Some(next) ==> leads_to(action, next),
{
}

/// The outcome says how the operation ended, and there is none before.
pub open spec fn outcome_of(state: OperationState, outcome: Option<TerminalOutcome>) -> bool {
    match outcome {
        Some(outcome) => match outcome.kind {
            OutcomeKind::Succeeded => state is Succeeded,
            OutcomeKind::Failed => state is Failed,
            OutcomeKind::Cancelled => state is Cancelled,
            OutcomeKind::Blocked => state is Blocked,
            OutcomeKind::Uncertain => state is Uncertain,
        },
        None => !has_ended(state),
    }
}

/// An outcome fits a state exactly when it is the outcome of that end.
pub proof fn outcomes_say_how_it_ended(
    state: OperationState,
    outcome: Option<TerminalOutcome>,
    result: bool,
)
    requires
        call_ensures(valid_terminal_outcome, (state, outcome), result),
    ensures
        result <==> outcome_of(state, outcome),
{
}

/// An operation is read back only if its outcome, its waiting and its times fit its state.
pub proof fn stored_operations_are_coherent(
    snapshot: OperationSnapshot,
    result: Result<OperationSnapshot, StoreError>,
)
    requires
        call_ensures(decode_operation, (snapshot, None::<&str>), result),
    ensures
        result is Ok <==> {
            &&& snapshot.terminal_outcome is None
            &&& !has_ended(snapshot.state)
            &&& snapshot.state is Waiting <==> snapshot.waiting_on_message_id is Some
            &&& !snapshot.updated_at.spec_before(snapshot.created_at)
        },
        result matches Ok(read) ==> read == snapshot,
        result matches Err(error) ==> error == StoreError::Corrupt,
{
}

/// Only a root is without a parent, and it is at depth one.
pub proof fn stored_participants_are_coherent(
    snapshot: ParticipantSnapshot,
    max_depth: u32,
    result: Result<ParticipantSnapshot, StoreError>,
)
    requires
        call_ensures(decode_participant, (snapshot, max_depth), result),
    ensures
        result is Ok <==> {
            &&& 1 <= snapshot.depth <= max_depth
            &&& snapshot.depth == 1 <==> snapshot.parent_participant_id is None
        },
        result matches Ok(read) ==> read == snapshot,
        result matches Err(error) ==> error == StoreError::Corrupt,
{
}

/// A mark of one says that cancellation was requested; none, or zero, that it was not.
pub proof fn cancellation_marks_are_read(mark: Option<i64>, result: Result<bool, StoreError>)
    requires
        call_ensures(participant_cancellation_requested, (mark,), result),
    ensures
        result == Ok::<bool, StoreError>(true) <==> mark == Some(1i64),
        result == Ok::<bool, StoreError>(false) <==> mark is None || mark == Some(0i64),
        result matches Err(error) ==> error == StoreError::Corrupt,
{
}

/// A session has one root, of a template that it allows, at depth one. Asking for it again
/// changes nothing.
pub proof fn sessions_have_one_root(
    command: CreateRootParticipant,
    facts: RootFacts,
    result: Result<ParticipantPlan, Refusal>,
)
    requires
        call_ensures(create_root_participant, (command, facts), result),
    ensures
        result matches Ok(ParticipantPlan::Create(_)) <==> {
            &&& facts.template == Some(command.expected_compatibility)
            &&& facts.template_allowed
            &&& facts.existing is None
            &&& !facts.root_exists
            &&& has_room(facts.usage, facts.limit, 1)
        },
        result matches Ok(ParticipantPlan::Unchanged(_)) <==> {
            &&& facts.template == Some(command.expected_compatibility)
            &&& facts.template_allowed
            &&& facts.existing matches Some(existing)
            &&& existing.session_id == command.session_id
            &&& existing.template_id == command.template_id
        },
        result matches Ok(ParticipantPlan::Unchanged(kept)) ==> facts.existing == Some(kept),
        result matches Ok(ParticipantPlan::Create(root)) ==> {
            &&& root.session_id == command.session_id
            &&& root.participant_id == command.participant_id
            &&& root.parent_participant_id is None
            &&& root.depth == 1
            &&& root.template_id == command.template_id
            &&& root.template_compatibility == command.expected_compatibility
            &&& root.revision.0 == 1
        },
        facts.template != Some(command.expected_compatibility) || !facts.template_allowed || (
        facts.existing is None && facts.root_exists) ==> refused_for_good(
            result,
            StoreError::Invalid,
        ),
        facts.template == Some(command.expected_compatibility) && facts.template_allowed
            && facts.existing is None && !facts.root_exists && !has_room(
            facts.usage,
            facts.limit,
            1,
        ) ==> (result matches Err(refusal) && !refusal.recorded),
{
}

/// A child is created under a parent of the session that is not being cancelled, one level below
/// it, while the limits on depth and numbers hold.
pub proof fn children_are_created_below_their_parent(
    command: CreateChildParticipant,
    facts: ChildFacts,
    limits: StoreLimits,
    result: Result<ParticipantSnapshot, Refusal>,
)
    requires
        call_ensures(create_child_participant, (command, facts, limits), result),
    ensures
        result is Ok <==> may_have_a_child(command, facts, limits) && has_room(
            facts.usage,
            facts.limit,
            1,
        ),
        result matches Ok(child) ==> {
            &&& child.session_id == command.session_id
            &&& child.participant_id == command.participant_id
            &&& child.parent_participant_id == Some(command.parent_participant_id)
            &&& child.depth == facts.parent->Some_0.depth + 1
            &&& child.template_id == command.template_id
            &&& child.template_compatibility == command.expected_compatibility
            &&& child.revision.0 == 1
        },
        !may_have_a_child(command, facts, limits) ==> refused_for_good(result, StoreError::Invalid),
        may_have_a_child(command, facts, limits) && result is Err ==> !result->Err_0.recorded,
{
}

/// What the parent and the limits must be for a child to be created.
pub open spec fn may_have_a_child(
    command: CreateChildParticipant,
    facts: ChildFacts,
    limits: StoreLimits,
) -> bool {
    &&& facts.parent matches Some(parent)
    &&& parent.session_id == command.session_id
    &&& parent.depth + 1 <= limits.max_participant_depth
    &&& !facts.parent_cancelled
    &&& facts.template == Some(command.expected_compatibility)
    &&& facts.template_allowed
    &&& command.participant_id != command.parent_participant_id
    &&& !facts.exists
    &&& facts.direct + 1 <= limits.max_direct_children
    &&& facts.total + 1 <= limits.max_session_participants
}

/// A participant that is told again must be the one that was recorded.
pub proof fn recorded_participants_are_checked(
    recorded: ParticipantSnapshot,
    current: Option<ParticipantSnapshot>,
    result: Result<(), StoreError>,
)
    requires
        call_ensures(validate_participant_replay, (recorded, current), result),
    ensures
        result is Ok <==> current == Some(recorded),
        result matches Err(error) ==> error == StoreError::Corrupt,
{
}

/// The message that carries the input of an operation to its participant.
pub open spec fn carries_input(
    message: MessageSnapshot,
    operation: OperationSnapshot,
    size: u64,
) -> bool {
    &&& message.session_id == operation.session_id
    &&& message.message_id == operation.input_message_id
    &&& message.source == operation.participant_id
    &&& message.destination == operation.participant_id
    &&& message.priority is Ordinary
    &&& message.correlation.operation_id == Some(operation.operation_id)
    &&& message.correlation.in_reply_to is None
    &&& message.envelope.size == size
    &&& message.envelope.body is OperationInput
    &&& message.envelope.body->OperationInput_operation_id == operation.operation_id
    &&& message.envelope.body->OperationInput_input_digest == operation.input_digest
    &&& just_queued(message, operation.created_at)
}

/// An operation that was just asked for.
pub open spec fn is_queued_as(
    operation: OperationSnapshot,
    command: StartOperation,
    now: Timestamp,
) -> bool {
    &&& operation.session_id == command.session_id
    &&& operation.operation_id == command.operation_id
    &&& operation.participant_id == command.participant_id
    &&& operation.start_request_id == command.request_id
    &&& operation.input_message_id == command.input_message_id
    &&& operation.waiting_on_message_id is None
    &&& operation.input_digest == command.input_digest
    &&& operation.state is Queued
    &&& operation.revision.0 == 1
    &&& operation.terminal_outcome is None
    &&& operation.created_at == now
    &&& operation.updated_at == now
}

/// The input of an operation goes to its participant, in its words.
pub proof fn inputs_carry_their_operation(
    operation: OperationSnapshot,
    size: u64,
    sequence: u64,
    message: MessageSnapshot,
)
    requires
        call_ensures(make_input_message, (operation, size, sequence), message),
    ensures
        carries_input(message, operation, size),
        message.mailbox_sequence == sequence,
{
}

/// The participant is in the session and not being cancelled, nothing of it is unfinished, and
/// operation and input are new and valid.
pub open spec fn may_start(command: StartOperation, facts: StartFacts) -> bool {
    &&& facts.participant matches Some(participant)
    &&& participant.session_id == command.session_id
    &&& !facts.cancelled
    &&& facts.template == Some(participant.template_compatibility)
    &&& facts.input_valid
    &&& !facts.unfinished
    &&& !facts.exists
    &&& !facts.message_exists
}

/// An operation starts queued, with its input in the mailbox of its participant, exactly when
/// the participant is free and there is room for both.
pub proof fn operations_start_with_their_input(
    command: StartOperation,
    facts: StartFacts,
    limits: StoreLimits,
    now: Timestamp,
    result: Result<StartPlan, Refusal>,
)
    requires
        call_ensures(start_operation, (command, facts, limits, now), result),
    ensures
        result is Ok <==> {
            &&& may_start(command, facts)
            &&& has_room(facts.queued_usage, facts.queued_limit, 1)
            &&& has_room(facts.message_usage, facts.message_limit, 1)
            &&& has_room(facts.byte_usage, facts.byte_limit, command.envelope_size as int)
            &&& takes(
                facts.counter,
                command.envelope_size,
                limits.mailbox_queued_bytes as int,
                limits.mailbox_queued_messages as int,
            )
        },
        result matches Ok(plan) ==> {
            &&& is_queued_as(plan.operation, command, now)
            &&& carries_input(plan.message, plan.operation, command.envelope_size)
            &&& placed_next(
                facts.counter,
                command.envelope_size,
                plan.message.mailbox_sequence,
                plan.counter,
            )
        },
{
}

/// A participant that is not there or is being cancelled, an invalid input, unfinished work and
/// a used identity are answers that the ledger keeps; a template that changed is corruption; for
/// want of room in the session or the store nothing is written.
pub proof fn refused_starts_say_why(
    command: StartOperation,
    facts: StartFacts,
    limits: StoreLimits,
    now: Timestamp,
    result: Result<StartPlan, Refusal>,
)
    requires
        call_ensures(start_operation, (command, facts, limits, now), result),
    ensures
        facts.participant is None || facts.participant->Some_0.session_id != command.session_id
            || facts.cancelled ==> refused_for_good(result, StoreError::Invalid),
        facts.participant is Some && facts.participant->Some_0.session_id == command.session_id
            && !facts.cancelled && facts.template != Some(
            facts.participant->Some_0.template_compatibility,
        ) ==> refused_for_now(result, StoreError::Corrupt),
        facts.participant is Some && facts.participant->Some_0.session_id == command.session_id
            && !facts.cancelled && facts.template == Some(
            facts.participant->Some_0.template_compatibility,
        ) && (!facts.input_valid || facts.unfinished || facts.exists) ==> refused_for_good(
            result,
            StoreError::Invalid,
        ),
        may_start(command, facts) && !(has_room(facts.queued_usage, facts.queued_limit, 1)
            && has_room(facts.message_usage, facts.message_limit, 1) && has_room(
            facts.byte_usage,
            facts.byte_limit,
            command.envelope_size as int,
        )) ==> (result matches Err(refusal) && !refusal.recorded),
{
}

/// A start that is told again must have left its operation and its input behind.
pub proof fn recorded_starts_are_checked(
    recorded: OperationSnapshot,
    current: Option<OperationSnapshot>,
    message: Option<MessageSnapshot>,
    result: Result<OperationSnapshot, StoreError>,
)
    requires
        call_ensures(validate_start_replay, (recorded, current, message), result),
    ensures
        result is Ok <==> {
            &&& current matches Some(found)
            &&& found.session_id == recorded.session_id
            &&& found.participant_id == recorded.participant_id
            &&& found.start_request_id == recorded.start_request_id
            &&& found.input_message_id == recorded.input_message_id
            &&& message matches Some(input)
            &&& input.session_id == found.session_id
            &&& input.source == found.participant_id
            &&& input.destination == found.participant_id
            &&& input.correlation.operation_id == Some(found.operation_id)
            &&& input.correlation.in_reply_to is None
            &&& input.envelope.body is OperationInput
            &&& input.envelope.body->OperationInput_operation_id == found.operation_id
            &&& input.envelope.body->OperationInput_input_digest == found.input_digest
        },
        result matches Ok(read) ==> current == Some(read),
        result matches Err(error) ==> error == StoreError::Corrupt,
{
}

/// The input of an operation is handed out only if it is canonical and is the one that the
/// operation was started with, under the template of its participant.
pub proof fn inputs_are_read_as_started(
    operation_id: OperationId,
    operation: Option<OperationSnapshot>,
    participant: Option<ParticipantSnapshot>,
    registered: Option<Digest>,
    input: Option<ReadInput>,
    result: Result<(), StoreError>,
)
    requires
        call_ensures(
            check_operation_input,
            (operation_id, operation, participant, registered, input),
            result,
        ),
    ensures
        result is Ok <==> {
            &&& operation matches Some(found)
            &&& participant matches Some(owner)
            &&& input matches Some(read)
            &&& registered == Some(owner.template_compatibility)
            &&& read.canonical
            &&& read.digest == found.input_digest
        },
        operation is None ==> result == Err::<(), StoreError>(
            StoreError::OperationNotFound { operation_id },
        ),
        operation is Some && result is Err ==> result == Err::<(), StoreError>(
            StoreError::Corrupt,
        ),
{
}

/// What an action must name: waiting names another message than the input, going on names the
/// message that was waited for, a driver's report names a message about the operation that its
/// participant accepted, and everything else names nothing. Failure and uncertainty may be
/// reported without a message while nothing runs yet.
pub open spec fn names_its_message(
    snapshot: OperationSnapshot,
    command: TransitionOperation,
    report: Option<MessageSnapshot>,
) -> bool {
    match command.action {
        OperationAction::Wait => {
            &&& command.report_message_id matches Some(named)
            &&& named != snapshot.input_message_id
            &&& snapshot.waiting_on_message_id is None
        },
        OperationAction::Resume => {
            &&& command.report_message_id is Some
            &&& command.report_message_id == snapshot.waiting_on_message_id
        },
        OperationAction::BeginStart | OperationAction::RequestCancel => {
            command.report_message_id is None
        },
        _ => {
            ||| {
                &&& command.report_message_id is None
                &&& command.action is ReportFailure || command.action is ReportUncertain
                &&& snapshot.state is Queued || snapshot.state is Starting
            }
            ||| {
                &&& command.report_message_id is Some
                &&& report matches Some(message)
                &&& message.session_id == snapshot.session_id
                &&& message.destination == snapshot.participant_id
                &&& message.correlation.operation_id == Some(snapshot.operation_id)
                &&& message.state is Accepted
            }
        },
    }
}

/// A report correlates exactly when it names what its action must name.
pub proof fn reports_name_their_message(
    snapshot: OperationSnapshot,
    command: TransitionOperation,
    report: Option<MessageSnapshot>,
    result: bool,
)
    requires
        call_ensures(valid_report_correlation, (snapshot, command, report), result),
    ensures
        result <==> names_its_message(snapshot, command, report),
{
}

/// The parent can be told: it has an operation of its own, is to be told, the message is new, and
/// the mailbox has room within what is reserved for outcomes.
pub open spec fn can_be_told(upward: UpwardFacts, limits: StoreLimits) -> bool {
    &&& upward.parent_operation is Some
    &&& upward.authorized
    &&& !upward.message_exists
    &&& takes(
        upward.counter,
        upward.envelope_size,
        limits.mailbox_queued_bytes + limits.mailbox_reserved_outcome_bytes,
        limits.mailbox_queued_messages + limits.mailbox_reserved_outcomes,
    )
}

/// The message tells the parent that this operation ended, how, and with which result.
pub open spec fn tells_the_end(
    plan: MessagePlan,
    operation: OperationSnapshot,
    outcome: TerminalOutcome,
    upward: UpwardFacts,
) -> bool {
    let message = plan.message;
    &&& message.session_id == operation.session_id
    &&& message.message_id == upward.message_id
    &&& message.source == operation.participant_id
    &&& message.priority == upward.priority
    &&& message.correlation.operation_id == upward.parent_operation
    &&& message.correlation.in_reply_to is None
    &&& message.envelope.size == upward.envelope_size
    &&& message.envelope.body is OperationOutcome
    &&& message.envelope.body->OperationOutcome_operation_id == operation.operation_id
    &&& message.envelope.body->outcome == outcome.kind
    &&& message.envelope.body->result_digest == outcome.public_digest
    &&& just_queued(message, operation.updated_at)
    &&& placed_next(upward.counter, upward.envelope_size, message.mailbox_sequence, plan.counter)
}

/// Whoever is told of the end of an operation is told of that operation, how it ended and with
/// which result. Nobody is told where nobody can be.
pub proof fn ends_are_told_as_they_are(
    operation: OperationSnapshot,
    outcome: TerminalOutcome,
    upward: UpwardFacts,
    limits: StoreLimits,
    result: Result<Option<MessagePlan>, StoreError>,
)
    requires
        call_ensures(tell_outcome_upward, (operation, outcome, upward, limits), result),
    ensures
        result matches Ok(Some(_)) <==> can_be_told(upward, limits),
        result matches Ok(Some(plan)) ==> tells_the_end(plan, operation, outcome, upward)
            && plan.message.destination == upward.parent_id,
        upward.parent_operation is None || !upward.authorized || upward.message_exists ==> result
            == Ok::<Option<MessagePlan>, StoreError>(None),
        result matches Err(error) ==> error == StoreError::Corrupt,
{
}

/// The operation is moved as it was asked: from the revision that is known, by an action that can
/// be taken, with an outcome exactly if that is its end.
pub open spec fn may_move(command: TransitionOperation, facts: TransitionFacts) -> bool {
    &&& facts.operation matches Some(before)
    &&& before.session_id == command.session_id
    &&& before.revision == command.expected_revision
    &&& names_its_message(before, command, facts.report)
    &&& can_be_taken(before.state, command.action)
    &&& exists|next: OperationState| #[trigger]
        leads_to(command.action, next) && outcome_of(next, command.terminal_outcome)
}

/// There is room for the event and, where a queued operation becomes active, for one more of
/// those.
pub open spec fn may_be_counted(command: TransitionOperation, facts: TransitionFacts) -> bool {
    &&& has_room(facts.event_usage, facts.event_limit, 1)
    &&& facts.operation->Some_0.state is Queued && command.terminal_outcome is None ==> has_room(
        facts.active_usage,
        facts.active_limit,
        1,
    )
}

proof fn lemma_room(command: TransitionOperation, facts: TransitionFacts)
    requires
        may_move(command, facts),
    ensures
        ({
            let before = facts.operation->Some_0;
            let next = next_state(before.state, command.action)->Some_0;
            may_be_counted(command, facts) <==> move_obstacle(
                before,
                next,
                facts,
            ) is None
        }),
{
    let before = facts.operation->Some_0;
    let next = next_state(before.state, command.action)->Some_0;
    assert(leads_to(command.action, next));
}

/// An operation that moves is still the same operation, in the state that the action leads to,
/// one revision on, with the outcome that was reported. It waits only if that was asked.
pub proof fn operations_move_as_asked(
    command: TransitionOperation,
    facts: TransitionFacts,
    end: EndFacts,
    limits: StoreLimits,
    observed: Timestamp,
    result: Result<MovedOperation, Refusal>,
)
    requires
        call_ensures(transition_operation, (command, facts, &end, limits, observed), result),
    ensures
        result matches Ok(plan) ==> {
            let before = facts.operation->Some_0;
            let after = plan.operation;
            &&& facts.operation is Some
            &&& before.session_id == command.session_id
            &&& before.revision == command.expected_revision
            &&& names_its_message(before, command, facts.report)
            &&& can_be_taken(before.state, command.action)
            &&& may_be_counted(command, facts)
            &&& same_operation(before, after)
            &&& leads_to(command.action, after.state)
            &&& outcome_of(after.state, after.terminal_outcome)
            &&& after.terminal_outcome == command.terminal_outcome
            &&& after.revision.0 == before.revision.0 + 1
            &&& latest(observed, before.updated_at, after.updated_at)
            &&& command.action is Wait ==> after.waiting_on_message_id == command.report_message_id
            &&& !(command.action is Wait) ==> after.waiting_on_message_id is None
        },
        !may_move(command, facts) ==> refused_for_good(result, StoreError::Invalid),
        may_move(command, facts) && !may_be_counted(command, facts) ==> (result matches Err(
            refusal,
        ) && !refusal.recorded),
        may_move(command, facts) && may_be_counted(command, facts)
            && command.terminal_outcome is None && command.expected_revision.0 < u64::MAX
            ==> result is Ok,
{
    if may_move(command, facts) {
        lemma_room(command, facts);
    }
    if let Ok(plan) = result {
        assert(leads_to(command.action, plan.operation.state));
    }
    if let Some(before) = facts.operation {
        if can_be_taken(before.state, command.action) {
            let next = next_state(before.state, command.action)->Some_0;
            assert(leads_to(command.action, next));
        }
    }
}

/// With its end an operation takes its open messages out of the mailbox, and its parent is told
/// that it ended, how, and with which result: exactly where there is a parent that can be told.
/// Before that nobody is told and nothing is retired.
pub proof fn parents_are_told_of_ends(
    command: TransitionOperation,
    facts: TransitionFacts,
    end: EndFacts,
    counter: MailboxCounter,
    limits: StoreLimits,
    observed: Timestamp,
    result: Result<MovedOperation, Refusal>,
)
    requires
        call_ensures(transition_operation, (command, facts, &end, limits, observed), result),
        end.counter == Some(counter),
    ensures
        result matches Ok(plan) ==> command.terminal_outcome is None ==> {
            &&& plan.told is Nobody
            &&& plan.retired@.len() == 0
            &&& plan.counter is None
        },
        result matches Ok(plan) ==> (command.terminal_outcome matches Some(outcome) ==> {
            &&& end.participant matches Some(participant)
            &&& plan.told is Nobody <==> participant.parent_participant_id is None
            &&& plan.told is Parent <==> participant.parent_participant_id is Some
                && can_be_told(end.upward, limits)
            &&& plan.told matches Told::Parent(told) ==> {
                &&& tells_the_end(told, plan.operation, outcome, end.upward)
                &&& participant.parent_participant_id == Some(told.message.destination)
            }
            &&& plan.retired@.len() == end.open@.len()
            &&& forall|i: int|
                0 <= i < end.open@.len() ==> end.open@[i].destination
                    == plan.operation.participant_id && !is_settled(end.open@[i].state)
                    && is_retired(end.open@[i], observed, #[trigger] plan.retired@[i])
            &&& plan.counter matches Some(left)
            &&& left.next_sequence == counter.next_sequence
            &&& left.queued_bytes == counter.queued_bytes - bytes_of(end.open@, end.open@.len())
            &&& left.queued_messages == counter.queued_messages - end.open@.len()
        }),
        may_move(command, facts) && may_be_counted(command, facts)
            && command.expected_revision.0 < u64::MAX && end.open@.len() == 0 && (
        end.participant matches Some(participant) && (participant.parent_participant_id is None
            || can_be_told(end.upward, limits) || !end.upward.authorized)) ==> result is Ok,
{
    if may_move(command, facts) {
        lemma_room(command, facts);
    }
    if let Some(before) = facts.operation {
        if can_be_taken(before.state, command.action) {
            let next = next_state(before.state, command.action)->Some_0;
            assert(leads_to(command.action, next));
        }
    }
    lemma_emptied(counter, end.open@, end.open@.len());
}

} // verus!
