//! Mailboxes: messages between participants, their quotas, and their delivery.

use crate::capacity::{capacity_obstacle, ensure_derived_capacity, CapacityLimit, CapacityUsage};
use crate::error::{CapacityResource, Refusal, StoreError};
use crate::ids::{
    ApprovalId, DeliveryAttemptId, Digest, FencingEpoch, GrantId, HostId, InstanceId,
    LaunchAttemptId, MessageId, OperationId, ParticipantId, Revision, SessionId,
};
use crate::ledger::RequestContext;
use crate::operation::{
    bare_refusal, kept_refusal, OperationSnapshot, OperationState, OutcomeKind,
};
use crate::projection::event::transition_allowed;
use crate::projection::ProjectionView;
use crate::time::{bounded_lease_end, expiry, Timestamp};
use vstd::prelude::*;

verus! {

/// The fixed limits of the store.
#[derive(Clone, Copy, PartialEq, Eq, Debug, Structural)]
pub struct StoreLimits {
    pub max_participant_depth: u32,
    pub max_direct_children: u32,
    pub max_session_participants: u32,
    pub mailbox_queued_bytes: u64,
    pub mailbox_queued_messages: u64,
    pub mailbox_reserved_outcome_bytes: u64,
    pub mailbox_reserved_outcomes: u64,
    pub max_delivery_attempts: u32,
    pub max_lease_millis: u64,
}

impl StoreLimits {
    /// The room for messages, with what is reserved for outcomes, can be counted.
    pub open spec fn wf(self) -> bool {
        &&& self.mailbox_queued_bytes + self.mailbox_reserved_outcome_bytes <= u64::MAX
        &&& self.mailbox_queued_messages + self.mailbox_reserved_outcomes <= u64::MAX
    }
}

/// Which messages go first.
#[derive(Clone, Copy, PartialEq, Eq, Debug, Structural)]
pub enum MessagePriority {
    Control,
    Ordinary,
}

/// What a control message asks for.
#[derive(Clone, Copy, PartialEq, Eq, Debug, Structural)]
pub enum ControlKind {
    Cancel,
    Reminder,
}

/// How an approval was decided, as far as a message tells it.
#[derive(Clone, Copy, PartialEq, Eq, Debug, Structural)]
pub enum RelayedDecision {
    Granted,
    Denied,
}

/// What a message says. Free text is known by its digest.
#[derive(Clone, Copy, PartialEq, Eq, Debug, Structural)]
pub enum MessageBody {
    OperationInput { operation_id: OperationId, input_digest: Digest },
    Control { operation_id: OperationId, command: ControlKind },
    Question { operation_id: OperationId, code: Digest },
    OperationOutcome { operation_id: OperationId, outcome: OutcomeKind, result_digest: Digest },
    CorrelatedFeedback { operation_id: OperationId, in_reply_to: MessageId, feedback: Digest },
    ApprovalDecision {
        approval_id: ApprovalId,
        operation_id: OperationId,
        decision: RelayedDecision,
        grant_id: Option<GrantId>,
    },
}

/// A message body and the size of its encoded form, in bytes.
#[derive(Clone, Copy, PartialEq, Eq, Debug, Structural)]
pub struct Envelope {
    pub body: MessageBody,
    pub size: u64,
}

/// What a message belongs to.
#[derive(Clone, Copy, PartialEq, Eq, Debug, Structural)]
pub struct Correlation {
    pub operation_id: Option<OperationId>,
    pub in_reply_to: Option<MessageId>,
}

/// A delivery that is under way: who delivers, on whose authority, to which instance, and until
/// when.
#[derive(Clone, Copy, PartialEq, Eq, Debug, Structural)]
pub struct DeliveryLease {
    pub attempt_id: DeliveryAttemptId,
    pub owner: HostId,
    pub ownership_epoch: FencingEpoch,
    pub driver_ownership_epoch: FencingEpoch,
    pub driver_launch_attempt_id: LaunchAttemptId,
    pub instance_id: InstanceId,
    pub expires_at: Timestamp,
}

/// Why a message was given up.
#[derive(Clone, Copy, PartialEq, Eq, Debug, Structural)]
pub enum DeliveryReason {
    /// A text that was given, known by its digest.
    Given { text: Digest },
    /// The operation of the message has ended.
    OperationEnded,
    /// The message was tried as often as it may be.
    AttemptsExhausted,
}

impl DeliveryReason {
    /// The text of the reasons that are not given.
    pub fn text(self) -> (text: Option<&'static str>)
        ensures
            match self {
                DeliveryReason::Given { .. } => text is None,
                DeliveryReason::OperationEnded => text matches Some(text) && text@
                    == "correlated operation became terminal"@,
                DeliveryReason::AttemptsExhausted => text matches Some(text) && text@
                    == "delivery attempt limit exhausted"@,
            },
    {
        match self {
            DeliveryReason::Given { .. } => None,
            DeliveryReason::OperationEnded => Some("correlated operation became terminal"),
            DeliveryReason::AttemptsExhausted => Some("delivery attempt limit exhausted"),
        }
    }
}

/// Where the delivery of a message stands.
#[derive(Clone, Copy, PartialEq, Eq, Debug, Structural)]
pub enum DeliveryState {
    Queued,
    RetryScheduled { not_before: Timestamp },
    Leased { lease: DeliveryLease },
    AcceptancePending { lease: DeliveryLease },
    AcceptanceUnknown { lease: DeliveryLease },
    Accepted { attempt_id: DeliveryAttemptId, proof_digest: Digest, accepted_at: Timestamp },
    Uncertain { attempt_id: DeliveryAttemptId, reason: DeliveryReason },
    DeadLetter { reason: DeliveryReason },
}

impl DeliveryState {
    /// Whether nothing more happens to the message.
    pub open spec fn terminal(self) -> bool {
        self is Accepted || self is Uncertain || self is DeadLetter
    }

    /// Whether nothing more happens to the message.
    pub fn is_terminal(self) -> (result: bool)
        ensures
            result == self.terminal(),
    {
        match self {
            DeliveryState::Accepted { .. } | DeliveryState::Uncertain { .. }
            | DeliveryState::DeadLetter { .. } => true,
            _ => false,
        }
    }
}

/// The type of the event that tells a delivery state, and the name of the state in it.
pub open spec fn delivery_event(state: DeliveryState) -> (Seq<char>, Seq<char>) {
    match state {
        DeliveryState::Queued => ("message.enqueued"@, "queued"@),
        DeliveryState::RetryScheduled { .. } => ("message.retry_scheduled"@, "retry_scheduled"@),
        DeliveryState::Leased { .. } => ("message.leased"@, "leased"@),
        DeliveryState::AcceptancePending { .. } => {
            ("message.acceptance_pending"@, "acceptance_pending"@)
        },
        DeliveryState::AcceptanceUnknown { .. } => {
            ("message.acceptance_unknown"@, "acceptance_unknown"@)
        },
        DeliveryState::Accepted { .. } => ("message.accepted"@, "accepted"@),
        DeliveryState::Uncertain { .. } => ("message.uncertain"@, "uncertain"@),
        DeliveryState::DeadLetter { .. } => ("message.dead_lettered"@, "dead_lettered"@),
    }
}

/// The type of the event that tells a delivery state, and the name of the state in it.
pub fn message_event_names(state: DeliveryState) -> (names: (&'static str, &'static str))
    ensures
        (names.0@, names.1@) == delivery_event(state),
{
    match state {
        DeliveryState::Queued => ("message.enqueued", "queued"),
        DeliveryState::RetryScheduled { .. } => ("message.retry_scheduled", "retry_scheduled"),
        DeliveryState::Leased { .. } => ("message.leased", "leased"),
        DeliveryState::AcceptancePending { .. } => {
            ("message.acceptance_pending", "acceptance_pending")
        },
        DeliveryState::AcceptanceUnknown { .. } => {
            ("message.acceptance_unknown", "acceptance_unknown")
        },
        DeliveryState::Accepted { .. } => ("message.accepted", "accepted"),
        DeliveryState::Uncertain { .. } => ("message.uncertain", "uncertain"),
        DeliveryState::DeadLetter { .. } => ("message.dead_lettered", "dead_lettered"),
    }
}

/// A message.
#[derive(Clone, Copy, PartialEq, Eq, Debug, Structural)]
pub struct MessageSnapshot {
    pub session_id: SessionId,
    pub message_id: MessageId,
    pub source: ParticipantId,
    pub destination: ParticipantId,
    pub mailbox_sequence: u64,
    pub priority: MessagePriority,
    pub correlation: Correlation,
    pub envelope: Envelope,
    pub attempt_count: u32,
    pub state: DeliveryState,
    pub revision: Revision,
    pub created_at: Timestamp,
    pub updated_at: Timestamp,
}

/// The columns that are kept beside a message.
#[derive(Clone, Copy, PartialEq, Eq, Debug, Structural)]
pub struct MessageColumns {
    pub message_id: MessageId,
    pub session_id: SessionId,
    pub source: ParticipantId,
    pub destination: ParticipantId,
    pub mailbox_sequence: i64,
    pub priority: i64,
}

/// The number under which a priority is kept.
pub open spec fn priority_number(priority: MessagePriority) -> i64 {
    match priority {
        MessagePriority::Control => 0,
        MessagePriority::Ordinary => 1,
    }
}

/// The number under which a priority is kept.
pub fn priority_column(priority: MessagePriority) -> (number: i64)
    ensures
        number == priority_number(priority),
{
    match priority {
        MessagePriority::Control => 0,
        MessagePriority::Ordinary => 1,
    }
}

/// Checks a message that was read against the columns beside it.
///
/// `structurally_valid` tells whether the message is valid in itself.
pub fn decode_message_row(
    columns: MessageColumns,
    snapshot: MessageSnapshot,
    structurally_valid: bool,
) -> (result: Result<MessageSnapshot, StoreError>)
    ensures
        result == (if structurally_valid && columns.message_id == snapshot.message_id
            && columns.session_id == snapshot.session_id && columns.source == snapshot.source
            && columns.destination == snapshot.destination && columns.mailbox_sequence
            == snapshot.mailbox_sequence && columns.priority == priority_number(
            snapshot.priority,
        ) {
            Ok::<MessageSnapshot, StoreError>(snapshot)
        } else {
            Err(StoreError::Corrupt)
        }),
{
    let same_sequence: bool = columns.mailbox_sequence >= 0 && columns.mailbox_sequence as u64
        == snapshot.mailbox_sequence;
    if columns.message_id != snapshot.message_id || columns.session_id != snapshot.session_id
        || columns.source != snapshot.source || columns.destination != snapshot.destination
        || !same_sequence || columns.priority != priority_column(snapshot.priority)
        || !structurally_valid {
        Err(StoreError::Corrupt)
    } else {
        Ok(snapshot)
    }
}

/// What is kept of a mailbox: the next sequence number, and how much is queued.
#[derive(Clone, Copy, PartialEq, Eq, Debug, Structural)]
pub struct MailboxCounter {
    pub next_sequence: i64,
    pub queued_bytes: i64,
    pub queued_messages: i64,
}

/// A new message and the mailbox after it.
#[derive(Clone, Copy, PartialEq, Eq, Debug, Structural)]
pub struct MessagePlan {
    pub message: MessageSnapshot,
    pub counter: MailboxCounter,
}

/// The counts of a mailbox; one that was never used is empty and begins at one.
pub open spec fn counts(counter: Option<MailboxCounter>) -> MailboxCounter {
    match counter {
        Some(counter) => counter,
        None => MailboxCounter { next_sequence: 1, queued_bytes: 0, queued_messages: 0 },
    }
}

fn read_counts(counter: Option<MailboxCounter>) -> (read: MailboxCounter)
    ensures
        read == counts(counter),
{
    match counter {
        Some(counter) => counter,
        None => MailboxCounter { next_sequence: 1, queued_bytes: 0, queued_messages: 0 },
    }
}

/// How many bytes a mailbox may hold; outcomes have room of their own.
pub open spec fn byte_room(limits: StoreLimits, outcome: bool) -> int {
    limits.mailbox_queued_bytes + if outcome {
        limits.mailbox_reserved_outcome_bytes as int
    } else {
        0
    }
}

/// How many messages a mailbox may hold; outcomes have room of their own.
pub open spec fn count_room(limits: StoreLimits, outcome: bool) -> int {
    limits.mailbox_queued_messages + if outcome {
        limits.mailbox_reserved_outcomes as int
    } else {
        0
    }
}

/// The sequence number of a new message, and the mailbox after it.
pub open spec fn placed(counter: MailboxCounter, size: u64) -> Result<
    (u64, MailboxCounter),
    StoreError,
> {
    if counter.next_sequence < 0 || counter.next_sequence == i64::MAX || counter.queued_bytes
        + size > i64::MAX || counter.queued_messages == i64::MAX {
        Err(StoreError::Corrupt)
    } else {
        Ok(
            (
                counter.next_sequence as u64,
                MailboxCounter {
                    next_sequence: (counter.next_sequence + 1) as i64,
                    queued_bytes: (counter.queued_bytes + size) as i64,
                    queued_messages: (counter.queued_messages + 1) as i64,
                },
            ),
        )
    }
}

fn place(counter: MailboxCounter, size: u64) -> (result: Result<(u64, MailboxCounter), StoreError>)
    requires
        counter.queued_bytes >= 0,
        counter.queued_messages >= 0,
    ensures
        result == placed(counter, size),
{
    if counter.next_sequence < 0 || size > i64::MAX as u64 {
        return Err(StoreError::Corrupt);
    }
    match (
        counter.next_sequence.checked_add(1),
        counter.queued_bytes.checked_add(size as i64),
        counter.queued_messages.checked_add(1),
    ) {
        (Some(next_sequence), Some(queued_bytes), Some(queued_messages)) => Ok(
            (
                counter.next_sequence as u64,
                MailboxCounter { next_sequence, queued_bytes, queued_messages },
            ),
        ),
        _ => Err(StoreError::Corrupt),
    }
}

/// Makes room for a message: its sequence number and the mailbox after it.
///
/// The mailbox may not hold more than its room. Only a refusal for want of room is recorded.
pub open spec fn message_room(
    counter: Option<MailboxCounter>,
    size: u64,
    outcome: bool,
    limits: StoreLimits,
) -> Result<(u64, MailboxCounter), Refusal> {
    let now = counts(counter);
    if now.queued_bytes < 0 {
        Err(bare_refusal(StoreError::Corrupt))
    } else if now.queued_bytes + size > u64::MAX {
        Err(bare_refusal(StoreError::MailboxQuotaExceeded))
    } else if now.queued_messages < 0 {
        Err(bare_refusal(StoreError::Corrupt))
    } else if now.queued_bytes + size > byte_room(limits, outcome) || now.queued_messages + 1
        > count_room(limits, outcome) {
        Err(kept_refusal(StoreError::MailboxQuotaExceeded))
    } else {
        match placed(now, size) {
            Ok(plan) => Ok(plan),
            Err(error) => Err(bare_refusal(error)),
        }
    }
}

/// Makes room for a message.
pub fn queue_counters(
    counter: Option<MailboxCounter>,
    size: u64,
    outcome: bool,
    limits: StoreLimits,
) -> (result: Result<(u64, MailboxCounter), Refusal>)
    requires
        limits.wf(),
    ensures
        result == message_room(counter, size, outcome, limits),
{
    let now: MailboxCounter = read_counts(counter);
    if now.queued_bytes < 0 {
        return Err(Refusal { error: StoreError::Corrupt, recorded: false });
    }
    let new_bytes: u64 = match (now.queued_bytes as u64).checked_add(size) {
        Some(bytes) => bytes,
        None => {
            return Err(Refusal { error: StoreError::MailboxQuotaExceeded, recorded: false });
        },
    };
    if now.queued_messages < 0 {
        return Err(Refusal { error: StoreError::Corrupt, recorded: false });
    }
    let new_messages: u64 = now.queued_messages as u64 + 1;
    let (byte_limit, message_limit): (u64, u64) = if outcome {
        (
            limits.mailbox_queued_bytes + limits.mailbox_reserved_outcome_bytes,
            limits.mailbox_queued_messages + limits.mailbox_reserved_outcomes,
        )
    } else {
        (limits.mailbox_queued_bytes, limits.mailbox_queued_messages)
    };
    if new_bytes > byte_limit || new_messages > message_limit {
        return Err(Refusal { error: StoreError::MailboxQuotaExceeded, recorded: true });
    }
    match place(now, size) {
        Ok(plan) => Ok(plan),
        Err(error) => Err(Refusal { error, recorded: false }),
    }
}

/// A sum that stays at the greatest count.
pub open spec fn saturated(value: int) -> int {
    if value > u64::MAX {
        u64::MAX as int
    } else {
        value
    }
}

/// Makes room for the input of an operation.
pub open spec fn saturating_room(
    counter: Option<MailboxCounter>,
    size: u64,
    limits: StoreLimits,
) -> Result<(u64, MailboxCounter), StoreError> {
    let now = counts(counter);
    if now.queued_bytes < 0 {
        Err(StoreError::Corrupt)
    } else if saturated(now.queued_bytes + size) > limits.mailbox_queued_bytes {
        Err(StoreError::MailboxQuotaExceeded)
    } else if now.queued_messages < 0 {
        Err(StoreError::Corrupt)
    } else if now.queued_messages + 1 > limits.mailbox_queued_messages {
        Err(StoreError::MailboxQuotaExceeded)
    } else if size > i64::MAX {
        Err(StoreError::MessageOversize)
    } else {
        placed(now, size)
    }
}

/// Makes room for the input of an operation.
pub fn take_room(
    counter: Option<MailboxCounter>,
    size: u64,
    limits: StoreLimits,
) -> (result: Result<
    (u64, MailboxCounter),
    StoreError,
>)
    ensures
        result == saturating_room(counter, size, limits),
{
    let now: MailboxCounter = read_counts(counter);
    if now.queued_bytes < 0 {
        return Err(StoreError::Corrupt);
    }
    if (now.queued_bytes as u64).saturating_add(size) > limits.mailbox_queued_bytes {
        return Err(StoreError::MailboxQuotaExceeded);
    }
    if now.queued_messages < 0 {
        return Err(StoreError::Corrupt);
    }
    if (now.queued_messages as u64).saturating_add(1) > limits.mailbox_queued_messages {
        return Err(StoreError::MailboxQuotaExceeded);
    }
    if size > i64::MAX as u64 {
        return Err(StoreError::MessageOversize);
    }
    place(now, size)
}

/// A mailbox after a message of a size has left it; nothing where it does not hold as much.
pub open spec fn without(counter: Option<MailboxCounter>, size: u64) -> Option<MailboxCounter> {
    match counter {
        Some(counter) => if size <= i64::MAX && counter.queued_bytes >= size
            && counter.queued_messages > 0 {
            Some(
                MailboxCounter {
                    queued_bytes: (counter.queued_bytes - size) as i64,
                    queued_messages: (counter.queued_messages - 1) as i64,
                    ..counter
                },
            )
        } else {
            None
        },
        None => None,
    }
}

/// A message that leaves a mailbox gives back exactly the room that it took; its place in the
/// order is not given out again.
pub proof fn leaving_gives_room_back(
    counter: Option<MailboxCounter>,
    size: u64,
    outcome: bool,
    limits: StoreLimits,
)
    ensures
        message_room(counter, size, outcome, limits) matches Ok((sequence, after)) ==> {
            let before = counts(counter);
            &&& without(Some(after), size) == Some(
                MailboxCounter { next_sequence: after.next_sequence, ..before },
            )
            &&& sequence == before.next_sequence
            &&& after.next_sequence == before.next_sequence + 1
        },
{
}

/// Takes a message that has come to its end out of the counts of its mailbox.
pub fn decrement_mailbox_bytes(counter: Option<MailboxCounter>, size: u64) -> (result: Result<
    MailboxCounter,
    StoreError,
>)
    ensures
        result == (match without(counter, size) {
            Some(counter) => Ok::<MailboxCounter, StoreError>(counter),
            None => Err(StoreError::Corrupt),
        }),
{
    match counter {
        Some(counter) => if size <= i64::MAX as u64 && counter.queued_bytes >= size as i64
            && counter.queued_messages > 0 {
            Ok(
                MailboxCounter {
                    queued_bytes: counter.queued_bytes - size as i64,
                    queued_messages: counter.queued_messages - 1,
                    ..counter
                },
            )
        } else {
            Err(StoreError::Corrupt)
        },
        None => Err(StoreError::Corrupt),
    }
}

/// The counts of a mailbox that change because a message came to its end.
pub open spec fn room_after(message: MessageSnapshot, counter: Option<MailboxCounter>) -> Result<
    Option<MailboxCounter>,
    StoreError,
> {
    if !message.state.terminal() {
        Ok(None)
    } else {
        match without(counter, message.envelope.size) {
            Some(counter) => Ok(Some(counter)),
            None => Err(StoreError::Corrupt),
        }
    }
}

/// Tells how the counts of a mailbox change with a message that was moved on.
fn leave_when_settled(message: MessageSnapshot, counter: Option<MailboxCounter>) -> (result: Result<
    Option<MailboxCounter>,
    StoreError,
>)
    ensures
        result == room_after(message, counter),
{
    if !message.state.is_terminal() {
        return Ok(None);
    }
    match decrement_mailbox_bytes(counter, message.envelope.size) {
        Ok(counter) => Ok(Some(counter)),
        Err(error) => Err(error),
    }
}

/// A message that was let in keeps its mailbox within its room, in bytes and in messages.
pub proof fn mailboxes_stay_within_their_room(
    counter: Option<MailboxCounter>,
    size: u64,
    outcome: bool,
    limits: StoreLimits,
)
    requires
        message_room(counter, size, outcome, limits) is Ok,
    ensures
        ({
            let after = message_room(counter, size, outcome, limits)->Ok_0.1;
            &&& 0 <= after.queued_bytes <= byte_room(limits, outcome)
            &&& 0 <= after.queued_messages <= count_room(limits, outcome)
        }),
{
}

/// Outcomes are still let in where a mailbox is full of other messages: there is room reserved
/// for them.
pub proof fn outcomes_have_room_of_their_own(
    counter: MailboxCounter,
    size: u64,
    limits: StoreLimits,
)
    requires
        0 <= counter.queued_bytes <= limits.mailbox_queued_bytes,
        0 <= counter.queued_messages <= limits.mailbox_queued_messages,
        size <= limits.mailbox_reserved_outcome_bytes,
        limits.mailbox_reserved_outcomes >= 1,
        limits.wf(),
        placed(counter, size) is Ok,
    ensures
        message_room(Some(counter), size, true, limits) is Ok,
{
}

/// A wish to send a message.
#[derive(Clone, Copy, PartialEq, Eq, Debug, Structural)]
pub struct EnqueueMessage {
    pub session_id: SessionId,
    pub message_id: MessageId,
    pub source: ParticipantId,
    pub destination: ParticipantId,
    pub correlation: Correlation,
    pub envelope: Envelope,
    /// The priority that messages of this kind have.
    pub priority: MessagePriority,
}

/// What was found for a wish to send a message.
#[derive(Clone, Copy, PartialEq, Eq, Debug, Structural)]
pub struct EnqueueFacts {
    /// The sessions of the two participants, where they are there.
    pub source_session: Option<SessionId>,
    pub destination_session: Option<SessionId>,
    /// The operation that the message names, where it is there.
    pub operation: Option<OperationSnapshot>,
    /// The message that it replies to, where it names one and it is there.
    pub reply: Option<MessageSnapshot>,
    /// Whether a message already has the identity.
    pub exists: bool,
    /// The mailbox of the destination, where it has one.
    pub counter: Option<MailboxCounter>,
    pub message_usage: CapacityUsage,
    pub message_limit: CapacityLimit,
    pub byte_usage: CapacityUsage,
    pub byte_limit: CapacityLimit,
}

/// Whether a message belongs to an operation of a participant in its session.
pub open spec fn about(
    command: EnqueueMessage,
    operation: Option<OperationSnapshot>,
    operation_id: OperationId,
    participant: ParticipantId,
) -> bool {
    &&& command.correlation.operation_id == Some(operation_id)
    &&& operation matches Some(operation)
    &&& operation.session_id == command.session_id
    &&& operation.participant_id == participant
}

/// Whether what a message says is in order.
///
/// An input tells an operation of the destination what it was started with, and is the message
/// that the operation names. A control message is about an operation of the destination. A
/// question comes from a participant that waits for its answer, an outcome from one whose
/// operation has ended with it, and feedback answers a message that came the other way.
/// Decisions on approvals are not sent by participants.
pub open spec fn body_admissible(command: EnqueueMessage, facts: EnqueueFacts) -> bool {
    let unprompted = command.correlation.in_reply_to is None;
    match command.envelope.body {
        MessageBody::OperationInput { operation_id, input_digest } => {
            &&& unprompted
            &&& about(command, facts.operation, operation_id, command.destination)
            &&& facts.operation->Some_0.input_message_id == command.message_id
            &&& facts.operation->Some_0.input_digest == input_digest
        },
        MessageBody::Control { operation_id, .. } => {
            &&& unprompted
            &&& about(command, facts.operation, operation_id, command.destination)
        },
        MessageBody::Question { operation_id, .. } => {
            &&& unprompted
            &&& about(command, facts.operation, operation_id, command.source)
            &&& facts.operation->Some_0.state == OperationState::Waiting
            &&& facts.operation->Some_0.waiting_on_message_id == Some(command.message_id)
        },
        MessageBody::OperationOutcome { operation_id, result_digest, .. } => {
            &&& unprompted
            &&& about(command, facts.operation, operation_id, command.source)
            &&& facts.operation->Some_0.state.terminal()
            &&& facts.operation->Some_0.terminal_outcome matches Some(outcome)
            &&& outcome.public_digest == result_digest
        },
        MessageBody::CorrelatedFeedback { operation_id, in_reply_to, .. } => {
            &&& command.correlation.in_reply_to == Some(in_reply_to)
            &&& in_reply_to != command.message_id
            &&& about(command, facts.operation, operation_id, command.source)
            &&& facts.reply matches Some(reply)
            &&& reply.session_id == command.session_id
            &&& reply.source == command.destination
            &&& reply.destination == command.source
        },
        MessageBody::ApprovalDecision { .. } => false,
    }
}

fn is_about(
    command: EnqueueMessage,
    operation: Option<OperationSnapshot>,
    operation_id: OperationId,
    participant: ParticipantId,
) -> (result: bool)
    ensures
        result == about(command, operation, operation_id, participant),
{
    match operation {
        Some(operation) => command.correlation.operation_id == Some(operation_id)
            && operation.session_id == command.session_id && operation.participant_id
            == participant,
        None => false,
    }
}

fn admit_body(command: EnqueueMessage, facts: EnqueueFacts) -> (result: bool)
    ensures
        result == body_admissible(command, facts),
{
    let unprompted: bool = command.correlation.in_reply_to.is_none();
    let operation: OperationSnapshot = match facts.operation {
        Some(operation) => operation,
        None => {
            return false;
        },
    };
    match command.envelope.body {
        MessageBody::OperationInput { operation_id, input_digest } => unprompted && is_about(
            command,
            facts.operation,
            operation_id,
            command.destination,
        ) && operation.input_message_id == command.message_id && operation.input_digest
            == input_digest,
        MessageBody::Control { operation_id, .. } => unprompted && is_about(
            command,
            facts.operation,
            operation_id,
            command.destination,
        ),
        MessageBody::Question { operation_id, .. } => unprompted && is_about(
            command,
            facts.operation,
            operation_id,
            command.source,
        ) && operation.state == OperationState::Waiting && operation.waiting_on_message_id == Some(
            command.message_id,
        ),
        MessageBody::OperationOutcome { operation_id, result_digest, .. } => {
            let same_outcome: bool = match operation.terminal_outcome {
                Some(outcome) => outcome.public_digest == result_digest,
                None => false,
            };
            unprompted && is_about(command, facts.operation, operation_id, command.source)
                && operation.state.is_terminal() && same_outcome
        },
        MessageBody::CorrelatedFeedback { operation_id, in_reply_to, .. } => {
            let replies: bool = match facts.reply {
                Some(reply) => reply.session_id == command.session_id && reply.source
                    == command.destination && reply.destination == command.source,
                None => false,
            };
            command.correlation.in_reply_to == Some(in_reply_to) && in_reply_to
                != command.message_id && is_about(
                command,
                facts.operation,
                operation_id,
                command.source,
            ) && replies
        },
        MessageBody::ApprovalDecision { .. } => false,
    }
}

/// A message that has just been queued.
pub open spec fn queued_message(
    command: EnqueueMessage,
    sequence: u64,
    now: Timestamp,
) -> MessageSnapshot {
    MessageSnapshot {
        session_id: command.session_id,
        message_id: command.message_id,
        source: command.source,
        destination: command.destination,
        mailbox_sequence: sequence,
        priority: command.priority,
        correlation: command.correlation,
        envelope: command.envelope,
        attempt_count: 0,
        state: DeliveryState::Queued,
        revision: Revision(1),
        created_at: now,
        updated_at: now,
    }
}

/// Makes a message that has just been queued.
pub fn make_queued_message(command: EnqueueMessage, sequence: u64, now: Timestamp) -> (message:
    MessageSnapshot)
    ensures
        message == queued_message(command, sequence, now),
{
    MessageSnapshot {
        session_id: command.session_id,
        message_id: command.message_id,
        source: command.source,
        destination: command.destination,
        mailbox_sequence: sequence,
        priority: command.priority,
        correlation: command.correlation,
        envelope: command.envelope,
        attempt_count: 0,
        state: DeliveryState::Queued,
        revision: Revision::initial(),
        created_at: now,
        updated_at: now,
    }
}

/// The capacity obstacle to a message: it counts, and so do its bytes.
pub open spec fn enqueue_obstacle(command: EnqueueMessage, facts: EnqueueFacts) -> Option<
    StoreError,
> {
    let one = capacity_obstacle(
        CapacityResource::Messages,
        facts.message_usage,
        facts.message_limit,
        1,
    );
    if one is Some {
        one
    } else {
        capacity_obstacle(
            CapacityResource::MessageBytes,
            facts.byte_usage,
            facts.byte_limit,
            command.envelope.size,
        )
    }
}

/// The outcome of a wish to send a message.
pub open spec fn enqueue_outcome(
    command: EnqueueMessage,
    facts: EnqueueFacts,
    limits: StoreLimits,
    now: Timestamp,
) -> Result<MessagePlan, Refusal> {
    match enqueue_obstacle(command, facts) {
        Some(error) => Err(bare_refusal(error)),
        None => if facts.source_session != Some(command.session_id) || facts.destination_session
            != Some(command.session_id) || !body_admissible(command, facts) || facts.exists {
            Err(kept_refusal(StoreError::Invalid))
        } else {
            match message_room(facts.counter, command.envelope.size, false, limits) {
                Err(refusal) => Err(refusal),
                Ok((sequence, counter)) => Ok(
                    MessagePlan { message: queued_message(command, sequence, now), counter },
                ),
            }
        },
    }
}

/// Decides a wish to send a message, at the time floor of its session.
pub fn enqueue_message(
    command: EnqueueMessage,
    facts: EnqueueFacts,
    limits: StoreLimits,
    now: Timestamp,
) -> (result: Result<MessagePlan, Refusal>)
    requires
        limits.wf(),
    ensures
        result == enqueue_outcome(command, facts, limits, now),
{
    match ensure_derived_capacity(
        CapacityResource::Messages,
        facts.message_usage,
        facts.message_limit,
        1,
    ) {
        Ok(_) => {},
        Err(error) => {
            return Err(Refusal { error, recorded: false });
        },
    }
    match ensure_derived_capacity(
        CapacityResource::MessageBytes,
        facts.byte_usage,
        facts.byte_limit,
        command.envelope.size,
    ) {
        Ok(_) => {},
        Err(error) => {
            return Err(Refusal { error, recorded: false });
        },
    }
    if facts.source_session != Some(command.session_id) || facts.destination_session != Some(
        command.session_id,
    ) || !admit_body(command, facts) || facts.exists {
        return Err(Refusal { error: StoreError::Invalid, recorded: true });
    }
    match queue_counters(facts.counter, command.envelope.size, false, limits) {
        Err(refusal) => Err(refusal),
        Ok((sequence, counter)) => Ok(
            MessagePlan { message: make_queued_message(command, sequence, now), counter },
        ),
    }
}

/// No message crosses from one session into another, and every message that is let in is
/// correlated with the operation that its body names.
pub proof fn messages_stay_in_their_session(
    command: EnqueueMessage,
    facts: EnqueueFacts,
    limits: StoreLimits,
    now: Timestamp,
)
    requires
        enqueue_outcome(command, facts, limits, now) is Ok,
    ensures
        facts.source_session == facts.destination_session,
        facts.operation matches Some(operation) && operation.session_id == command.session_id,
        !(command.envelope.body is ApprovalDecision),
        command.correlation.operation_id is Some,
{
}

/// A wish for the next message of a mailbox.
#[derive(Clone, Copy, PartialEq, Eq, Debug, Structural)]
pub struct LeaseNextMessage {
    pub context: RequestContext,
    pub epoch: FencingEpoch,
    pub proposed_attempt_id: DeliveryAttemptId,
    pub driver_launch_attempt_id: LaunchAttemptId,
    pub instance_id: InstanceId,
    pub lease_millis: u64,
}

/// What is looked for in a mailbox.
#[derive(Clone, Copy, PartialEq, Eq, Debug, Structural)]
pub enum Sought {
    /// A delivery whose acceptance is open and whose lease has ended.
    Recovery,
    /// A control message that has not come to its end.
    Control,
    /// Any other message that has not come to its end.
    Ordinary,
}

/// Whether a message is looked for.
pub open spec fn wanted(message: MessageSnapshot, sought: Sought, now: Timestamp) -> bool {
    match sought {
        Sought::Recovery => match message.state {
            DeliveryState::AcceptancePending { lease }
            | DeliveryState::AcceptanceUnknown { lease } => !now.spec_before(lease.expires_at),
            _ => false,
        },
        Sought::Control => message.priority == MessagePriority::Control
            && !message.state.terminal(),
        Sought::Ordinary => message.priority == MessagePriority::Ordinary
            && !message.state.terminal(),
    }
}

/// The place of the first message that is looked for.
pub open spec fn first_wanted(
    messages: Seq<MessageSnapshot>,
    sought: Sought,
    now: Timestamp,
) -> Option<int>
    decreases messages.len(),
{
    if messages.len() == 0 {
        None
    } else {
        match first_wanted(messages.drop_last(), sought, now) {
            Some(index) => Some(index),
            None => if wanted(messages.last(), sought, now) {
                Some(messages.len() - 1)
            } else {
                None
            },
        }
    }
}

/// The first message that is looked for is one, and none before it is.
pub proof fn first_wanted_is_first(messages: Seq<MessageSnapshot>, sought: Sought, now: Timestamp)
    ensures
        match first_wanted(messages, sought, now) {
            Some(index) => {
                &&& 0 <= index < messages.len()
                &&& wanted(messages[index], sought, now)
                &&& forall|i: int| 0 <= i < index ==> !wanted(#[trigger] messages[i], sought, now)
            },
            None => forall|i: int|
                0 <= i < messages.len() ==> !wanted(#[trigger] messages[i], sought, now),
        },
    decreases messages.len(),
{
    if messages.len() > 0 {
        let shorter = messages.drop_last();
        first_wanted_is_first(shorter, sought, now);
        assert(forall|i: int| 0 <= i < shorter.len() ==> shorter[i] == messages[i]);
    }
}

fn is_wanted(message: MessageSnapshot, sought: Sought, now: Timestamp) -> (result: bool)
    ensures
        result == wanted(message, sought, now),
{
    match sought {
        Sought::Recovery => match message.state {
            DeliveryState::AcceptancePending { lease }
            | DeliveryState::AcceptanceUnknown { lease } => !now.before(lease.expires_at),
            _ => false,
        },
        Sought::Control => message.priority == MessagePriority::Control
            && !message.state.is_terminal(),
        Sought::Ordinary => message.priority == MessagePriority::Ordinary
            && !message.state.is_terminal(),
    }
}

fn find_wanted(messages: &Vec<MessageSnapshot>, sought: Sought, now: Timestamp) -> (found: Option<
    usize,
>)
    ensures
        match found {
            Some(index) => index < messages.len() && first_wanted(messages@, sought, now) == Some(
                index as int,
            ),
            None => first_wanted(messages@, sought, now) is None,
        },
{
    let mut index: usize = 0;
    while index < messages.len()
        invariant
            index <= messages.len(),
            forall|i: int| 0 <= i < index ==> !wanted(#[trigger] messages[i], sought, now),
        decreases messages.len() - index,
    {
        if is_wanted(messages[index], sought, now) {
            proof {
                first_wanted_is_first(messages@, sought, now);
                assert(wanted(messages@[index as int], sought, now));
            }
            return Some(index);
        }
        index = index + 1;
    }
    proof {
        first_wanted_is_first(messages@, sought, now);
    }
    None
}

/// Whether a message is being delivered.
pub open spec fn in_delivery(message: MessageSnapshot, now: Timestamp) -> bool {
    match message.state {
        DeliveryState::Leased { lease } | DeliveryState::AcceptancePending { lease }
        | DeliveryState::AcceptanceUnknown { lease } => now.spec_before(lease.expires_at),
        _ => false,
    }
}

/// Whether any message of a mailbox is being delivered.
pub open spec fn delivering(messages: Seq<MessageSnapshot>, now: Timestamp) -> bool {
    exists|i: int| 0 <= i < messages.len() && in_delivery(#[trigger] messages[i], now)
}

fn is_delivering(messages: &Vec<MessageSnapshot>, now: Timestamp) -> (result: bool)
    ensures
        result == delivering(messages@, now),
{
    let mut index: usize = 0;
    while index < messages.len()
        invariant
            index <= messages.len(),
            forall|i: int| 0 <= i < index ==> !in_delivery(#[trigger] messages[i], now),
        decreases messages.len() - index,
    {
        let message: MessageSnapshot = messages[index];
        let active: bool = match message.state {
            DeliveryState::Leased { lease } | DeliveryState::AcceptancePending { lease }
            | DeliveryState::AcceptanceUnknown { lease } => now.before(lease.expires_at),
            _ => false,
        };
        if active {
            assert(in_delivery(messages@[index as int], now));
            return true;
        }
        index = index + 1;
    }
    false
}

/// The message at the head of a mailbox: the first control message that has not come to its
/// end, or else the first other one.
pub open spec fn head(messages: Seq<MessageSnapshot>, now: Timestamp) -> Option<int> {
    match first_wanted(messages, Sought::Control, now) {
        Some(index) => Some(index),
        None => first_wanted(messages, Sought::Ordinary, now),
    }
}

/// Whether the head of a mailbox may be delivered now.
pub open spec fn deliverable(message: MessageSnapshot, now: Timestamp) -> bool {
    match message.state {
        DeliveryState::Queued => true,
        DeliveryState::RetryScheduled { not_before } => !now.spec_before(not_before),
        DeliveryState::Leased { lease } => !now.spec_before(lease.expires_at),
        _ => false,
    }
}

/// The message that is delivered next, by its place.
///
/// A delivery whose acceptance is open and whose lease has ended is taken up first. Otherwise
/// nothing is delivered while a delivery is under way, and then the head where it may be.
pub open spec fn selection(messages: Seq<MessageSnapshot>, now: Timestamp) -> Option<int> {
    match first_wanted(messages, Sought::Recovery, now) {
        Some(index) => Some(index),
        None => if delivering(messages, now) {
            None
        } else {
            match head(messages, now) {
                Some(index) => if deliverable(messages[index], now) {
                    Some(index)
                } else {
                    None
                },
                None => None,
            }
        },
    }
}

fn select(messages: &Vec<MessageSnapshot>, now: Timestamp) -> (selected: Option<usize>)
    ensures
        match selected {
            Some(index) => index < messages.len() && selection(messages@, now) == Some(
                index as int,
            ),
            None => selection(messages@, now) is None,
        },
{
    if let Some(index) = find_wanted(messages, Sought::Recovery, now) {
        return Some(index);
    }
    if is_delivering(messages, now) {
        return None;
    }
    let found: Option<usize> = match find_wanted(messages, Sought::Control, now) {
        Some(index) => Some(index),
        None => find_wanted(messages, Sought::Ordinary, now),
    };
    match found {
        Some(index) => {
            let message: MessageSnapshot = messages[index];
            let due: bool = match message.state {
                DeliveryState::Queued => true,
                DeliveryState::RetryScheduled { not_before } => !now.before(not_before),
                DeliveryState::Leased { lease } => !now.before(lease.expires_at),
                _ => false,
            };
            if due {
                Some(index)
            } else {
                None
            }
        },
        None => None,
    }
}

/// A lease that is taken up by another owner: the attempt, the driver and the instance stay.
pub open spec fn taken_up(
    lease: DeliveryLease,
    command: LeaseNextMessage,
    expires_at: Timestamp,
) -> DeliveryLease {
    DeliveryLease {
        owner: command.context.caller,
        ownership_epoch: command.epoch,
        expires_at,
        ..lease
    }
}

/// A new lease.
pub open spec fn new_lease(command: LeaseNextMessage, expires_at: Timestamp) -> DeliveryLease {
    DeliveryLease {
        attempt_id: command.proposed_attempt_id,
        owner: command.context.caller,
        ownership_epoch: command.epoch,
        driver_ownership_epoch: command.epoch,
        driver_launch_attempt_id: command.driver_launch_attempt_id,
        instance_id: command.instance_id,
        expires_at,
    }
}

/// A selected message after it was leased, or given up for having been tried too often.
///
/// A new delivery needs a ready instance.
pub open spec fn leased(
    message: MessageSnapshot,
    command: LeaseNextMessage,
    instance_ready: bool,
    expires_at: Timestamp,
    max_delivery_attempts: u32,
    now: Timestamp,
) -> Result<MessageSnapshot, Refusal> {
    let taken = match message.state {
        DeliveryState::AcceptancePending { lease } => Some(
            DeliveryState::AcceptancePending { lease: taken_up(lease, command, expires_at) },
        ),
        DeliveryState::AcceptanceUnknown { lease } => Some(
            DeliveryState::AcceptanceUnknown { lease: taken_up(lease, command, expires_at) },
        ),
        _ => None,
    };
    if taken is None && !instance_ready {
        Err(kept_refusal(StoreError::Invalid))
    } else {
        match message.revision.spec_next() {
            None => Err(bare_refusal(StoreError::Corrupt)),
            Some(revision) => Ok(
                MessageSnapshot {
                    revision,
                    updated_at: now,
                    attempt_count: if taken is None && message.attempt_count
                        < max_delivery_attempts {
                        (message.attempt_count + 1) as u32
                    } else {
                        message.attempt_count
                    },
                    state: match taken {
                        Some(state) => state,
                        None => if message.attempt_count >= max_delivery_attempts {
                            DeliveryState::DeadLetter { reason: DeliveryReason::AttemptsExhausted }
                        } else {
                            DeliveryState::Leased { lease: new_lease(command, expires_at) }
                        },
                    },
                    ..message
                },
            ),
        }
    }
}

fn lease_message(
    message: MessageSnapshot,
    command: LeaseNextMessage,
    instance_ready: bool,
    expires_at: Timestamp,
    max_delivery_attempts: u32,
    now: Timestamp,
) -> (result: Result<MessageSnapshot, Refusal>)
    ensures
        result == leased(
            message,
            command,
            instance_ready,
            expires_at,
            max_delivery_attempts,
            now,
        ),
{
    let taken: Option<DeliveryState> = match message.state {
        DeliveryState::AcceptancePending { lease } => Some(
            DeliveryState::AcceptancePending {
                lease: DeliveryLease {
                    owner: command.context.caller,
                    ownership_epoch: command.epoch,
                    expires_at,
                    ..lease
                },
            },
        ),
        DeliveryState::AcceptanceUnknown { lease } => Some(
            DeliveryState::AcceptanceUnknown {
                lease: DeliveryLease {
                    owner: command.context.caller,
                    ownership_epoch: command.epoch,
                    expires_at,
                    ..lease
                },
            },
        ),
        _ => None,
    };
    if taken.is_none() && !instance_ready {
        return Err(Refusal { error: StoreError::Invalid, recorded: true });
    }
    let revision: Revision = match message.revision.next() {
        Some(revision) => revision,
        None => {
            return Err(Refusal { error: StoreError::Corrupt, recorded: false });
        },
    };
    let (attempt_count, state): (u32, DeliveryState) = match taken {
        Some(state) => (message.attempt_count, state),
        None => if message.attempt_count >= max_delivery_attempts {
            (
                message.attempt_count,
                DeliveryState::DeadLetter { reason: DeliveryReason::AttemptsExhausted },
            )
        } else {
            (
                message.attempt_count + 1,
                DeliveryState::Leased {
                    lease: DeliveryLease {
                        attempt_id: command.proposed_attempt_id,
                        owner: command.context.caller,
                        ownership_epoch: command.epoch,
                        driver_ownership_epoch: command.epoch,
                        driver_launch_attempt_id: command.driver_launch_attempt_id,
                        instance_id: command.instance_id,
                        expires_at,
                    },
                },
            )
        },
    };
    Ok(MessageSnapshot { revision, updated_at: now, attempt_count, state, ..message })
}

/// The outcome of a wish for the next message: nothing, or the message after it was leased or
/// given up.
pub open spec fn lease_outcome(
    messages: Seq<MessageSnapshot>,
    command: LeaseNextMessage,
    instance_ready: bool,
    limits: StoreLimits,
    now: Timestamp,
) -> Result<Option<MessageSnapshot>, Refusal> {
    match bounded_lease_end(now, command.lease_millis, limits.max_lease_millis) {
        Err(error) => Err(kept_refusal(error)),
        Ok(expires_at) => match selection(messages, now) {
            None => Ok(None),
            Some(index) => match leased(
                messages[index],
                command,
                instance_ready,
                expires_at,
                limits.max_delivery_attempts,
                now,
            ) {
                Ok(message) => Ok(Some(message)),
                Err(refusal) => Err(refusal),
            },
        },
    }
}

/// Leases the next message of a mailbox, leaving aside the counts of the mailbox.
///
/// `messages` are the messages of the mailbox by priority and sequence number, and
/// `instance_ready` tells whether the named instance is ready under the named launch.
pub fn take_next_message(
    messages: &Vec<MessageSnapshot>,
    command: LeaseNextMessage,
    instance_ready: bool,
    limits: StoreLimits,
    now: Timestamp,
) -> (result: Result<Option<MessageSnapshot>, Refusal>)
    requires
        now.wf(),
    ensures
        result == lease_outcome(messages@, command, instance_ready, limits, now),
{
    let expires_at: Timestamp = match expiry(now, command.lease_millis, limits.max_lease_millis) {
        Ok(expires_at) => expires_at,
        Err(error) => {
            return Err(Refusal { error, recorded: true });
        },
    };
    match select(messages, now) {
        None => Ok(None),
        Some(index) => match lease_message(
            messages[index],
            command,
            instance_ready,
            expires_at,
            limits.max_delivery_attempts,
            now,
        ) {
            Ok(message) => Ok(Some(message)),
            Err(refusal) => Err(refusal),
        },
    }
}

/// A message that was leased or given up, and the counts of its mailbox where they change.
#[derive(Clone, Copy, PartialEq, Eq, Debug, Structural)]
pub struct LeasePlan {
    pub message: MessageSnapshot,
    pub counter: Option<MailboxCounter>,
}

/// The whole outcome of a wish for the next message: a message that is given up also leaves its
/// mailbox.
pub open spec fn next_message_outcome(
    messages: Seq<MessageSnapshot>,
    command: LeaseNextMessage,
    instance_ready: bool,
    counter: Option<MailboxCounter>,
    limits: StoreLimits,
    now: Timestamp,
) -> Result<Option<LeasePlan>, Refusal> {
    match lease_outcome(messages, command, instance_ready, limits, now) {
        Err(refusal) => Err(refusal),
        Ok(None) => Ok(None),
        Ok(Some(message)) => match room_after(message, counter) {
            Err(error) => Err(bare_refusal(error)),
            Ok(counter) => Ok(Some(LeasePlan { message, counter })),
        },
    }
}

/// Decides a wish for the next message of a mailbox.
///
/// `messages` and `instance_ready` are as for `take_next_message`, and `counter` is what is kept
/// of the mailbox.
pub fn lease_next_message(
    messages: &Vec<MessageSnapshot>,
    command: LeaseNextMessage,
    instance_ready: bool,
    counter: Option<MailboxCounter>,
    limits: StoreLimits,
    now: Timestamp,
) -> (result: Result<Option<LeasePlan>, Refusal>)
    requires
        now.wf(),
    ensures
        result == next_message_outcome(messages@, command, instance_ready, counter, limits, now),
{
    match take_next_message(messages, command, instance_ready, limits, now) {
        Err(refusal) => Err(refusal),
        Ok(None) => Ok(None),
        Ok(Some(message)) => match leave_when_settled(message, counter) {
            Err(error) => Err(Refusal { error, recorded: false }),
            Ok(counter) => Ok(Some(LeasePlan { message, counter })),
        },
    }
}

/// A message leaves its mailbox exactly when it is given up for want of attempts.
pub proof fn exhausted_messages_leave_their_mailbox(
    messages: Seq<MessageSnapshot>,
    command: LeaseNextMessage,
    instance_ready: bool,
    counter: Option<MailboxCounter>,
    limits: StoreLimits,
    now: Timestamp,
)
    ensures
        next_message_outcome(messages, command, instance_ready, counter, limits, now) matches Ok(
            Some(plan),
        ) ==> {
            let given_up = DeliveryState::DeadLetter { reason: DeliveryReason::AttemptsExhausted };
            &&& plan.counter is Some <==> plan.message.state == given_up
            &&& plan.counter is Some ==> plan.counter == without(
                counter,
                plan.message.envelope.size,
            )
            &&& plan.message.state == given_up ==> plan.message.attempt_count
                >= limits.max_delivery_attempts
        },
{
}

/// Messages are delivered in order: a message that is newly leased is not preceded by another of
/// its priority that has not come to its end, and an ordinary one not by a control message.
pub proof fn deliveries_keep_their_order(messages: Seq<MessageSnapshot>, now: Timestamp, other: int)
    requires
        selection(messages, now) is Some,
        first_wanted(messages, Sought::Recovery, now) is None,
        0 <= other < messages.len(),
        !messages[other].state.terminal(),
    ensures
        ({
            let chosen = selection(messages, now)->Some_0;
            &&& 0 <= chosen < messages.len()
            &&& messages[other].priority == messages[chosen].priority ==> chosen <= other
            &&& messages[other].priority == MessagePriority::Control
                ==> messages[chosen].priority == MessagePriority::Control
        }),
{
    first_wanted_is_first(messages, Sought::Control, now);
    first_wanted_is_first(messages, Sought::Ordinary, now);
    assert(wanted(messages[other], Sought::Control, now) || wanted(
        messages[other],
        Sought::Ordinary,
        now,
    ));
}

/// One delivery at a time: while one is under way and none has to be taken up, no other begins.
pub proof fn one_delivery_at_a_time(messages: Seq<MessageSnapshot>, now: Timestamp)
    requires
        delivering(messages, now),
        first_wanted(messages, Sought::Recovery, now) is None,
    ensures
        selection(messages, now) is None,
{
}

/// A delivery whose acceptance is open is never begun anew: it is taken up with the same
/// attempt, and is not counted again.
pub proof fn open_acceptance_keeps_its_attempt(
    message: MessageSnapshot,
    command: LeaseNextMessage,
    instance_ready: bool,
    expires_at: Timestamp,
    max_delivery_attempts: u32,
    now: Timestamp,
)
    requires
        message.state is AcceptancePending || message.state is AcceptanceUnknown,
        message.revision.spec_next() is Some,
    ensures
        leased(message, command, instance_ready, expires_at, max_delivery_attempts, now) matches Ok(
            after,
        ) && after.attempt_count == message.attempt_count && match (message.state, after.state) {
            (
                DeliveryState::AcceptancePending { lease: before },
                DeliveryState::AcceptancePending { lease },
            ) => lease.attempt_id == before.attempt_id,
            (
                DeliveryState::AcceptanceUnknown { lease: before },
                DeliveryState::AcceptanceUnknown { lease },
            ) => lease.attempt_id == before.attempt_id,
            _ => false,
        },
{
}

/// No message is tried more often than it may be.
pub proof fn attempts_are_bounded(
    message: MessageSnapshot,
    command: LeaseNextMessage,
    instance_ready: bool,
    expires_at: Timestamp,
    max_delivery_attempts: u32,
    now: Timestamp,
)
    requires
        message.attempt_count <= max_delivery_attempts,
    ensures
        leased(message, command, instance_ready, expires_at, max_delivery_attempts, now) matches Ok(
            after,
        ) ==> after.attempt_count <= max_delivery_attempts,
{
}

/// What happens to a delivery that is under way.
#[derive(Clone, Copy, PartialEq, Eq, Debug, Structural)]
pub enum DeliveryTransition {
    AcceptancePending,
    AcceptanceUnknown,
    RetryAfter { delay_millis: u64 },
    Accepted { proof_digest: Digest },
    Uncertain { reason: DeliveryReason },
    DeadLetter { reason: DeliveryReason },
}

/// A wish to move a delivery on.
#[derive(Clone, Copy, PartialEq, Eq, Debug, Structural)]
pub struct TransitionMessageDelivery {
    pub context: RequestContext,
    pub session_id: SessionId,
    pub epoch: FencingEpoch,
    pub message_id: MessageId,
    pub attempt_id: DeliveryAttemptId,
    pub expected_revision: Revision,
    pub transition: DeliveryTransition,
}

/// What was found for a wish to move a delivery on.
#[derive(Clone, Copy, PartialEq, Eq, Debug, Structural)]
pub struct DeliveryFacts {
    pub message: Option<MessageSnapshot>,
    pub retry_usage: CapacityUsage,
    pub retry_limit: CapacityLimit,
    pub event_usage: CapacityUsage,
    pub event_limit: CapacityLimit,
}

/// Whether a lease is the caller's for the named attempt.
pub open spec fn holds(lease: DeliveryLease, command: TransitionMessageDelivery) -> bool {
    &&& lease.attempt_id == command.attempt_id
    &&& lease.owner == command.context.caller
    &&& lease.ownership_epoch == command.epoch
}

/// The lease on which a delivery is moved on: the caller's, and still running where acceptance
/// was not asked for yet.
pub open spec fn held_lease(
    state: DeliveryState,
    command: TransitionMessageDelivery,
    now: Timestamp,
) -> Option<DeliveryLease> {
    match state {
        DeliveryState::Leased { lease } => if holds(lease, command) && now.spec_before(
            lease.expires_at,
        ) {
            Some(lease)
        } else {
            None
        },
        DeliveryState::AcceptancePending { lease } | DeliveryState::AcceptanceUnknown { lease } => {
            if holds(lease, command) {
                Some(lease)
            } else {
                None
            }
        },
        _ => None,
    }
}

/// The state to which a delivery is moved on.
///
/// Acceptance is asked for once; until it is settled it may become unknown, be settled either
/// way, or be retried. A delivery may be given up at any time.
pub open spec fn next_delivery(
    state: DeliveryState,
    lease: DeliveryLease,
    command: TransitionMessageDelivery,
    retry_at: Timestamp,
    now: Timestamp,
) -> Option<DeliveryState> {
    let open = state is AcceptancePending || state is AcceptanceUnknown;
    match command.transition {
        DeliveryTransition::AcceptancePending => if state is Leased {
            Some(DeliveryState::AcceptancePending { lease })
        } else {
            None
        },
        DeliveryTransition::AcceptanceUnknown => if state is AcceptancePending {
            Some(DeliveryState::AcceptanceUnknown { lease })
        } else {
            None
        },
        DeliveryTransition::RetryAfter { .. } => if open {
            Some(DeliveryState::RetryScheduled { not_before: retry_at })
        } else {
            None
        },
        DeliveryTransition::Accepted { proof_digest } => if open {
            Some(
                DeliveryState::Accepted {
                    attempt_id: command.attempt_id,
                    proof_digest,
                    accepted_at: now,
                },
            )
        } else {
            None
        },
        DeliveryTransition::Uncertain { reason } => if open {
            Some(DeliveryState::Uncertain { attempt_id: command.attempt_id, reason })
        } else {
            None
        },
        DeliveryTransition::DeadLetter { reason } => Some(DeliveryState::DeadLetter { reason }),
    }
}

/// When a retry is due; any other move is due now.
pub open spec fn retry_due(
    transition: DeliveryTransition,
    limits: StoreLimits,
    now: Timestamp,
) -> Result<Timestamp, StoreError> {
    match transition {
        DeliveryTransition::RetryAfter { delay_millis } => bounded_lease_end(
            now,
            delay_millis,
            limits.max_lease_millis,
        ),
        _ => Ok(now),
    }
}

/// The capacity obstacle to moving a delivery on: a retry counts, and every move leaves an event.
pub open spec fn delivery_obstacle(
    transition: DeliveryTransition,
    facts: DeliveryFacts,
) -> Option<StoreError> {
    let retry = capacity_obstacle(
        CapacityResource::Retries,
        facts.retry_usage,
        facts.retry_limit,
        1,
    );
    if transition is RetryAfter && retry is Some {
        retry
    } else {
        capacity_obstacle(
            CapacityResource::RetainedEvents,
            facts.event_usage,
            facts.event_limit,
            1,
        )
    }
}

/// The outcome of a wish to move a delivery on.
pub open spec fn delivery_outcome(
    command: TransitionMessageDelivery,
    facts: DeliveryFacts,
    limits: StoreLimits,
    now: Timestamp,
) -> Result<MessageSnapshot, Refusal> {
    match retry_due(command.transition, limits, now) {
        Err(error) => Err(kept_refusal(error)),
        Ok(retry_at) => match facts.message {
            None => Err(
                kept_refusal(StoreError::MessageNotFound { message_id: command.message_id }),
            ),
            Some(message) => if message.session_id != command.session_id || message.revision
                != command.expected_revision || message.state.terminal() || held_lease(
                message.state,
                command,
                now,
            ) is None {
                Err(kept_refusal(StoreError::Invalid))
            } else {
                let lease = held_lease(message.state, command, now)->Some_0;
                match delivery_obstacle(command.transition, facts) {
                    Some(error) => Err(bare_refusal(error)),
                    None => match next_delivery(message.state, lease, command, retry_at, now) {
                        None => Err(kept_refusal(StoreError::Invalid)),
                        Some(state) => match message.revision.spec_next() {
                            None => Err(bare_refusal(StoreError::Corrupt)),
                            Some(revision) => Ok(
                                MessageSnapshot { state, revision, updated_at: now, ..message },
                            ),
                        },
                    },
                }
            },
        },
    }
}

fn find_held_lease(state: DeliveryState, command: TransitionMessageDelivery, now: Timestamp) -> (
lease: Option<DeliveryLease>)
    ensures
        lease == held_lease(state, command, now),
{
    match state {
        DeliveryState::Leased { lease } => if lease.attempt_id == command.attempt_id && lease.owner
            == command.context.caller && lease.ownership_epoch == command.epoch && now.before(
            lease.expires_at,
        ) {
            Some(lease)
        } else {
            None
        },
        DeliveryState::AcceptancePending { lease } | DeliveryState::AcceptanceUnknown { lease } => {
            if lease.attempt_id == command.attempt_id && lease.owner == command.context.caller
                && lease.ownership_epoch == command.epoch {
                Some(lease)
            } else {
                None
            }
        },
        _ => None,
    }
}

fn find_next_delivery(
    state: DeliveryState,
    lease: DeliveryLease,
    command: TransitionMessageDelivery,
    retry_at: Timestamp,
    now: Timestamp,
) -> (next: Option<DeliveryState>)
    ensures
        next == next_delivery(state, lease, command, retry_at, now),
{
    let (fresh, pending, open): (bool, bool, bool) = match state {
        DeliveryState::Leased { .. } => (true, false, false),
        DeliveryState::AcceptancePending { .. } => (false, true, true),
        DeliveryState::AcceptanceUnknown { .. } => (false, false, true),
        _ => (false, false, false),
    };
    match command.transition {
        DeliveryTransition::AcceptancePending => if fresh {
            Some(DeliveryState::AcceptancePending { lease })
        } else {
            None
        },
        DeliveryTransition::AcceptanceUnknown => if pending {
            Some(DeliveryState::AcceptanceUnknown { lease })
        } else {
            None
        },
        DeliveryTransition::RetryAfter { .. } => if open {
            Some(DeliveryState::RetryScheduled { not_before: retry_at })
        } else {
            None
        },
        DeliveryTransition::Accepted { proof_digest } => if open {
            Some(
                DeliveryState::Accepted {
                    attempt_id: command.attempt_id,
                    proof_digest,
                    accepted_at: now,
                },
            )
        } else {
            None
        },
        DeliveryTransition::Uncertain { reason } => if open {
            Some(DeliveryState::Uncertain { attempt_id: command.attempt_id, reason })
        } else {
            None
        },
        DeliveryTransition::DeadLetter { reason } => Some(DeliveryState::DeadLetter { reason }),
    }
}

/// Moves a delivery on, leaving aside what follows from it.
pub fn advance_delivery(
    command: TransitionMessageDelivery,
    facts: DeliveryFacts,
    limits: StoreLimits,
    now: Timestamp,
) -> (result: Result<MessageSnapshot, Refusal>)
    requires
        now.wf(),
    ensures
        result == delivery_outcome(command, facts, limits, now),
{
    let (retries, retry_at): (bool, Timestamp) = match command.transition {
        DeliveryTransition::RetryAfter { delay_millis } => match expiry(
            now,
            delay_millis,
            limits.max_lease_millis,
        ) {
            Ok(retry_at) => (true, retry_at),
            Err(error) => {
                return Err(Refusal { error, recorded: true });
            },
        },
        _ => (false, now),
    };
    let message: MessageSnapshot = match facts.message {
        Some(message) => message,
        None => {
            return Err(
                Refusal {
                    error: StoreError::MessageNotFound { message_id: command.message_id },
                    recorded: true,
                },
            );
        },
    };
    if message.session_id != command.session_id || message.revision != command.expected_revision
        || message.state.is_terminal() {
        return Err(Refusal { error: StoreError::Invalid, recorded: true });
    }
    let lease: DeliveryLease = match find_held_lease(message.state, command, now) {
        Some(lease) => lease,
        None => {
            return Err(Refusal { error: StoreError::Invalid, recorded: true });
        },
    };
    if retries {
        match ensure_derived_capacity(
            CapacityResource::Retries,
            facts.retry_usage,
            facts.retry_limit,
            1,
        ) {
            Ok(_) => {},
            Err(error) => {
                return Err(Refusal { error, recorded: false });
            },
        }
    }
    match ensure_derived_capacity(
        CapacityResource::RetainedEvents,
        facts.event_usage,
        facts.event_limit,
        1,
    ) {
        Ok(_) => {},
        Err(error) => {
            return Err(Refusal { error, recorded: false });
        },
    }
    let state: DeliveryState = match find_next_delivery(
        message.state,
        lease,
        command,
        retry_at,
        now,
    ) {
        Some(state) => state,
        None => {
            return Err(Refusal { error: StoreError::Invalid, recorded: true });
        },
    };
    match message.revision.next() {
        Some(revision) => Ok(MessageSnapshot { state, revision, updated_at: now, ..message }),
        None => Err(Refusal { error: StoreError::Corrupt, recorded: false }),
    }
}

/// A message that has come to its end is never moved on, and only the holder of the lease moves
/// a delivery on.
pub proof fn settled_messages_stay_settled(
    command: TransitionMessageDelivery,
    facts: DeliveryFacts,
    limits: StoreLimits,
    now: Timestamp,
)
    ensures
        delivery_outcome(command, facts, limits, now) matches Ok(after) ==> {
            let before = facts.message->Some_0;
            &&& !before.state.terminal()
            &&& held_lease(before.state, command, now) is Some
            &&& after.revision.0 == before.revision.0 + 1
            &&& after.envelope == before.envelope
            &&& after.mailbox_sequence == before.mailbox_sequence
            &&& after.attempt_count == before.attempt_count
        },
{
}

/// A message counts as accepted only after acceptance was asked for under the same attempt.
pub proof fn acceptance_follows_the_attempt(
    command: TransitionMessageDelivery,
    facts: DeliveryFacts,
    limits: StoreLimits,
    now: Timestamp,
)
    ensures
        delivery_outcome(command, facts, limits, now) matches Ok(after) ==> (
        after.state matches DeliveryState::Accepted { attempt_id, .. } ==> {
            let before = facts.message->Some_0.state;
            &&& attempt_id == command.attempt_id
            &&& match before {
                DeliveryState::AcceptancePending { lease }
                | DeliveryState::AcceptanceUnknown { lease } => lease.attempt_id == attempt_id,
                _ => false,
            }
        }),
{
}

/// The delivery view follows every move of a delivery that it provides for. It does not provide
/// for a retry of an open acceptance, nor for giving one up.
pub proof fn projections_follow_deliveries(
    state: DeliveryState,
    lease: DeliveryLease,
    command: TransitionMessageDelivery,
    retry_at: Timestamp,
    now: Timestamp,
)
    requires
        next_delivery(state, lease, command, retry_at, now) is Some,
        !state.terminal(),
        !(command.transition is RetryAfter),
        command.transition is DeadLetter ==> state is Leased,
    ensures
        transition_allowed(
            ProjectionView::Delivery,
            delivery_event(state).0,
            delivery_event(next_delivery(state, lease, command, retry_at, now)->Some_0).0,
        ),
{
}

/// The operation that goes on once feedback was accepted: the one that waits for the answer.
pub open spec fn resumed(
    message: MessageSnapshot,
    session_id: SessionId,
    operation: Option<OperationSnapshot>,
    now: Timestamp,
) -> Result<Option<OperationSnapshot>, StoreError> {
    match (message.state, message.envelope.body) {
        (DeliveryState::Accepted { .. }, MessageBody::CorrelatedFeedback { in_reply_to, .. }) => {
            match operation {
                None => Err(StoreError::Corrupt),
                Some(operation) => if operation.session_id == session_id && operation.participant_id
                    == message.destination && operation.state == OperationState::Waiting
                    && operation.waiting_on_message_id == Some(in_reply_to) {
                    match operation.revision.spec_next() {
                        None => Err(StoreError::Corrupt),
                        Some(revision) => Ok(
                            Some(
                                OperationSnapshot {
                                    state: OperationState::Running,
                                    waiting_on_message_id: None,
                                    revision,
                                    updated_at: now.spec_max(operation.updated_at),
                                    ..operation
                                },
                            ),
                        ),
                    }
                } else {
                    Ok(None)
                },
            }
        },
        _ => Ok(None),
    }
}

/// Lets an operation go on once feedback on it was accepted.
///
/// `operation` is the operation that the feedback names, where it is there.
pub fn resume_on_feedback(
    message: MessageSnapshot,
    session_id: SessionId,
    operation: Option<OperationSnapshot>,
    now: Timestamp,
) -> (result: Result<Option<OperationSnapshot>, StoreError>)
    ensures
        result == resumed(message, session_id, operation, now),
{
    match (message.state, message.envelope.body) {
        (DeliveryState::Accepted { .. }, MessageBody::CorrelatedFeedback { in_reply_to, .. }) => {
            match operation {
                None => Err(StoreError::Corrupt),
                Some(operation) => {
                    if operation.session_id != session_id || operation.participant_id
                        != message.destination || operation.state != OperationState::Waiting
                        || operation.waiting_on_message_id != Some(in_reply_to) {
                        return Ok(None);
                    }
                    match operation.revision.next() {
                        None => Err(StoreError::Corrupt),
                        Some(revision) => Ok(
                            Some(
                                OperationSnapshot {
                                    state: OperationState::Running,
                                    waiting_on_message_id: None,
                                    revision,
                                    updated_at: now.later(operation.updated_at),
                                    ..operation
                                },
                            ),
                        ),
                    }
                },
            }
        },
        _ => Ok(None),
    }
}

/// An operation that goes on after feedback is sound.
pub proof fn resuming_keeps_operations_sound(
    message: MessageSnapshot,
    session_id: SessionId,
    operation: OperationSnapshot,
    now: Timestamp,
)
    requires
        operation.sound(),
    ensures
        resumed(message, session_id, Some(operation), now) matches Ok(Some(after)) ==> after.sound(),
{
}

/// A delivery that was moved on: the message, the counts of its mailbox where they change, and
/// the operation that goes on.
#[derive(Clone, Copy, PartialEq, Eq, Debug, Structural)]
pub struct DeliveryPlan {
    pub message: MessageSnapshot,
    pub counter: Option<MailboxCounter>,
    pub operation: Option<OperationSnapshot>,
}

/// The whole outcome of a wish to move a delivery on: accepted feedback lets the operation go on
/// that waits for it, and a message that has come to its end leaves its mailbox.
pub open spec fn transition_outcome(
    command: TransitionMessageDelivery,
    facts: DeliveryFacts,
    operation: Option<OperationSnapshot>,
    counter: Option<MailboxCounter>,
    limits: StoreLimits,
    now: Timestamp,
) -> Result<DeliveryPlan, Refusal> {
    match delivery_outcome(command, facts, limits, now) {
        Err(refusal) => Err(refusal),
        Ok(message) => match resumed(message, command.session_id, operation, now) {
            Err(error) => Err(bare_refusal(error)),
            Ok(operation) => match room_after(message, counter) {
                Err(error) => Err(bare_refusal(error)),
                Ok(counter) => Ok(DeliveryPlan { message, counter, operation }),
            },
        },
    }
}

/// Decides a wish to move a delivery on.
///
/// `operation` is the operation that the message answers, where it is there, and `counter` is
/// what is kept of the mailbox.
pub fn transition_message_delivery(
    command: TransitionMessageDelivery,
    facts: DeliveryFacts,
    operation: Option<OperationSnapshot>,
    counter: Option<MailboxCounter>,
    limits: StoreLimits,
    now: Timestamp,
) -> (result: Result<DeliveryPlan, Refusal>)
    requires
        now.wf(),
    ensures
        result == transition_outcome(command, facts, operation, counter, limits, now),
{
    let message: MessageSnapshot = match advance_delivery(command, facts, limits, now) {
        Ok(message) => message,
        Err(refusal) => {
            return Err(refusal);
        },
    };
    let operation: Option<OperationSnapshot> = match resume_on_feedback(
        message,
        command.session_id,
        operation,
        now,
    ) {
        Ok(operation) => operation,
        Err(error) => {
            return Err(Refusal { error, recorded: false });
        },
    };
    match leave_when_settled(message, counter) {
        Ok(counter) => Ok(DeliveryPlan { message, counter, operation }),
        Err(error) => Err(Refusal { error, recorded: false }),
    }
}

/// The type of the event that tells that an operation goes on after feedback.
pub open spec fn resumption_event() -> Seq<char> {
    "operation.resumed"@
}

/// The operation that goes on with a delivery, and the type of the event that tells it.
pub fn resumption_of(plan: &DeliveryPlan) -> (told: Option<(OperationSnapshot, &'static str)>)
    ensures
        match plan.operation {
            Some(operation) => told matches Some((resumed, kind)) && resumed == operation && kind@
                == resumption_event(),
            None => told is None,
        },
{
    match plan.operation {
        Some(operation) => Some((operation, "operation.resumed")),
        None => None,
    }
}

/// A message leaves its mailbox exactly when its delivery is settled, and an operation goes on
/// only when the answer that it waits for was accepted.
pub proof fn settled_deliveries_have_their_effects(
    command: TransitionMessageDelivery,
    facts: DeliveryFacts,
    operation: Option<OperationSnapshot>,
    counter: Option<MailboxCounter>,
    limits: StoreLimits,
    now: Timestamp,
)
    ensures
        transition_outcome(command, facts, operation, counter, limits, now) matches Ok(plan) ==> {
            let waited = operation->Some_0;
            &&& plan.counter is Some <==> plan.message.state.terminal()
            &&& plan.counter is Some ==> plan.counter == without(
                counter,
                plan.message.envelope.size,
            )
            &&& plan.operation matches Some(after) ==> {
                &&& plan.message.state is Accepted
                &&& plan.message.envelope.body is CorrelatedFeedback
                &&& waited.state == OperationState::Waiting
                &&& waited.waiting_on_message_id == Some(
                    plan.message.envelope.body->CorrelatedFeedback_in_reply_to,
                )
                &&& after.operation_id == waited.operation_id
                &&& after.state == OperationState::Running
                &&& after.waiting_on_message_id is None
            }
        },
{
}

/// A message of an operation that has ended: what was not sent is given up, and what may have
/// arrived stays uncertain.
pub open spec fn retired(
    message: MessageSnapshot,
    operation: OperationSnapshot,
    observed: Timestamp,
) -> Result<MessageSnapshot, StoreError> {
    let reason = DeliveryReason::OperationEnded;
    if message.destination != operation.participant_id || message.state.terminal() {
        Err(StoreError::Corrupt)
    } else {
        match message.revision.spec_next() {
            None => Err(StoreError::Corrupt),
            Some(revision) => Ok(
                MessageSnapshot {
                    revision,
                    updated_at: observed.spec_max(message.updated_at),
                    state: match message.state {
                        DeliveryState::AcceptancePending { lease }
                        | DeliveryState::AcceptanceUnknown { lease } => DeliveryState::Uncertain {
                            attempt_id: lease.attempt_id,
                            reason,
                        },
                        _ => DeliveryState::DeadLetter { reason },
                    },
                    ..message
                },
            ),
        }
    }
}

/// Retires a message of an operation that has ended.
pub fn retire_message(
    message: MessageSnapshot,
    operation: OperationSnapshot,
    observed: Timestamp,
) -> (result: Result<MessageSnapshot, StoreError>)
    ensures
        result == retired(message, operation, observed),
{
    let reason = DeliveryReason::OperationEnded;
    if message.destination != operation.participant_id || message.state.is_terminal() {
        return Err(StoreError::Corrupt);
    }
    let state: DeliveryState = match message.state {
        DeliveryState::AcceptancePending { lease } | DeliveryState::AcceptanceUnknown { lease } => {
            DeliveryState::Uncertain { attempt_id: lease.attempt_id, reason }
        },
        _ => DeliveryState::DeadLetter { reason },
    };
    match message.revision.next() {
        None => Err(StoreError::Corrupt),
        Some(revision) => Ok(
            MessageSnapshot {
                revision,
                updated_at: observed.later(message.updated_at),
                state,
                ..message
            },
        ),
    }
}

/// The mailbox after the first `count` of the messages were retired.
pub open spec fn mailbox_after(
    counter: Option<MailboxCounter>,
    messages: Seq<MessageSnapshot>,
    count: nat,
) -> Option<MailboxCounter>
    decreases count,
{
    if count == 0 {
        counter
    } else {
        match mailbox_after(counter, messages, (count - 1) as nat) {
            Some(counter) => without(Some(counter), messages[count - 1].envelope.size),
            None => None,
        }
    }
}

/// Whether messages can be retired: each of them can, and the counts of the mailbox hold them.
pub open spec fn retirable(
    messages: Seq<MessageSnapshot>,
    operation: OperationSnapshot,
    counter: Option<MailboxCounter>,
    observed: Timestamp,
) -> bool {
    &&& forall|i: int|
        0 <= i < messages.len() ==> retired(#[trigger] messages[i], operation, observed) is Ok
    &&& messages.len() > 0 ==> mailbox_after(counter, messages, messages.len()) is Some
}

/// Whether messages are others after they were retired, one for one.
pub open spec fn all_retired(
    messages: Seq<MessageSnapshot>,
    operation: OperationSnapshot,
    observed: Timestamp,
    after: Seq<MessageSnapshot>,
) -> bool {
    &&& after.len() == messages.len()
    &&& forall|i: int|
        0 <= i < messages.len() ==> retired(messages[i], operation, observed) == Ok::<
            MessageSnapshot,
            StoreError,
        >(#[trigger] after[i])
}

/// Retires all messages to a participant that belong to its operation, once that has ended, and
/// takes them out of the counts of its mailbox.
pub fn retire_correlated_messages(
    messages: &Vec<MessageSnapshot>,
    operation: OperationSnapshot,
    counter: Option<MailboxCounter>,
    observed: Timestamp,
) -> (result: Result<(Vec<MessageSnapshot>, Option<MailboxCounter>), StoreError>)
    ensures
        match result {
            Ok((after, left)) => {
                &&& retirable(messages@, operation, counter, observed)
                &&& all_retired(messages@, operation, observed, after@)
                &&& left == mailbox_after(counter, messages@, messages.len() as nat)
            },
            Err(error) => error == StoreError::Corrupt && !retirable(
                messages@,
                operation,
                counter,
                observed,
            ),
        },
{
    let mut after: Vec<MessageSnapshot> = Vec::new();
    let mut left: Option<MailboxCounter> = counter;
    let mut index: usize = 0;
    while index < messages.len()
        invariant
            index <= messages.len(),
            after.len() == index,
            forall|i: int|
                0 <= i < index ==> retired(messages[i], operation, observed) == Ok::<
                    MessageSnapshot,
                    StoreError,
                >(#[trigger] after[i]),
            left == mailbox_after(counter, messages@, index as nat),
            index > 0 ==> left is Some,
        decreases messages.len() - index,
    {
        let message: MessageSnapshot = messages[index];
        let gone: MessageSnapshot = match retire_message(message, operation, observed) {
            Ok(gone) => gone,
            Err(error) => {
                assert(retired(messages@[index as int], operation, observed) is Err);
                return Err(error);
            },
        };
        left = match decrement_mailbox_bytes(left, message.envelope.size) {
            Ok(counter) => Some(counter),
            Err(error) => {
                proof {
                    lemma_missing_mailbox_stays(
                        counter,
                        messages@,
                        (index + 1) as nat,
                        messages.len() as nat,
                    );
                }
                return Err(error);
            },
        };
        after.push(gone);
        index = index + 1;
    }
    assert forall|i: int| 0 <= i < messages.len() implies retired(
        #[trigger] messages@[i],
        operation,
        observed,
    ) is Ok by {
        assert(retired(messages@[i], operation, observed) == Ok::<MessageSnapshot, StoreError>(
            after@[i],
        ));
    }
    Ok((after, left))
}

proof fn lemma_missing_mailbox_stays(
    counter: Option<MailboxCounter>,
    messages: Seq<MessageSnapshot>,
    missing: nat,
    count: nat,
)
    requires
        0 < missing <= count,
        mailbox_after(counter, messages, missing) is None,
    ensures
        mailbox_after(counter, messages, count) is None,
    decreases count,
{
    if missing < count {
        lemma_missing_mailbox_stays(counter, messages, missing, (count - 1) as nat);
    }
}

/// Every retired message has come to its end, and one that may have arrived is never said to
/// have been lost.
pub proof fn retired_messages_are_settled(
    message: MessageSnapshot,
    operation: OperationSnapshot,
    observed: Timestamp,
)
    ensures
        retired(message, operation, observed) matches Ok(after) ==> {
            &&& after.state.terminal()
            &&& (message.state is AcceptancePending || message.state is AcceptanceUnknown)
                ==> after.state is Uncertain
        },
{
}

/// Whether a limit on delivery work is in order.
pub fn validate_work_limit(limit: usize, max: usize) -> (result: Result<(), StoreError>)
    ensures
        result == (if limit == 0 || limit > max {
            Err::<(), StoreError>(StoreError::Invalid)
        } else {
            Ok(())
        }),
{
    if limit == 0 || limit > max {
        Err(StoreError::Invalid)
    } else {
        Ok(())
    }
}

/// Checks the operation for which a message is due: an operation of the destination in the
/// session that has not ended.
pub fn due_operation(
    message: MessageSnapshot,
    session_id: SessionId,
    operation: Option<OperationSnapshot>,
) -> (result: Result<OperationSnapshot, StoreError>)
    ensures
        result == (match operation {
            Some(operation) => if operation.session_id == session_id && operation.participant_id
                == message.destination && !operation.state.terminal() {
                Ok::<OperationSnapshot, StoreError>(operation)
            } else {
                Err(StoreError::Corrupt)
            },
            None => Err(StoreError::Corrupt),
        }),
{
    match operation {
        Some(operation) => if operation.session_id == session_id && operation.participant_id
            == message.destination && !operation.state.is_terminal() {
            Ok(operation)
        } else {
            Err(StoreError::Corrupt)
        },
        None => Err(StoreError::Corrupt),
    }
}

} // verus!
