//! The journal of effects: what participants do to the world outside, and what is known of it.

use crate::authority::{
    grant_usable, is_grant_usable, spend_grant, spent, GrantSnapshot, ResourceScope,
    ScopedCapability, StoreCapability,
};
use crate::error::StoreError;
use crate::ids::{
    Digest, FencingEpoch, HostId, OperationId, ParticipantId, RequestId, Revision, SessionId,
};
use crate::operation::{OperationSnapshot, OperationState, ParticipantSnapshot};
use crate::text::{same_text, text_mark};
use crate::time::{effect_expiry, lease_end, Timestamp};
use vstd::prelude::*;

verus! {

/// What repeating an effect would do.
#[derive(Clone, Copy, PartialEq, Eq, Debug, Structural)]
pub enum EffectClass {
    ReadOnly,
    Idempotent,
    Transactional,
    NonIdempotent,
    Unknown,
}

/// The stored name of a class of effects.
pub open spec fn class_text(value: EffectClass) -> Seq<char> {
    match value {
        EffectClass::ReadOnly => "read_only"@,
        EffectClass::Idempotent => "idempotent"@,
        EffectClass::Transactional => "transactional"@,
        EffectClass::NonIdempotent => "non_idempotent"@,
        EffectClass::Unknown => "unknown"@,
    }
}

/// The stored name of a class of effects.
pub fn effect_class_name(value: EffectClass) -> (name: &'static str)
    ensures
        name@ == class_text(value),
{
    match value {
        EffectClass::ReadOnly => "read_only",
        EffectClass::Idempotent => "idempotent",
        EffectClass::Transactional => "transactional",
        EffectClass::NonIdempotent => "non_idempotent",
        EffectClass::Unknown => "unknown",
    }
}

/// Reads the stored name of a class of effects; any other text is corruption.
pub fn parse_effect_class(value: &str) -> (result: Result<EffectClass, StoreError>)
    ensures
        match result {
            Ok(found) => class_text(found) == value@,
            Err(error) => error == StoreError::Corrupt && forall|other: EffectClass|
                #[trigger] class_text(other) != value@,
        },
{
    if same_text(value, "read_only") {
        Ok(EffectClass::ReadOnly)
    } else if same_text(value, "idempotent") {
        Ok(EffectClass::Idempotent)
    } else if same_text(value, "transactional") {
        Ok(EffectClass::Transactional)
    } else if same_text(value, "non_idempotent") {
        Ok(EffectClass::NonIdempotent)
    } else if same_text(value, "unknown") {
        Ok(EffectClass::Unknown)
    } else {
        Err(StoreError::Corrupt)
    }
}

/// A stored name stands for one value only, so a name that was written is read back as the
/// value it was written for.
pub proof fn effect_class_names_are_distinct(left: EffectClass, right: EffectClass)
    requires
        class_text(left) == class_text(right),
    ensures
        left == right,
{
    reveal_strlit("read_only");
    reveal_strlit("idempotent");
    reveal_strlit("transactional");
    reveal_strlit("non_idempotent");
    reveal_strlit("unknown");
    assert(text_mark(class_text(left)) == text_mark(class_text(right)));
}

/// Where an effect stands.
#[derive(Clone, Copy, PartialEq, Eq, Debug, Structural)]
pub enum EffectPhase {
    Reserved,
    Started,
    Uncertain,
    Completed,
    Failed,
    RetryAuthorized,
}

/// The stored name of a phase.
pub open spec fn phase_text(value: EffectPhase) -> Seq<char> {
    match value {
        EffectPhase::Reserved => "reserved"@,
        EffectPhase::Started => "started"@,
        EffectPhase::Uncertain => "uncertain"@,
        EffectPhase::Completed => "completed"@,
        EffectPhase::Failed => "failed"@,
        EffectPhase::RetryAuthorized => "retry_authorized"@,
    }
}

/// The stored name of a phase.
pub fn effect_phase_name(value: EffectPhase) -> (name: &'static str)
    ensures
        name@ == phase_text(value),
{
    match value {
        EffectPhase::Reserved => "reserved",
        EffectPhase::Started => "started",
        EffectPhase::Uncertain => "uncertain",
        EffectPhase::Completed => "completed",
        EffectPhase::Failed => "failed",
        EffectPhase::RetryAuthorized => "retry_authorized",
    }
}

/// Reads the stored name of a phase; any other text is corruption.
pub fn parse_effect_phase(value: &str) -> (result: Result<EffectPhase, StoreError>)
    ensures
        match result {
            Ok(found) => phase_text(found) == value@,
            Err(error) => error == StoreError::Corrupt && forall|other: EffectPhase|
                #[trigger] phase_text(other) != value@,
        },
{
    if same_text(value, "reserved") {
        Ok(EffectPhase::Reserved)
    } else if same_text(value, "started") {
        Ok(EffectPhase::Started)
    } else if same_text(value, "uncertain") {
        Ok(EffectPhase::Uncertain)
    } else if same_text(value, "completed") {
        Ok(EffectPhase::Completed)
    } else if same_text(value, "failed") {
        Ok(EffectPhase::Failed)
    } else if same_text(value, "retry_authorized") {
        Ok(EffectPhase::RetryAuthorized)
    } else {
        Err(StoreError::Corrupt)
    }
}

/// A stored name stands for one value only, so a name that was written is read back as the
/// value it was written for.
pub proof fn effect_phase_names_are_distinct(left: EffectPhase, right: EffectPhase)
    requires
        phase_text(left) == phase_text(right),
    ensures
        left == right,
{
    reveal_strlit("reserved");
    reveal_strlit("started");
    reveal_strlit("uncertain");
    reveal_strlit("completed");
    reveal_strlit("failed");
    reveal_strlit("retry_authorized");
    assert(text_mark(phase_text(left)) == text_mark(phase_text(right)));
}

/// How an effect of which it is not known whether it happened is settled.
#[derive(Clone, Copy, PartialEq, Eq, Debug, Structural)]
pub enum UncertaintyResolution {
    ConfirmCompleted,
    DoNotRetry,
    RetryWithEffectProof,
}

/// The stored name of a resolution.
pub open spec fn resolution_text(value: UncertaintyResolution) -> Seq<char> {
    match value {
        UncertaintyResolution::ConfirmCompleted => "confirm_completed"@,
        UncertaintyResolution::DoNotRetry => "do_not_retry"@,
        UncertaintyResolution::RetryWithEffectProof => "retry_with_effect_proof"@,
    }
}

/// The stored name of a resolution.
pub fn resolution_name(value: UncertaintyResolution) -> (name: &'static str)
    ensures
        name@ == resolution_text(value),
{
    match value {
        UncertaintyResolution::ConfirmCompleted => "confirm_completed",
        UncertaintyResolution::DoNotRetry => "do_not_retry",
        UncertaintyResolution::RetryWithEffectProof => "retry_with_effect_proof",
    }
}

/// A stored name stands for one value only, so a name that was written is read back as the
/// value it was written for.
pub proof fn resolution_names_are_distinct(
    left: UncertaintyResolution,
    right: UncertaintyResolution,
)
    requires
        resolution_text(left) == resolution_text(right),
    ensures
        left == right,
{
    reveal_strlit("confirm_completed");
    reveal_strlit("do_not_retry");
    reveal_strlit("retry_with_effect_proof");
    assert(text_mark(resolution_text(left)) == text_mark(resolution_text(right)));
}

/// Why a tool failed. A reason that the store does not look at is known by its digest.
#[derive(Clone, Copy, PartialEq, Eq, Debug, Structural)]
pub enum ToolFailureKind {
    TimedOut,
    Cancelled,
    ProviderUnavailable,
    Other(Digest),
}

/// What an effect failed with.
#[derive(Clone, Copy, PartialEq, Eq, Debug, Structural)]
pub enum EffectFailure {
    /// It is not to be tried again.
    DoNotRetry,
    /// A tool failed.
    Tool(ToolFailureKind),
    /// A reason that was reported, known by its digest.
    Reported(Digest),
}

impl EffectFailure {
    /// The text that is kept, where the store itself chose it.
    pub fn text(self) -> (text: Option<&'static str>)
        ensures
            match self {
                EffectFailure::DoNotRetry => text matches Some(text) && text@
                    == "effect.do_not_retry"@,
                EffectFailure::Tool(ToolFailureKind::TimedOut) => text matches Some(text) && text@
                    == "timedout"@,
                EffectFailure::Tool(ToolFailureKind::Cancelled) => text matches Some(text) && text@
                    == "cancelled"@,
                EffectFailure::Tool(ToolFailureKind::ProviderUnavailable) => text matches Some(
                    text,
                ) && text@ == "providerunavailable"@,
                EffectFailure::Tool(ToolFailureKind::Other(_)) | EffectFailure::Reported(_) => text
                    is None,
            },
    {
        match self {
            EffectFailure::DoNotRetry => Some("effect.do_not_retry"),
            EffectFailure::Tool(ToolFailureKind::TimedOut) => Some("timedout"),
            EffectFailure::Tool(ToolFailureKind::Cancelled) => Some("cancelled"),
            EffectFailure::Tool(ToolFailureKind::ProviderUnavailable) => Some(
                "providerunavailable",
            ),
            EffectFailure::Tool(ToolFailureKind::Other(_)) | EffectFailure::Reported(_) => None,
        }
    }
}

/// How an effect ended.
#[derive(Clone, Copy, PartialEq, Eq, Debug, Structural)]
pub enum EffectTerminal {
    /// It happened; the result is known by its digest, and is empty where there is none.
    Completed(Option<Digest>),
    Failed(EffectFailure),
}

/// What may settle an effect that became uncertain. The proofs that it takes are known by its
/// identity.
#[derive(Clone, Copy, PartialEq, Eq, Debug, Structural)]
pub struct ResolutionContract {
    pub identity: Digest,
    pub allow_do_not_retry: bool,
}

/// An entry of the journal.
#[derive(Clone, Copy, PartialEq, Eq, Debug, Structural)]
pub struct EffectEntry {
    pub request_id: RequestId,
    pub session_id: SessionId,
    pub participant_id: ParticipantId,
    pub operation_id: OperationId,
    pub caller: HostId,
    /// The capability that the effect uses, known by the digest of its name.
    pub action: Digest,
    pub semantic_digest: Digest,
    pub effect_class: EffectClass,
    pub contract: ResolutionContract,
    pub phase: EffectPhase,
    pub owner_host: HostId,
    pub owner_epoch: FencingEpoch,
    pub lease_expires_at: Timestamp,
    pub terminal: Option<EffectTerminal>,
    pub revision: Revision,
}

/// Whether a phase is final.
pub open spec fn settled(phase: EffectPhase) -> bool {
    phase == EffectPhase::Completed || phase == EffectPhase::Failed
}

impl EffectEntry {
    /// An entry says how its effect ended exactly where that ended, and in the way that it did.
    pub open spec fn sound(self) -> bool {
        match self.phase {
            EffectPhase::Completed => self.terminal matches Some(EffectTerminal::Completed(_)),
            EffectPhase::Failed => self.terminal matches Some(EffectTerminal::Failed(_)),
            _ => self.terminal is None,
        }
    }
}

/// Checks an entry that was read: one that is not sound, or whose contract is not valid, is
/// corruption.
pub fn decode_effect(entry: EffectEntry, contract_valid: bool) -> (result: Result<
    EffectEntry,
    StoreError,
>)
    ensures
        result == (if entry.sound() && contract_valid {
            Ok::<EffectEntry, StoreError>(entry)
        } else {
            Err(StoreError::Corrupt)
        }),
{
    let sound: bool = match (entry.phase, entry.terminal) {
        (EffectPhase::Completed, Some(EffectTerminal::Completed(_))) => true,
        (EffectPhase::Failed, Some(EffectTerminal::Failed(_))) => true,
        (EffectPhase::Reserved, None)
        | (EffectPhase::Started, None)
        | (EffectPhase::Uncertain, None)
        | (EffectPhase::RetryAuthorized, None) => true,
        _ => false,
    };
    if sound && contract_valid {
        Ok(entry)
    } else {
        Err(StoreError::Corrupt)
    }
}

/// Whether an entry belongs to an operation of its participant in its session.
pub open spec fn linked(
    entry: EffectEntry,
    participant: Option<ParticipantSnapshot>,
    operation: Option<OperationSnapshot>,
) -> bool {
    &&& participant matches Some(participant)
    &&& operation matches Some(operation)
    &&& participant.session_id == entry.session_id
    &&& operation.session_id == entry.session_id
    &&& operation.participant_id == entry.participant_id
}

/// Checks that an entry belongs to an operation of its participant in its session.
pub fn check_effect_linkage(
    entry: EffectEntry,
    participant: Option<ParticipantSnapshot>,
    operation: Option<OperationSnapshot>,
) -> (result: Result<(), StoreError>)
    ensures
        result == (if linked(entry, participant, operation) {
            Ok::<(), StoreError>(())
        } else {
            Err(StoreError::Corrupt)
        }),
{
    match (participant, operation) {
        (Some(participant), Some(operation)) => if participant.session_id == entry.session_id
            && operation.session_id == entry.session_id && operation.participant_id
            == entry.participant_id {
            Ok(())
        } else {
            Err(StoreError::Corrupt)
        },
        _ => Err(StoreError::Corrupt),
    }
}

/// The whole milliseconds of a lease that was asked for in nanoseconds: it must last, and not
/// longer than the limit.
pub open spec fn lease_length(nanos: u128, max_lease_millis: u64) -> Option<u64> {
    if nanos == 0 || nanos / 1_000_000 > max_lease_millis {
        None
    } else {
        Some((nanos / 1_000_000) as u64)
    }
}

/// The whole milliseconds of a lease that was asked for in nanoseconds.
pub fn lease_millis(nanos: u128, max_lease_millis: u64) -> (millis: Option<u64>)
    ensures
        millis == lease_length(nanos, max_lease_millis),
{
    if nanos == 0 || nanos / 1_000_000 > max_lease_millis as u128 {
        None
    } else {
        Some((nanos / 1_000_000) as u64)
    }
}

/// Checks a wish for an effect on its own: the length of its lease in milliseconds.
///
/// A contract that is not valid is refused before a lease that lasts not at all or too long.
pub fn admit_effect(contract_valid: bool, lease_nanos: u128, max_lease_millis: u64) -> (result:
    Result<u64, StoreError>)
    ensures
        result == (if !contract_valid {
            Err::<u64, StoreError>(StoreError::Invalid)
        } else {
            match lease_length(lease_nanos, max_lease_millis) {
                None => Err(StoreError::LeaseTooLong),
                Some(millis) => Ok(millis),
            }
        }),
{
    if !contract_valid {
        return Err(StoreError::Invalid);
    }
    match lease_millis(lease_nanos, max_lease_millis) {
        None => Err(StoreError::LeaseTooLong),
        Some(millis) => Ok(millis),
    }
}

/// A wish to make an effect.
#[derive(Clone, Copy, PartialEq, Eq, Debug, Structural)]
pub struct ReserveEffect {
    pub request_id: RequestId,
    pub caller: HostId,
    pub session_id: SessionId,
    pub participant_id: ParticipantId,
    pub operation_id: OperationId,
    pub owner_epoch: FencingEpoch,
    pub action: Digest,
    pub semantic_digest: Digest,
    pub effect_class: EffectClass,
    pub contract: ResolutionContract,
    pub lease_millis: u64,
}

/// What is written for an effect.
#[derive(Clone, Copy, PartialEq, Eq, Debug, Structural)]
pub enum EffectPlan {
    Unchanged(EffectEntry),
    Update(EffectEntry),
    Create(EffectEntry),
}

impl EffectPlan {
    /// The entry as it then stands.
    pub open spec fn entry(self) -> EffectEntry {
        match self {
            EffectPlan::Unchanged(entry)
            | EffectPlan::Update(entry)
            | EffectPlan::Create(entry) => entry,
        }
    }
}

/// Whether an entry is the one that a wish asks for.
pub open spec fn answers_effect(entry: EffectEntry, command: ReserveEffect) -> bool {
    &&& entry.session_id == command.session_id
    &&& entry.caller == command.caller
    &&& entry.action == command.action
    &&& entry.semantic_digest == command.semantic_digest
    &&& entry.effect_class == command.effect_class
    &&& entry.participant_id == command.participant_id
    &&& entry.operation_id == command.operation_id
    &&& entry.contract == command.contract
}

/// An effect that was just reserved.
pub open spec fn reserved_effect(
    command: ReserveEffect,
    lease_expires_at: Timestamp,
) -> EffectEntry {
    EffectEntry {
        request_id: command.request_id,
        session_id: command.session_id,
        participant_id: command.participant_id,
        operation_id: command.operation_id,
        caller: command.caller,
        action: command.action,
        semantic_digest: command.semantic_digest,
        effect_class: command.effect_class,
        contract: command.contract,
        phase: EffectPhase::Reserved,
        owner_host: command.caller,
        owner_epoch: command.owner_epoch,
        lease_expires_at,
        terminal: None,
        revision: Revision(1),
    }
}

/// Whether effects may be made for an operation.
pub open spec fn working(state: OperationState) -> bool {
    state == OperationState::Running || state == OperationState::Waiting
}

/// The outcome of a wish to make an effect.
///
/// The same wish finds its entry; one that was started and whose lease has ended is uncertain
/// from then on.
pub open spec fn reserve_outcome(
    command: ReserveEffect,
    participant: Option<ParticipantSnapshot>,
    operation: Option<OperationSnapshot>,
    existing: Option<EffectEntry>,
    now: Timestamp,
) -> Result<EffectPlan, StoreError> {
    match (participant, operation) {
        (None, _) => Err(
            StoreError::ParticipantNotFound { participant_id: command.participant_id },
        ),
        (_, None) => Err(StoreError::OperationNotFound { operation_id: command.operation_id }),
        (Some(participant), Some(operation)) => if participant.session_id != command.session_id
            || operation.session_id != command.session_id || operation.participant_id
            != command.participant_id || !working(operation.state) {
            Err(StoreError::Invalid)
        } else {
            match existing {
                Some(entry) => if !answers_effect(entry, command) {
                    Err(StoreError::RequestConflict { request_id: command.request_id })
                } else if entry.phase == EffectPhase::Started && !now.spec_before(
                    entry.lease_expires_at,
                ) {
                    match entry.revision.spec_next() {
                        None => Err(StoreError::Corrupt),
                        Some(revision) => Ok(
                            EffectPlan::Update(
                                EffectEntry { phase: EffectPhase::Uncertain, revision, ..entry },
                            ),
                        ),
                    }
                } else {
                    Ok(EffectPlan::Unchanged(entry))
                },
                None => match lease_end(now, command.lease_millis) {
                    Err(error) => Err(error),
                    Ok(expires_at) => Ok(EffectPlan::Create(reserved_effect(command, expires_at))),
                },
            }
        },
    }
}

/// Decides a wish to make an effect, at the time floor of its session.
pub fn reserve_effect(
    command: ReserveEffect,
    participant: Option<ParticipantSnapshot>,
    operation: Option<OperationSnapshot>,
    existing: Option<EffectEntry>,
    now: Timestamp,
) -> (result: Result<EffectPlan, StoreError>)
    requires
        now.wf(),
    ensures
        result == reserve_outcome(command, participant, operation, existing, now),
{
    let participant: ParticipantSnapshot = match participant {
        Some(participant) => participant,
        None => {
            return Err(StoreError::ParticipantNotFound { participant_id: command.participant_id });
        },
    };
    let operation: OperationSnapshot = match operation {
        Some(operation) => operation,
        None => {
            return Err(StoreError::OperationNotFound { operation_id: command.operation_id });
        },
    };
    if participant.session_id != command.session_id || operation.session_id != command.session_id
        || operation.participant_id != command.participant_id || !(operation.state
        == OperationState::Running || operation.state == OperationState::Waiting) {
        return Err(StoreError::Invalid);
    }
    match existing {
        Some(entry) => {
            if entry.session_id != command.session_id || entry.caller != command.caller
                || entry.action != command.action || entry.semantic_digest
                != command.semantic_digest || entry.effect_class != command.effect_class
                || entry.participant_id != command.participant_id || entry.operation_id
                != command.operation_id || entry.contract != command.contract {
                return Err(StoreError::RequestConflict { request_id: command.request_id });
            }
            if entry.phase == EffectPhase::Started && !now.before(entry.lease_expires_at) {
                match entry.revision.next() {
                    None => Err(StoreError::Corrupt),
                    Some(revision) => Ok(
                        EffectPlan::Update(
                            EffectEntry { phase: EffectPhase::Uncertain, revision, ..entry },
                        ),
                    ),
                }
            } else {
                Ok(EffectPlan::Unchanged(entry))
            }
        },
        None => match effect_expiry(now, command.lease_millis) {
            Err(error) => Err(error),
            Ok(lease_expires_at) => Ok(
                EffectPlan::Create(
                    EffectEntry {
                        request_id: command.request_id,
                        session_id: command.session_id,
                        participant_id: command.participant_id,
                        operation_id: command.operation_id,
                        caller: command.caller,
                        action: command.action,
                        semantic_digest: command.semantic_digest,
                        effect_class: command.effect_class,
                        contract: command.contract,
                        phase: EffectPhase::Reserved,
                        owner_host: command.caller,
                        owner_epoch: command.owner_epoch,
                        lease_expires_at,
                        terminal: None,
                        revision: Revision::initial(),
                    },
                ),
            ),
        },
    }
}

/// What is reported of an effect that was started.
#[derive(Clone, Copy, PartialEq, Eq, Debug, Structural)]
pub enum EffectResolution {
    Uncertain,
    Completed(Digest),
    Failed(Digest),
}

/// A move of an effect: its start, where nothing is reported.
#[derive(Clone, Copy, PartialEq, Eq, Debug, Structural)]
pub struct EffectTransition {
    pub caller: HostId,
    pub owner_epoch: FencingEpoch,
    pub expected_revision: Revision,
    pub resolution: Option<EffectResolution>,
}

/// Where a move takes an effect, and how it then ended; nothing where the move is not open.
///
/// An effect is started only within its lease, and reported only after it was started.
pub open spec fn effect_moved(
    entry: EffectEntry,
    resolution: Option<EffectResolution>,
    now: Timestamp,
) -> Option<(EffectPhase, Option<EffectTerminal>)> {
    match resolution {
        None => if (entry.phase == EffectPhase::Reserved || entry.phase
            == EffectPhase::RetryAuthorized) && now.spec_before(entry.lease_expires_at) {
            Some((EffectPhase::Started, entry.terminal))
        } else {
            None
        },
        Some(resolution) => if entry.phase != EffectPhase::Started {
            None
        } else {
            match resolution {
                EffectResolution::Uncertain => Some((EffectPhase::Uncertain, entry.terminal)),
                EffectResolution::Completed(value) => Some(
                    (EffectPhase::Completed, Some(EffectTerminal::Completed(Some(value)))),
                ),
                EffectResolution::Failed(value) => Some(
                    (
                        EffectPhase::Failed,
                        Some(EffectTerminal::Failed(EffectFailure::Reported(value))),
                    ),
                ),
            }
        },
    }
}

/// The outcome of a move of an effect. Only its owner moves it, and only from the revision that
/// was seen.
pub open spec fn effect_transition_outcome(
    entry: Option<EffectEntry>,
    command: EffectTransition,
    now: Timestamp,
) -> Result<EffectEntry, StoreError> {
    match entry {
        None => Err(StoreError::Invalid),
        Some(entry) => if entry.owner_host != command.caller || entry.owner_epoch
            != command.owner_epoch || entry.revision != command.expected_revision {
            Err(StoreError::Invalid)
        } else {
            match effect_moved(entry, command.resolution, now) {
                None => Err(StoreError::Invalid),
                Some((phase, terminal)) => match entry.revision.spec_next() {
                    None => Err(StoreError::Corrupt),
                    Some(revision) => Ok(EffectEntry { phase, terminal, revision, ..entry }),
                },
            }
        },
    }
}

/// Decides a move of an effect, at the time floor of its session.
pub fn transition_effect(
    entry: Option<EffectEntry>,
    command: EffectTransition,
    now: Timestamp,
) -> (result: Result<EffectEntry, StoreError>)
    ensures
        result == effect_transition_outcome(entry, command, now),
{
    let entry: EffectEntry = match entry {
        Some(entry) => entry,
        None => {
            return Err(StoreError::Invalid);
        },
    };
    if entry.owner_host != command.caller || entry.owner_epoch != command.owner_epoch
        || entry.revision != command.expected_revision {
        return Err(StoreError::Invalid);
    }
    let mut after: EffectEntry = entry;
    match command.resolution {
        None => {
            if !(entry.phase == EffectPhase::Reserved || entry.phase
                == EffectPhase::RetryAuthorized) || !now.before(entry.lease_expires_at) {
                return Err(StoreError::Invalid);
            }
            after.phase = EffectPhase::Started;
        },
        Some(resolution) => {
            if entry.phase != EffectPhase::Started {
                return Err(StoreError::Invalid);
            }
            match resolution {
                EffectResolution::Uncertain => {
                    after.phase = EffectPhase::Uncertain;
                },
                EffectResolution::Completed(value) => {
                    after.phase = EffectPhase::Completed;
                    after.terminal = Some(EffectTerminal::Completed(Some(value)));
                },
                EffectResolution::Failed(value) => {
                    after.phase = EffectPhase::Failed;
                    after.terminal = Some(EffectTerminal::Failed(EffectFailure::Reported(value)));
                },
            }
        },
    }
    match entry.revision.next() {
        None => Err(StoreError::Corrupt),
        Some(revision) => {
            after.revision = revision;
            Ok(after)
        },
    }
}

/// A wish of another owner to take over an effect.
#[derive(Clone, Copy, PartialEq, Eq, Debug, Structural)]
pub struct TakeoverEffect {
    pub caller: HostId,
    pub owner_epoch: FencingEpoch,
    pub expected_revision: Revision,
    pub lease_millis: u64,
}

/// The outcome of a wish to take over an effect whose lease has ended.
///
/// One that was not started gets a new owner and lease; of one that was, it is not known whether
/// it happened.
pub open spec fn takeover_outcome(
    entry: Option<EffectEntry>,
    command: TakeoverEffect,
    now: Timestamp,
) -> Result<EffectEntry, StoreError> {
    match entry {
        None => Err(StoreError::Invalid),
        Some(entry) => if now.spec_before(entry.lease_expires_at) || entry.revision
            != command.expected_revision {
            Err(StoreError::Invalid)
        } else if entry.phase == EffectPhase::Reserved {
            match (lease_end(now, command.lease_millis), entry.revision.spec_next()) {
                (Err(error), _) => Err(error),
                (_, None) => Err(StoreError::Corrupt),
                (Ok(lease_expires_at), Some(revision)) => Ok(
                    EffectEntry {
                        owner_host: command.caller,
                        owner_epoch: command.owner_epoch,
                        lease_expires_at,
                        revision,
                        ..entry
                    },
                ),
            }
        } else if entry.phase == EffectPhase::Started {
            match entry.revision.spec_next() {
                None => Err(StoreError::Corrupt),
                Some(revision) => Ok(
                    EffectEntry { phase: EffectPhase::Uncertain, revision, ..entry },
                ),
            }
        } else {
            Err(StoreError::Invalid)
        },
    }
}

/// Decides a wish to take over an effect, at the time floor of its session.
pub fn takeover_effect(
    entry: Option<EffectEntry>,
    command: TakeoverEffect,
    now: Timestamp,
) -> (result: Result<EffectEntry, StoreError>)
    requires
        now.wf(),
    ensures
        result == takeover_outcome(entry, command, now),
{
    let entry: EffectEntry = match entry {
        Some(entry) => entry,
        None => {
            return Err(StoreError::Invalid);
        },
    };
    if now.before(entry.lease_expires_at) || entry.revision != command.expected_revision {
        return Err(StoreError::Invalid);
    }
    let mut after: EffectEntry = entry;
    if entry.phase == EffectPhase::Reserved {
        match effect_expiry(now, command.lease_millis) {
            Err(error) => {
                return Err(error);
            },
            Ok(lease_expires_at) => {
                after.owner_host = command.caller;
                after.owner_epoch = command.owner_epoch;
                after.lease_expires_at = lease_expires_at;
            },
        }
    } else if entry.phase == EffectPhase::Started {
        after.phase = EffectPhase::Uncertain;
    } else {
        return Err(StoreError::Invalid);
    }
    match entry.revision.next() {
        None => Err(StoreError::Corrupt),
        Some(revision) => {
            after.revision = revision;
            Ok(after)
        },
    }
}

/// How long an effect may be tried again after that was authorized, in milliseconds.
pub const RETRY_LEASE_MILLIS: u64 = 10_000;

/// A wish to settle an effect that became uncertain.
#[derive(Clone, Copy, PartialEq, Eq, Debug, Structural)]
pub struct ResolveAuthorizedEffect {
    pub caller: HostId,
    pub session_id: SessionId,
    pub participant_id: ParticipantId,
    pub operation_id: OperationId,
    pub owner_epoch: FencingEpoch,
    pub expected_effect_revision: Revision,
    pub resolution: UncertaintyResolution,
}

/// What was found for a wish to settle an effect.
#[derive(Clone, Copy, PartialEq, Eq, Debug, Structural)]
pub struct ResolutionFacts {
    /// The effect and the operation that the wish names, where they are there.
    pub effect: Option<EffectEntry>,
    pub operation: Option<OperationSnapshot>,
    /// The grant that the wish names, where it is there.
    pub grant: Option<GrantSnapshot>,
    /// Whether the policy of the participant, with the grant, allows the wish.
    pub authorized: bool,
    /// Whether the contract of the effect takes the kind of proof that the wish brings.
    pub proof_allowed: bool,
}

/// The authority that settling an effect of an operation needs.
pub fn resolution_authority(operation_id: OperationId) -> (requested: ScopedCapability)
    ensures
        requested == (ScopedCapability {
            capability: StoreCapability::ResolveUncertainty,
            scope: ResourceScope::Operation(operation_id),
        }),
{
    ScopedCapability {
        capability: StoreCapability::ResolveUncertainty,
        scope: ResourceScope::Operation(operation_id),
    }
}

/// Whether an effect is one that a wish may settle: it is uncertain, was seen as it is, and
/// belongs to an operation of the participant that is uncertain too.
pub open spec fn resolvable(
    command: ResolveAuthorizedEffect,
    effect: EffectEntry,
    operation: OperationSnapshot,
) -> bool {
    &&& effect.phase == EffectPhase::Uncertain
    &&& effect.revision == command.expected_effect_revision
    &&& effect.session_id == command.session_id
    &&& effect.participant_id == command.participant_id
    &&& effect.operation_id == operation.operation_id
    &&& operation.session_id == command.session_id
    &&& operation.participant_id == command.participant_id
    &&& operation.state == OperationState::Uncertain
}

/// Whether the contract of an effect allows a resolution.
pub open spec fn contract_allows(
    contract: ResolutionContract,
    resolution: UncertaintyResolution,
    proof_allowed: bool,
) -> bool {
    match resolution {
        UncertaintyResolution::DoNotRetry => contract.allow_do_not_retry,
        _ => proof_allowed,
    }
}

/// An effect that was settled, and what is written of the grant.
#[derive(Clone, Copy, PartialEq, Eq, Debug, Structural)]
pub struct ResolvedEffect {
    pub effect: EffectEntry,
    pub grant: Option<GrantSnapshot>,
}

/// The outcome of a wish to settle an effect.
pub open spec fn resolve_outcome(
    command: ResolveAuthorizedEffect,
    facts: ResolutionFacts,
    now: Timestamp,
) -> Result<ResolvedEffect, StoreError> {
    match (facts.effect, facts.operation) {
        (Some(effect), Some(operation)) => if !resolvable(command, effect, operation)
            || facts.grant is None || !facts.authorized || !grant_usable(facts.grant)
            || !contract_allows(effect.contract, command.resolution, facts.proof_allowed) {
            Err(StoreError::Invalid)
        } else {
            let retry = command.resolution == UncertaintyResolution::RetryWithEffectProof;
            match (lease_end(now, RETRY_LEASE_MILLIS), effect.revision.spec_next()) {
                (Err(error), _) if retry => Err(error),
                (_, None) => Err(StoreError::Corrupt),
                (lease, Some(revision)) => {
                    let after = match command.resolution {
                        UncertaintyResolution::ConfirmCompleted => EffectEntry {
                            phase: EffectPhase::Completed,
                            terminal: Some(EffectTerminal::Completed(None)),
                            revision,
                            ..effect
                        },
                        UncertaintyResolution::DoNotRetry => EffectEntry {
                            phase: EffectPhase::Failed,
                            terminal: Some(EffectTerminal::Failed(EffectFailure::DoNotRetry)),
                            revision,
                            ..effect
                        },
                        UncertaintyResolution::RetryWithEffectProof => EffectEntry {
                            phase: EffectPhase::RetryAuthorized,
                            terminal: None,
                            owner_host: command.caller,
                            owner_epoch: command.owner_epoch,
                            lease_expires_at: lease->Ok_0,
                            revision,
                            ..effect
                        },
                    };
                    Ok(ResolvedEffect { effect: after, grant: spent(facts.grant, now) })
                },
            }
        },
        _ => Err(StoreError::Invalid),
    }
}

/// Decides a wish to settle an effect, at the time floor of its session.
pub fn resolve_authorized_effect(
    command: ResolveAuthorizedEffect,
    facts: ResolutionFacts,
    now: Timestamp,
) -> (result: Result<ResolvedEffect, StoreError>)
    requires
        now.wf(),
    ensures
        result == resolve_outcome(command, facts, now),
{
    let (effect, operation): (EffectEntry, OperationSnapshot) = match (
        facts.effect,
        facts.operation,
    ) {
        (Some(effect), Some(operation)) => (effect, operation),
        _ => {
            return Err(StoreError::Invalid);
        },
    };
    if effect.phase != EffectPhase::Uncertain || effect.revision
        != command.expected_effect_revision || effect.session_id != command.session_id
        || effect.participant_id != command.participant_id || effect.operation_id
        != operation.operation_id || operation.session_id != command.session_id
        || operation.participant_id != command.participant_id || operation.state
        != OperationState::Uncertain {
        return Err(StoreError::Invalid);
    }
    if facts.grant.is_none() || !facts.authorized || !is_grant_usable(facts.grant) {
        return Err(StoreError::Invalid);
    }
    let allowed: bool = match command.resolution {
        UncertaintyResolution::DoNotRetry => effect.contract.allow_do_not_retry,
        _ => facts.proof_allowed,
    };
    if !allowed {
        return Err(StoreError::Invalid);
    }
    let mut after: EffectEntry = effect;
    match command.resolution {
        UncertaintyResolution::ConfirmCompleted => {
            after.phase = EffectPhase::Completed;
            after.terminal = Some(EffectTerminal::Completed(None));
        },
        UncertaintyResolution::DoNotRetry => {
            after.phase = EffectPhase::Failed;
            after.terminal = Some(EffectTerminal::Failed(EffectFailure::DoNotRetry));
        },
        UncertaintyResolution::RetryWithEffectProof => {
            match effect_expiry(now, RETRY_LEASE_MILLIS) {
                Err(error) => {
                    return Err(error);
                },
                Ok(lease_expires_at) => {
                    after.phase = EffectPhase::RetryAuthorized;
                    after.terminal = None;
                    after.owner_host = command.caller;
                    after.owner_epoch = command.owner_epoch;
                    after.lease_expires_at = lease_expires_at;
                },
            }
        },
    }
    match effect.revision.next() {
        None => Err(StoreError::Corrupt),
        Some(revision) => {
            after.revision = revision;
            Ok(ResolvedEffect { effect: after, grant: spend_grant(facts.grant, now) })
        },
    }
}

/// The phase that a resolution leads to.
pub open spec fn resolved_phase(resolution: UncertaintyResolution) -> EffectPhase {
    match resolution {
        UncertaintyResolution::ConfirmCompleted => EffectPhase::Completed,
        UncertaintyResolution::DoNotRetry => EffectPhase::Failed,
        UncertaintyResolution::RetryWithEffectProof => EffectPhase::RetryAuthorized,
    }
}

/// Whether a recorded resolution still stands: it answers the wish, and the effect is as it was
/// left.
pub open spec fn resolution_stands(
    command: ResolveAuthorizedEffect,
    effect_request_id: RequestId,
    recorded: EffectEntry,
    recorded_operation: OperationSnapshot,
    current: Option<EffectEntry>,
) -> bool {
    &&& current == Some(recorded)
    &&& recorded.request_id == effect_request_id
    &&& recorded.session_id == command.session_id
    &&& recorded.participant_id == command.participant_id
    &&& recorded.operation_id == command.operation_id
    &&& recorded_operation.operation_id == command.operation_id
    &&& recorded_operation.session_id == command.session_id
    &&& recorded_operation.participant_id == command.participant_id
    &&& recorded.phase == resolved_phase(command.resolution)
}

/// Checks that a recorded resolution still stands.
pub fn validate_authorized_effect_replay(
    command: ResolveAuthorizedEffect,
    effect_request_id: RequestId,
    recorded: EffectEntry,
    recorded_operation: OperationSnapshot,
    current: Option<EffectEntry>,
) -> (result: Result<(), StoreError>)
    ensures
        result == (if resolution_stands(
            command,
            effect_request_id,
            recorded,
            recorded_operation,
            current,
        ) {
            Ok::<(), StoreError>(())
        } else {
            Err(StoreError::Corrupt)
        }),
{
    let expected: EffectPhase = match command.resolution {
        UncertaintyResolution::ConfirmCompleted => EffectPhase::Completed,
        UncertaintyResolution::DoNotRetry => EffectPhase::Failed,
        UncertaintyResolution::RetryWithEffectProof => EffectPhase::RetryAuthorized,
    };
    if current == Some(recorded) && recorded.request_id == effect_request_id
        && recorded.session_id == command.session_id && recorded.participant_id
        == command.participant_id && recorded.operation_id == command.operation_id
        && recorded_operation.operation_id == command.operation_id
        && recorded_operation.session_id == command.session_id
        && recorded_operation.participant_id == command.participant_id && recorded.phase
        == expected {
        Ok(())
    } else {
        Err(StoreError::Corrupt)
    }
}

/// Entries stay sound, whatever is done to them, and every change moves the revision on by one.
pub proof fn effects_stay_sound(
    entry: EffectEntry,
    reserve: ReserveEffect,
    participant: Option<ParticipantSnapshot>,
    operation: Option<OperationSnapshot>,
    existing: Option<EffectEntry>,
    transition: EffectTransition,
    takeover: TakeoverEffect,
    resolve: ResolveAuthorizedEffect,
    facts: ResolutionFacts,
    now: Timestamp,
)
    requires
        entry.sound(),
        existing matches Some(existing) ==> existing == entry,
        facts.effect == Some(entry),
    ensures
        reserve_outcome(reserve, participant, operation, existing, now) matches Ok(plan)
            ==> plan.entry().sound(),
        effect_transition_outcome(Some(entry), transition, now) matches Ok(after) ==> after.sound()
            && after.revision.0 == entry.revision.0 + 1,
        takeover_outcome(Some(entry), takeover, now) matches Ok(after) ==> after.sound()
            && after.revision.0 == entry.revision.0 + 1,
        resolve_outcome(resolve, facts, now) matches Ok(after) ==> after.effect.sound()
            && after.effect.revision.0 == entry.revision.0 + 1,
{
}

/// An effect that completed or failed is never moved, taken over or settled again, and asking
/// for it again finds it as it is.
pub proof fn settled_effects_stay_settled(
    entry: EffectEntry,
    reserve: ReserveEffect,
    participant: Option<ParticipantSnapshot>,
    operation: Option<OperationSnapshot>,
    transition: EffectTransition,
    takeover: TakeoverEffect,
    resolve: ResolveAuthorizedEffect,
    facts: ResolutionFacts,
    now: Timestamp,
)
    requires
        settled(entry.phase),
        facts.effect == Some(entry),
    ensures
        reserve_outcome(reserve, participant, operation, Some(entry), now) matches Ok(plan)
            ==> plan == EffectPlan::Unchanged(entry),
        effect_transition_outcome(Some(entry), transition, now) is Err,
        takeover_outcome(Some(entry), takeover, now) is Err,
        resolve_outcome(resolve, facts, now) is Err,
{
}

/// An effect that was started is not started again unless that was authorized: no move, takeover
/// or repeated wish leads from a started or uncertain effect back to one that can be started, and
/// only an authorized resolution that brings a proof does.
pub proof fn started_effects_are_not_repeated(
    entry: EffectEntry,
    reserve: ReserveEffect,
    participant: Option<ParticipantSnapshot>,
    operation: Option<OperationSnapshot>,
    transition: EffectTransition,
    takeover: TakeoverEffect,
    resolve: ResolveAuthorizedEffect,
    facts: ResolutionFacts,
    now: Timestamp,
)
    requires
        entry.phase == EffectPhase::Started || entry.phase == EffectPhase::Uncertain,
        facts.effect == Some(entry),
    ensures
        reserve_outcome(reserve, participant, operation, Some(entry), now) matches Ok(plan)
            ==> plan.entry().phase == EffectPhase::Started || plan.entry().phase
            == EffectPhase::Uncertain,
        effect_transition_outcome(Some(entry), transition, now) matches Ok(after) ==> after.phase
            == EffectPhase::Uncertain || settled(after.phase),
        takeover_outcome(Some(entry), takeover, now) matches Ok(after) ==> after.phase
            == EffectPhase::Uncertain,
        resolve_outcome(resolve, facts, now) matches Ok(after) ==> settled(after.effect.phase) || (
        after.effect.phase == EffectPhase::RetryAuthorized && entry.phase == EffectPhase::Uncertain
            && facts.authorized && facts.proof_allowed),
{
}

/// Two owners never both start an effect: after a takeover the earlier owner can no longer move
/// it, unless it is the one that took it over.
pub proof fn takeovers_shut_out_the_earlier_owner(
    entry: EffectEntry,
    takeover: TakeoverEffect,
    transition: EffectTransition,
    now: Timestamp,
    later: Timestamp,
)
    requires
        entry.phase == EffectPhase::Reserved,
        transition.caller == entry.owner_host,
        transition.owner_epoch == entry.owner_epoch,
        takeover.caller != entry.owner_host || takeover.owner_epoch != entry.owner_epoch,
    ensures
        takeover_outcome(Some(entry), takeover, now) matches Ok(after)
            ==> effect_transition_outcome(Some(after), transition, later) is Err,
{
}

/// A resolution that was carried out still stands when it is asked for again.
pub proof fn resolutions_replay(
    command: ResolveAuthorizedEffect,
    facts: ResolutionFacts,
    now: Timestamp,
)
    requires
        facts.operation matches Some(operation) && operation.operation_id == command.operation_id,
    ensures
        resolve_outcome(command, facts, now) matches Ok(after) ==> resolution_stands(
            command,
            after.effect.request_id,
            after.effect,
            facts.operation->Some_0,
            Some(after.effect),
        ),
{
}

} // verus!
