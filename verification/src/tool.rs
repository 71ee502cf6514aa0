//! Tools: providers that connect, registrations, and invocations with the effects they make.

use crate::authority::{grant_usable, is_grant_usable, spend_grant, spent, GrantSnapshot};
use crate::effect::{
    lease_length, lease_millis, reserved_effect, resolve_authorized_effect, resolve_outcome,
    working, EffectClass, EffectEntry, EffectFailure, EffectPhase, EffectTerminal, ReserveEffect,
    ResolutionContract, ResolutionFacts, ResolveAuthorizedEffect, ResolvedEffect, ToolFailureKind,
    UncertaintyResolution,
};
use crate::error::StoreError;
use crate::ids::{
    Digest, FencingEpoch, GrantId, HostId, OperationId, ParticipantId, RequestId, Revision,
    SessionId, ToolCancellationId, ToolConnectionId, ToolDispatchId, ToolInvocationId,
    ToolProviderId, ToolRegistrationId,
};
use crate::operation::{OperationSnapshot, OperationState, ParticipantSnapshot};
use crate::sorted::{
    covers_prefix, distinct, increasing, insert_distinct, is_prefix, sorted_distinct,
};
use crate::time::{effect_expiry, lease_end, Timestamp};
use vstd::prelude::*;

verus! {

/// A tool. Its name with its version, and its whole definition, are known by their digests.
#[derive(Clone, Copy, PartialEq, Eq, Debug, Structural)]
pub struct ToolDefinition {
    pub tool: Digest,
    pub identity: Digest,
    /// The capability that using it needs, known by the digest of its name.
    pub required_authority: Digest,
    pub effect_class: EffectClass,
    /// Whether an invocation can be asked to stop.
    pub cancellable: bool,
    pub timeout_millis: u64,
}

/// A tool that a session may use. The consumer is known by the digest of its key.
#[derive(Clone, Copy, PartialEq, Eq, Debug, Structural)]
pub struct ToolRegistration {
    pub registration_id: ToolRegistrationId,
    pub session_id: SessionId,
    pub consumer: Digest,
    pub definition: ToolDefinition,
    pub revision: Revision,
    pub registered_at: Timestamp,
}

/// What a tool is asked for. The input is known by its digest.
#[derive(Clone, Copy, PartialEq, Eq, Debug, Structural)]
pub struct ToolInvocation {
    pub invocation_id: ToolInvocationId,
    pub request_id: RequestId,
    pub session_id: SessionId,
    pub participant_id: ParticipantId,
    pub operation_id: OperationId,
    pub tool: Digest,
    pub grant_id: Option<GrantId>,
    pub approval_effect_id: Option<RequestId>,
    pub input: Digest,
}

/// Where an invocation stands.
#[derive(Clone, Copy, PartialEq, Eq, Debug, Structural)]
pub enum ToolPhase {
    Reserved,
    Started,
    Uncertain,
    Completed,
    Failed,
}

/// How an invocation ended. Results and failures are known by their digests, each under the name
/// of its use.
#[derive(Clone, Copy, PartialEq, Eq, Debug, Structural)]
pub enum ToolTerminal {
    Completed(Digest),
    Failed(ToolFailureKind, Digest),
}

/// How an invocation reaches its provider.
#[derive(Clone, Copy, PartialEq, Eq, Debug, Structural)]
pub struct ToolDispatch {
    pub dispatch_id: ToolDispatchId,
    pub provider_id: ToolProviderId,
    pub server_sequence: u64,
    pub deadline: Timestamp,
    pub connection_id: Option<ToolConnectionId>,
    pub connection_generation: Option<u64>,
    pub cancellation_id: Option<ToolCancellationId>,
    pub cancellation_server_sequence: Option<u64>,
    pub terminal_digest: Option<Digest>,
}

/// An invocation as it is kept.
#[derive(Clone, Copy, PartialEq, Eq, Debug, Structural)]
pub struct ToolInvocationSnapshot {
    pub registration_id: ToolRegistrationId,
    pub definition: ToolDefinition,
    pub invocation: ToolInvocation,
    pub phase: ToolPhase,
    pub terminal: Option<ToolTerminal>,
    pub revision: Revision,
    pub dispatch: ToolDispatch,
}

/// The digest of how an invocation ended.
pub open spec fn terminal_digest(terminal: Option<ToolTerminal>) -> Option<Digest> {
    match terminal {
        Some(ToolTerminal::Completed(digest)) => Some(digest),
        Some(ToolTerminal::Failed(_, digest)) => Some(digest),
        None => None,
    }
}

/// Whether an invocation is over.
pub open spec fn over(phase: ToolPhase) -> bool {
    phase == ToolPhase::Completed || phase == ToolPhase::Failed
}

impl ToolInvocationSnapshot {
    /// An invocation says how it ended exactly where it ended, and in the way that it did; and a
    /// request to cancel it has a place among what the provider is told.
    pub open spec fn sound(self) -> bool {
        &&& match self.phase {
            ToolPhase::Completed => self.terminal matches Some(ToolTerminal::Completed(_)),
            ToolPhase::Failed => self.terminal matches Some(ToolTerminal::Failed(..)),
            _ => self.terminal is None,
        }
        &&& self.dispatch.terminal_digest == terminal_digest(self.terminal)
        &&& (self.dispatch.cancellation_id is Some
            <==> self.dispatch.cancellation_server_sequence is Some)
    }
}

/// Whether the phase of an invocation agrees with that of its effect.
pub open spec fn phases_agree(tool: ToolPhase, effect: EffectPhase) -> bool {
    match tool {
        ToolPhase::Reserved => effect == EffectPhase::Reserved || effect
            == EffectPhase::RetryAuthorized,
        ToolPhase::Started => effect == EffectPhase::Started,
        ToolPhase::Uncertain => effect == EffectPhase::Uncertain,
        ToolPhase::Completed => effect == EffectPhase::Completed,
        ToolPhase::Failed => effect == EffectPhase::Completed || effect == EffectPhase::Failed,
    }
}

fn do_phases_agree(tool: ToolPhase, effect: EffectPhase) -> (result: bool)
    ensures
        result == phases_agree(tool, effect),
{
    match (tool, effect) {
        (ToolPhase::Reserved, EffectPhase::Reserved)
        | (ToolPhase::Reserved, EffectPhase::RetryAuthorized)
        | (ToolPhase::Started, EffectPhase::Started)
        | (ToolPhase::Uncertain, EffectPhase::Uncertain)
        | (ToolPhase::Completed, EffectPhase::Completed)
        | (ToolPhase::Failed, EffectPhase::Completed)
        | (ToolPhase::Failed, EffectPhase::Failed) => true,
        _ => false,
    }
}

// Registrations.

/// The stored columns beside a registration.
#[derive(Clone, Copy, PartialEq, Eq, Debug, Structural)]
pub struct RegistrationColumns {
    pub session_id: SessionId,
    pub registration_id: ToolRegistrationId,
    pub tool: Digest,
    pub consumer: Digest,
}

/// Whether a registration that was read is the sought one, and agrees with its columns and with
/// the consumer of its session.
pub open spec fn registration_agrees(
    value: ToolRegistration,
    columns: RegistrationColumns,
    session_id: SessionId,
    tool: Digest,
    session_consumer: Option<Digest>,
) -> bool {
    &&& value.session_id == session_id
    &&& session_consumer == Some(value.consumer)
    &&& value.definition.tool == tool
    &&& columns == (RegistrationColumns {
        session_id: value.session_id,
        registration_id: value.registration_id,
        tool: value.definition.tool,
        consumer: value.consumer,
    })
}

/// Checks a registration that was read.
///
/// `session_consumer` is the consumer of the session, where that is there.
pub fn decode_registration(
    value: ToolRegistration,
    columns: RegistrationColumns,
    session_id: SessionId,
    tool: Digest,
    session_consumer: Option<Digest>,
) -> (result: Result<ToolRegistration, StoreError>)
    ensures
        result == (if registration_agrees(value, columns, session_id, tool, session_consumer) {
            Ok::<ToolRegistration, StoreError>(value)
        } else {
            Err(StoreError::Corrupt)
        }),
{
    if value.session_id == session_id && session_consumer == Some(value.consumer)
        && value.definition.tool == tool && columns.session_id == value.session_id
        && columns.registration_id == value.registration_id && columns.tool
        == value.definition.tool && columns.consumer == value.consumer {
        Ok(value)
    } else {
        Err(StoreError::Corrupt)
    }
}

/// A wish to register a tool.
#[derive(Clone, Copy, PartialEq, Eq, Debug, Structural)]
pub struct RegisterTool {
    pub request_id: RequestId,
    pub session_id: SessionId,
    pub registration_id: ToolRegistrationId,
    pub consumer: Digest,
    pub definition: ToolDefinition,
}

/// What was found for a wish to register a tool.
#[derive(Clone, Copy, PartialEq, Eq, Debug, Structural)]
pub struct RegisterToolFacts {
    pub session_consumer: Digest,
    /// The registration that has the identity, in any session.
    pub aliased: Option<ToolRegistration>,
    /// The registration of the tool in the session.
    pub existing: Option<ToolRegistration>,
    /// How many tools the session has.
    pub count: i64,
}

/// A registration that is there, or is to be written.
#[derive(Clone, Copy, PartialEq, Eq, Debug, Structural)]
pub enum RegistrationPlan {
    Unchanged(ToolRegistration),
    Create(ToolRegistration),
}

/// The outcome of a wish to register a tool.
///
/// Only for the consumer of the session; under an identity that no other tool has; a tool that
/// is there keeps its registration; and a session has room for `max_registrations`.
pub open spec fn register_outcome(
    command: RegisterTool,
    facts: RegisterToolFacts,
    max_registrations: u32,
    now: Timestamp,
) -> Result<RegistrationPlan, StoreError> {
    let conflict = StoreError::RequestConflict { request_id: command.request_id };
    if facts.session_consumer != command.consumer {
        Err(StoreError::Invalid)
    } else if facts.aliased matches Some(aliased) && (aliased.session_id != command.session_id
        || aliased.definition.tool != command.definition.tool) {
        Err(conflict)
    } else {
        match facts.existing {
            Some(existing) => if existing.consumer != command.consumer || existing.definition
                != command.definition || existing.registration_id != command.registration_id {
                Err(conflict)
            } else {
                Ok(RegistrationPlan::Unchanged(existing))
            },
            None => if facts.count >= max_registrations {
                Err(StoreError::Invalid)
            } else {
                Ok(
                    RegistrationPlan::Create(
                        ToolRegistration {
                            registration_id: command.registration_id,
                            session_id: command.session_id,
                            consumer: command.consumer,
                            definition: command.definition,
                            revision: Revision(1),
                            registered_at: now,
                        },
                    ),
                )
            },
        }
    }
}

/// Decides a wish to register a tool, at the time floor of its session.
pub fn register_tool(
    command: RegisterTool,
    facts: RegisterToolFacts,
    max_registrations: u32,
    now: Timestamp,
) -> (result: Result<RegistrationPlan, StoreError>)
    ensures
        result == register_outcome(command, facts, max_registrations, now),
{
    if facts.session_consumer != command.consumer {
        return Err(StoreError::Invalid);
    }
    match facts.aliased {
        Some(aliased) => {
            if aliased.session_id != command.session_id || aliased.definition.tool
                != command.definition.tool {
                return Err(StoreError::RequestConflict { request_id: command.request_id });
            }
        },
        None => {},
    }
    match facts.existing {
        Some(existing) => if existing.consumer != command.consumer || existing.definition
            != command.definition || existing.registration_id != command.registration_id {
            Err(StoreError::RequestConflict { request_id: command.request_id })
        } else {
            Ok(RegistrationPlan::Unchanged(existing))
        },
        None => if facts.count >= max_registrations as i64 {
            Err(StoreError::Invalid)
        } else {
            Ok(
                RegistrationPlan::Create(
                    ToolRegistration {
                        registration_id: command.registration_id,
                        session_id: command.session_id,
                        consumer: command.consumer,
                        definition: command.definition,
                        revision: Revision::initial(),
                        registered_at: now,
                    },
                ),
            )
        },
    }
}

/// Whether a recorded registration still stands and answers the wish.
pub open spec fn registration_stands(
    command: RegisterTool,
    recorded: ToolRegistration,
    current: Option<ToolRegistration>,
    session_consumer: Option<Digest>,
) -> bool {
    &&& current == Some(recorded)
    &&& recorded.session_id == command.session_id
    &&& recorded.registration_id == command.registration_id
    &&& recorded.consumer == command.consumer
    &&& session_consumer == Some(recorded.consumer)
    &&& recorded.definition == command.definition
}

/// Checks that a recorded registration still stands and answers the wish.
pub fn validate_registration_replay(
    command: RegisterTool,
    recorded: ToolRegistration,
    current: Option<ToolRegistration>,
    session_consumer: Option<Digest>,
) -> (result: Result<(), StoreError>)
    ensures
        result == (if registration_stands(command, recorded, current, session_consumer) {
            Ok::<(), StoreError>(())
        } else {
            Err(StoreError::Corrupt)
        }),
{
    if current == Some(recorded) && recorded.session_id == command.session_id
        && recorded.registration_id == command.registration_id && recorded.consumer
        == command.consumer && session_consumer == Some(recorded.consumer) && recorded.definition
        == command.definition {
        Ok(())
    } else {
        Err(StoreError::Corrupt)
    }
}

/// A registration that was written answers its own wish ever after.
pub proof fn registrations_replay(
    command: RegisterTool,
    facts: RegisterToolFacts,
    max_registrations: u32,
    now: Timestamp,
)
    ensures
        register_outcome(command, facts, max_registrations, now) matches Ok(
            RegistrationPlan::Create(written),
        ) ==> registration_stands(command, written, Some(written), Some(facts.session_consumer)),
{
}

// Providers.

/// The numbers of registration identities.
pub open spec fn numbers(ids: Seq<ToolRegistrationId>) -> Seq<u128> {
    ids.map_values(|id: ToolRegistrationId| id.0)
}

/// Whether a provider may connect with such a list of registrations: it is not empty, not too
/// long, and names none twice.
pub open spec fn acceptable_list(ids: Seq<ToolRegistrationId>, max: u32) -> bool {
    0 < ids.len() <= max && distinct(numbers(ids))
}

/// The registrations that a provider connects with, in increasing order.
pub fn order_registrations(ids: &Vec<ToolRegistrationId>, max: u32) -> (result: Result<
    Vec<ToolRegistrationId>,
    StoreError,
>)
    ensures
        match result {
            Ok(ordered) => {
                &&& acceptable_list(ids@, max)
                &&& increasing(numbers(ordered@))
                &&& ordered.len() == ids.len()
                &&& forall|n: u128| #[trigger]
                    numbers(ordered@).contains(n) <==> numbers(ids@).contains(n)
            },
            Err(error) => error == StoreError::Invalid && !acceptable_list(ids@, max),
        },
{
    if ids.len() == 0 || ids.len() > max as usize {
        return Err(StoreError::Invalid);
    }
    let mut raw: Vec<u128> = Vec::new();
    let mut index: usize = 0;
    while index < ids.len()
        invariant
            index <= ids.len(),
            raw@ =~= numbers(ids@).take(index as int),
        decreases ids.len() - index,
    {
        raw.push(ids[index].0);
        index = index + 1;
    }
    assert(raw@ =~= numbers(ids@));
    match sorted_distinct(&raw) {
        None => Err(StoreError::Invalid),
        Some(sorted) => {
            let mut ordered: Vec<ToolRegistrationId> = Vec::new();
            let mut at: usize = 0;
            while at < sorted.len()
                invariant
                    at <= sorted.len(),
                    numbers(ordered@) =~= sorted@.take(at as int),
                decreases sorted.len() - at,
            {
                let ghost before = ordered@;
                ordered.push(ToolRegistrationId(sorted[at]));
                assert(numbers(ordered@) =~= numbers(before).push(sorted@[at as int]));
                at = at + 1;
            }
            assert(numbers(ordered@) =~= sorted@);
            Ok(ordered)
        },
    }
}

/// A wish of a provider to connect. It has seen everything up to a sequence number.
#[derive(Clone, Copy, PartialEq, Eq, Debug, Structural)]
pub struct ConnectToolProvider {
    pub request_id: RequestId,
    pub session_id: SessionId,
    pub consumer: Digest,
    pub provider_id: ToolProviderId,
    pub connection_id: ToolConnectionId,
    pub after_server_sequence: u64,
}

/// The stored connection of a provider.
#[derive(Clone, Copy, PartialEq, Eq, Debug, Structural)]
pub struct StoredConnection {
    pub consumer: Digest,
    pub generation: i64,
    pub acknowledged_server_sequence: i64,
    pub next_server_sequence: i64,
}

/// A stored invocation, as far as it tells what a provider may acknowledge.
#[derive(Clone, Copy, PartialEq, Eq, Debug, Structural)]
pub struct ProviderInvocation {
    pub server_sequence: i64,
    pub cancellation_server_sequence: Option<i64>,
    pub phase: ToolPhase,
    pub cancellation_id: Option<ToolCancellationId>,
}

/// What was found for a provider that connects.
pub struct ConnectFacts {
    pub session_consumer: Digest,
    /// The consumer of each registration that the provider names, where the session has it.
    pub registration_consumers: Vec<Option<Digest>>,
    /// Whose the connection identity is, where it was used.
    pub alias: Option<(SessionId, ToolProviderId)>,
    pub previous: Option<StoredConnection>,
    /// The invocations that the provider was told of, or told to cancel, up to what it has seen.
    pub invocations: Vec<ProviderInvocation>,
}

/// Whether a stored sequence number is a number at all.
pub open spec fn countable(row: ProviderInvocation) -> bool {
    row.server_sequence >= 0 && (row.cancellation_server_sequence matches Some(sequence)
        ==> sequence >= 0)
}

/// Whether a row accounts for a sequence number up to the last: as an invocation that is over or
/// was asked to stop, or as the request to stop.
pub open spec fn accounts_for(row: ProviderInvocation, last: u64, number: u128) -> bool {
    number <= last && ((row.server_sequence == number && (over(row.phase) || row.cancellation_id
        is Some)) || (row.cancellation_server_sequence matches Some(sequence) && sequence
        == number))
}

/// Whether some row accounts for a sequence number.
pub open spec fn accounted(rows: Seq<ProviderInvocation>, last: u64, number: u128) -> bool {
    exists|i: int| 0 <= i < rows.len() && accounts_for(#[trigger] rows[i], last, number)
}

/// Whether rows account for exactly the sequence numbers from one to the last.
pub open spec fn all_accounted(rows: Seq<ProviderInvocation>, last: u64) -> bool {
    forall|number: u128| #[trigger] accounted(rows, last, number) <==> 1 <= number <= last
}

/// Checks that a provider may acknowledge everything up to a sequence number.
fn check_acknowledged(rows: &Vec<ProviderInvocation>, last: u64) -> (result: Result<
    (),
    StoreError,
>)
    requires
        last >= 1,
    ensures
        result == (if exists|i: int| 0 <= i < rows.len() && !countable(#[trigger] rows[i]) {
            Err::<(), StoreError>(StoreError::Corrupt)
        } else if all_accounted(rows@, last) {
            Ok(())
        } else {
            Err(StoreError::Invalid)
        }),
{
    let mut seen: Vec<u128> = Vec::new();
    let mut index: usize = 0;
    while index < rows.len()
        invariant
            index <= rows.len(),
            increasing(seen@),
            forall|i: int| 0 <= i < index ==> countable(#[trigger] rows[i]),
            forall|number: u128| #[trigger]
                seen@.contains(number) <==> accounted(rows@.take(index as int), last, number),
        decreases rows.len() - index,
    {
        let row: ProviderInvocation = rows[index];
        let ghost before = seen@;
        if row.server_sequence < 0 {
            assert(!countable(rows@[index as int]));
            return Err(StoreError::Corrupt);
        }
        let is_over: bool = row.phase == ToolPhase::Completed || row.phase == ToolPhase::Failed;
        let sequence: u64 = row.server_sequence as u64;
        if sequence <= last && (is_over || row.cancellation_id.is_some()) {
            let _new: bool = insert_distinct(&mut seen, sequence as u128);
        }
        match row.cancellation_server_sequence {
            Some(cancellation) => {
                if cancellation < 0 {
                    assert(!countable(rows@[index as int]));
                    return Err(StoreError::Corrupt);
                }
                if cancellation as u64 <= last {
                    let _new: bool = insert_distinct(&mut seen, cancellation as u128);
                }
            },
            None => {},
        }
        proof {
            let head = rows@.take(index as int);
            let next = rows@.take(index + 1);
            assert(next =~= head.push(row));
            assert forall|number: u128| #[trigger] seen@.contains(number) <==> accounted(
                next,
                last,
                number,
            ) by {
                assert(seen@.contains(number) <==> before.contains(number) || accounts_for(
                    row,
                    last,
                    number,
                ));
                if accounted(head, last, number) {
                    let i = choose|i: int|
                        0 <= i < head.len() && accounts_for(#[trigger] head[i], last, number);
                    assert(next[i] == head[i]);
                }
                if accounts_for(row, last, number) {
                    assert(next[index as int] == row);
                }
                if accounted(next, last, number) {
                    let i = choose|i: int|
                        0 <= i < next.len() && accounts_for(#[trigger] next[i], last, number);
                    if i < index {
                        assert(head[i] == next[i]);
                    }
                }
            }
        }
        index = index + 1;
    }
    proof {
        assert(rows@.take(index as int) =~= rows@);
        assert(is_prefix(seen@, last) <==> all_accounted(rows@, last)) by {
            if is_prefix(seen@, last) {
                assert forall|number: u128| #[trigger] accounted(rows@, last, number) <==> 1
                    <= number <= last by {
                    assert(seen@.contains(number) <==> accounted(rows@, last, number));
                }
            }
            if all_accounted(rows@, last) {
                assert forall|number: u128| #[trigger] seen@.contains(number) <==> 1 <= number
                    <= last by {
                    assert(seen@.contains(number) <==> accounted(rows@, last, number));
                }
            }
        }
    }
    if covers_prefix(&seen, last) {
        Ok(())
    } else {
        Err(StoreError::Invalid)
    }
}

/// The counters of a connection: its generation, and the sequence numbers that come next and
/// were acknowledged.
#[derive(Clone, Copy, PartialEq, Eq, Debug, Structural)]
pub struct ConnectionCounters {
    pub generation: u64,
    pub next_server_sequence: u64,
    pub acknowledged_server_sequence: u64,
}

/// What a connection begins with: a first one from the start, a later one where the earlier
/// stood, with the next generation. The consumer stays the same.
pub open spec fn starting_counters(
    command: ConnectToolProvider,
    previous: Option<StoredConnection>,
) -> Result<
    ConnectionCounters,
    StoreError,
> {
    match previous {
        None => Ok(
            ConnectionCounters {
                generation: 1,
                next_server_sequence: 1,
                acknowledged_server_sequence: 0,
            },
        ),
        Some(row) => if row.consumer != command.consumer {
            Err(StoreError::Invalid)
        } else if row.generation < 0 || row.next_server_sequence < 0
            || row.acknowledged_server_sequence < 0 {
            Err(StoreError::Corrupt)
        } else {
            Ok(
                ConnectionCounters {
                    generation: (row.generation + 1) as u64,
                    next_server_sequence: row.next_server_sequence as u64,
                    acknowledged_server_sequence: row.acknowledged_server_sequence as u64,
                },
            )
        },
    }
}

fn start_counters(command: ConnectToolProvider, previous: Option<StoredConnection>) -> (result:
    Result<ConnectionCounters, StoreError>)
    ensures
        result == starting_counters(command, previous),
{
    match previous {
        None => Ok(
            ConnectionCounters {
                generation: 1,
                next_server_sequence: 1,
                acknowledged_server_sequence: 0,
            },
        ),
        Some(row) => {
            if row.consumer != command.consumer {
                return Err(StoreError::Invalid);
            }
            if row.generation < 0 || row.next_server_sequence < 0
                || row.acknowledged_server_sequence < 0 {
                return Err(StoreError::Corrupt);
            }
            Ok(
                ConnectionCounters {
                    generation: row.generation as u64 + 1,
                    next_server_sequence: row.next_server_sequence as u64,
                    acknowledged_server_sequence: row.acknowledged_server_sequence as u64,
                },
            )
        },
    }
}

/// Whether the identity of a connection is that of another provider.
pub open spec fn connection_taken(
    command: ConnectToolProvider,
    alias: Option<(SessionId, ToolProviderId)>,
) -> bool {
    alias matches Some(alias) && (alias.0 != command.session_id || alias.1 != command.provider_id)
}

/// The outcome of a wish of a provider to connect: the counters of the connection.
///
/// What the provider has seen lies between what it acknowledged before and what it can have been
/// told; and it acknowledges more only where all of that is settled.
pub open spec fn connect_outcome(command: ConnectToolProvider, facts: ConnectFacts) -> Result<
    ConnectionCounters,
    StoreError,
> {
    let after = command.after_server_sequence;
    let rows = facts.invocations@;
    if command.consumer != facts.session_consumer || exists|i: int|
        0 <= i < facts.registration_consumers@.len() && #[trigger] facts.registration_consumers@[i]
            != Some(facts.session_consumer) {
        Err(StoreError::Invalid)
    } else if connection_taken(command, facts.alias) {
        Err(StoreError::RequestConflict { request_id: command.request_id })
    } else {
        match starting_counters(command, facts.previous) {
            Err(error) => Err(error),
            Ok(counters) => if after < counters.acknowledged_server_sequence || after
                >= counters.next_server_sequence {
                Err(StoreError::Invalid)
            } else if after > counters.acknowledged_server_sequence && exists|i: int|
                0 <= i < rows.len() && !countable(#[trigger] rows[i]) {
                Err(StoreError::Corrupt)
            } else if after > counters.acknowledged_server_sequence && !all_accounted(rows, after) {
                Err(StoreError::Invalid)
            } else if counters.generation > i64::MAX {
                Err(StoreError::Corrupt)
            } else {
                Ok(ConnectionCounters { acknowledged_server_sequence: after, ..counters })
            },
        }
    }
}

/// Finds the counters with which a provider may connect.
pub fn count_connection(command: ConnectToolProvider, facts: &ConnectFacts) -> (result: Result<
    ConnectionCounters,
    StoreError,
>)
    ensures
        result == connect_outcome(command, *facts),
{
    if command.consumer != facts.session_consumer {
        return Err(StoreError::Invalid);
    }
    let mut index: usize = 0;
    while index < facts.registration_consumers.len()
        invariant
            index <= facts.registration_consumers.len(),
            forall|i: int|
                0 <= i < index ==> #[trigger] facts.registration_consumers[i] == Some(
                    facts.session_consumer,
                ),
        decreases facts.registration_consumers.len() - index,
    {
        let consumer: Option<Digest> = facts.registration_consumers[index];
        if consumer != Some(facts.session_consumer) {
            assert(facts.registration_consumers@[index as int] != Some(facts.session_consumer));
            return Err(StoreError::Invalid);
        }
        index = index + 1;
    }
    match facts.alias {
        Some((session_id, provider_id)) => {
            if session_id != command.session_id || provider_id != command.provider_id {
                return Err(StoreError::RequestConflict { request_id: command.request_id });
            }
        },
        None => {},
    }
    let counters: ConnectionCounters = match start_counters(command, facts.previous) {
        Ok(counters) => counters,
        Err(error) => {
            return Err(error);
        },
    };
    let after: u64 = command.after_server_sequence;
    if after < counters.acknowledged_server_sequence || after >= counters.next_server_sequence {
        return Err(StoreError::Invalid);
    }
    if after > counters.acknowledged_server_sequence {
        match check_acknowledged(&facts.invocations, after) {
            Ok(_) => {},
            Err(error) => {
                return Err(error);
            },
        }
    }
    if counters.generation > i64::MAX as u64 {
        return Err(StoreError::Corrupt);
    }
    Ok(ConnectionCounters { acknowledged_server_sequence: after, ..counters })
}

/// Reconnecting raises the generation by one, never takes back an acknowledgement, never reuses
/// a sequence number, and leaves the counters in order.
pub proof fn connections_move_forward(
    command: ConnectToolProvider,
    facts: ConnectFacts,
    previous: StoredConnection,
)
    requires
        facts.previous == Some(previous),
    ensures
        connect_outcome(command, facts) matches Ok(counters) ==> {
            &&& counters.generation == previous.generation + 1
            &&& counters.acknowledged_server_sequence >= previous.acknowledged_server_sequence
            &&& counters.next_server_sequence == previous.next_server_sequence
            &&& counters.acknowledged_server_sequence < counters.next_server_sequence
        },
{
}

/// A provider never acknowledges an invocation that still waits for it: beyond what it
/// acknowledged before, each invocation up to what it has seen is over or was asked to stop, or
/// its number is accounted for by another.
pub proof fn open_invocations_are_not_acknowledged(
    command: ConnectToolProvider,
    facts: ConnectFacts,
    number: u64,
)
    requires
        1 <= number <= command.after_server_sequence,
        facts.previous matches Some(previous) ==> command.after_server_sequence
            != previous.acknowledged_server_sequence,
        facts.previous is None ==> command.after_server_sequence > 0,
    ensures
        connect_outcome(command, facts) is Ok ==> accounted(
            facts.invocations@,
            command.after_server_sequence,
            number as u128,
        ),
{
    if connect_outcome(command, facts) is Ok {
        let after = command.after_server_sequence;
        assert(all_accounted(facts.invocations@, after));
        assert(accounted(facts.invocations@, after, number as u128) <==> 1 <= number as u128
            <= after);
    }
}

/// Whether an invocation waits for its provider.
pub open spec fn waiting(phase: ToolPhase) -> bool {
    phase == ToolPhase::Reserved || phase == ToolPhase::Started || phase == ToolPhase::Uncertain
}

/// An invocation that is bound to another connection.
pub open spec fn rebound(
    value: ToolInvocationSnapshot,
    connection_id: ToolConnectionId,
    generation: u64,
) -> ToolInvocationSnapshot {
    ToolInvocationSnapshot {
        dispatch: ToolDispatch {
            connection_id: Some(connection_id),
            connection_generation: Some(generation),
            ..value.dispatch
        },
        ..value
    }
}

/// An invocation that waits for its provider, after that has connected again.
pub fn rebind_invocation(
    value: ToolInvocationSnapshot,
    connection_id: ToolConnectionId,
    generation: u64,
) -> (after: ToolInvocationSnapshot)
    ensures
        after == rebound(value, connection_id, generation),
        value.sound() ==> after.sound(),
{
    let mut after: ToolInvocationSnapshot = value;
    after.dispatch.connection_id = Some(connection_id);
    after.dispatch.connection_generation = Some(generation);
    after
}

/// A connection as its provider was told of it.
pub struct ToolProviderConnection {
    pub session_id: SessionId,
    pub consumer: Digest,
    pub provider_id: ToolProviderId,
    pub connection_id: ToolConnectionId,
    pub registration_ids: Vec<ToolRegistrationId>,
    pub counters: ConnectionCounters,
    pub connected_at: Timestamp,
}

/// The invocations that wait for a provider, bound to its new connection; those that are over
/// stay as they are.
pub open spec fn all_rebound(
    invocations: Seq<ToolInvocationSnapshot>,
    connection_id: ToolConnectionId,
    generation: u64,
) -> Seq<ToolInvocationSnapshot>
    decreases invocations.len(),
{
    if invocations.len() == 0 {
        Seq::empty()
    } else {
        let earlier = all_rebound(invocations.drop_last(), connection_id, generation);
        if waiting(invocations.last().phase) {
            earlier.push(rebound(invocations.last(), connection_id, generation))
        } else {
            earlier
        }
    }
}

fn rebind_waiting(
    invocations: &Vec<ToolInvocationSnapshot>,
    connection_id: ToolConnectionId,
    generation: u64,
) -> (after: Vec<ToolInvocationSnapshot>)
    ensures
        after@ == all_rebound(invocations@, connection_id, generation),
{
    let mut after: Vec<ToolInvocationSnapshot> = Vec::new();
    let mut index: usize = 0;
    while index < invocations.len()
        invariant
            index <= invocations.len(),
            after@ == all_rebound(invocations@.take(index as int), connection_id, generation),
        decreases invocations.len() - index,
    {
        let value: ToolInvocationSnapshot = invocations[index];
        assert(invocations@.take(index + 1).drop_last() =~= invocations@.take(index as int));
        if value.phase == ToolPhase::Reserved || value.phase == ToolPhase::Started || value.phase
            == ToolPhase::Uncertain {
            after.push(rebind_invocation(value, connection_id, generation));
        }
        index = index + 1;
    }
    assert(invocations@.take(index as int) =~= invocations@);
    after
}

/// A provider that has connected, and the invocations that are written because they wait for it.
pub struct ConnectionPlan {
    pub connection: ToolProviderConnection,
    pub rebound: Vec<ToolInvocationSnapshot>,
}

/// Whether a connection is what a provider asked for, at the given counters and time.
pub open spec fn connected_as(
    connection: ToolProviderConnection,
    command: ConnectToolProvider,
    ids: Seq<ToolRegistrationId>,
    counters: ConnectionCounters,
    now: Timestamp,
) -> bool {
    &&& connection.session_id == command.session_id
    &&& connection.consumer == command.consumer
    &&& connection.provider_id == command.provider_id
    &&& connection.connection_id == command.connection_id
    &&& increasing(numbers(connection.registration_ids@))
    &&& forall|n: u128| #[trigger]
        numbers(connection.registration_ids@).contains(n) <==> numbers(ids).contains(n)
    &&& connection.counters == counters
    &&& connection.connected_at == now
}

/// Decides a wish of a provider to connect, at the time floor of its session.
///
/// `ids` are the registrations that the provider names, and `invocations` those that it was told
/// of.
pub fn connect_tool_provider(
    command: ConnectToolProvider,
    ids: &Vec<ToolRegistrationId>,
    max_registrations: u32,
    facts: &ConnectFacts,
    invocations: &Vec<ToolInvocationSnapshot>,
    now: Timestamp,
) -> (result: Result<ConnectionPlan, StoreError>)
    ensures
        match result {
            Ok(plan) => {
                &&& acceptable_list(ids@, max_registrations)
                &&& connect_outcome(command, *facts) matches Ok(counters)
                &&& connected_as(plan.connection, command, ids@, counters, now)
                &&& plan.rebound@ == all_rebound(
                    invocations@,
                    command.connection_id,
                    counters.generation,
                )
            },
            Err(error) => if !acceptable_list(ids@, max_registrations) {
                error == StoreError::Invalid
            } else {
                connect_outcome(command, *facts) == Err::<ConnectionCounters, StoreError>(error)
            },
        },
{
    let registration_ids: Vec<ToolRegistrationId> = match order_registrations(
        ids,
        max_registrations,
    ) {
        Ok(ordered) => ordered,
        Err(error) => {
            return Err(error);
        },
    };
    let counters: ConnectionCounters = match count_connection(command, facts) {
        Ok(counters) => counters,
        Err(error) => {
            return Err(error);
        },
    };
    let connection: ToolProviderConnection = ToolProviderConnection {
        session_id: command.session_id,
        consumer: command.consumer,
        provider_id: command.provider_id,
        connection_id: command.connection_id,
        registration_ids,
        counters,
        connected_at: now,
    };
    let rebound: Vec<ToolInvocationSnapshot> = rebind_waiting(
        invocations,
        command.connection_id,
        counters.generation,
    );
    Ok(ConnectionPlan { connection, rebound })
}

/// A provider that connects again speaks for every invocation that waits for it, over the new
/// connection and in its generation.
pub proof fn waiting_invocations_follow_the_connection(
    invocations: Seq<ToolInvocationSnapshot>,
    index: int,
    connection_id: ToolConnectionId,
    generation: u64,
)
    requires
        0 <= index < invocations.len(),
        waiting(invocations[index].phase),
    ensures
        all_rebound(invocations, connection_id, generation).contains(
            rebound(invocations[index], connection_id, generation),
        ),
    decreases invocations.len(),
{
    let earlier = all_rebound(invocations.drop_last(), connection_id, generation);
    let all = all_rebound(invocations, connection_id, generation);
    let value = rebound(invocations[index], connection_id, generation);
    if index < invocations.len() - 1 {
        waiting_invocations_follow_the_connection(
            invocations.drop_last(),
            index,
            connection_id,
            generation,
        );
        let at = choose|at: int| 0 <= at < earlier.len() && earlier[at] == value;
        assert(all[at] == value);
    } else {
        assert(all[earlier.len() as int] == value);
    }
}

/// What was found for a recorded connection.
pub struct ConnectionReplayFacts {
    /// Whether the recorded connection is well formed.
    pub structurally_valid: bool,
    /// When the event of the connection occurred.
    pub occurred_at: (i64, i64),
    pub durable: StoredConnection,
    /// The registrations that the connection names, as they are stored, where they are.
    pub registrations: Vec<Option<ToolRegistration>>,
    /// The consumer beside each of them.
    pub consumers: Vec<Digest>,
}

/// Whether a stored registration is the one that a connection names.
pub open spec fn names_registration(
    value: ToolProviderConnection,
    id: ToolRegistrationId,
    registration: Option<ToolRegistration>,
    consumer: Digest,
) -> bool {
    &&& registration matches Some(registration)
    &&& registration.session_id == value.session_id
    &&& registration.consumer == value.consumer
    &&& registration.registration_id == id
    &&& consumer == value.consumer
}

/// Whether a recorded connection still stands: it answers the wish, and what is stored has moved
/// on from it at most.
pub open spec fn connection_stands(
    command: ConnectToolProvider,
    ordered: Seq<ToolRegistrationId>,
    value: ToolProviderConnection,
    facts: ConnectionReplayFacts,
) -> bool {
    &&& facts.structurally_valid
    &&& value.connected_at.seconds == facts.occurred_at.0
    &&& value.connected_at.nanos == facts.occurred_at.1
    &&& value.session_id == command.session_id
    &&& value.consumer == command.consumer
    &&& value.provider_id == command.provider_id
    &&& value.connection_id == command.connection_id
    &&& value.registration_ids@ == ordered
    &&& value.counters.generation <= facts.durable.generation
    &&& value.counters.acknowledged_server_sequence == command.after_server_sequence
    &&& facts.durable.consumer == command.consumer
    &&& value.counters.acknowledged_server_sequence <= facts.durable.acknowledged_server_sequence
    &&& value.counters.next_server_sequence <= facts.durable.next_server_sequence
    &&& facts.registrations@.len() == ordered.len()
    &&& facts.consumers@.len() == ordered.len()
    &&& forall|i: int|
        0 <= i < ordered.len() ==> names_registration(
            value,
            #[trigger] ordered[i],
            facts.registrations@[i],
            facts.consumers@[i],
        )
}

/// Checks that a recorded connection still stands.
pub fn validate_connection_replay(
    command: ConnectToolProvider,
    ordered: &Vec<ToolRegistrationId>,
    value: &ToolProviderConnection,
    facts: &ConnectionReplayFacts,
) -> (result: Result<(), StoreError>)
    ensures
        result == (if connection_stands(command, ordered@, *value, *facts) {
            Ok::<(), StoreError>(())
        } else {
            Err(StoreError::Corrupt)
        }),
{
    let counters: ConnectionCounters = value.counters;
    let durable: StoredConnection = facts.durable;
    if !facts.structurally_valid || value.connected_at.seconds != facts.occurred_at.0
        || value.connected_at.nanos as i64 != facts.occurred_at.1 || value.session_id
        != command.session_id || value.consumer != command.consumer || value.provider_id
        != command.provider_id || value.connection_id != command.connection_id
        || durable.generation < 0 || durable.acknowledged_server_sequence < 0
        || durable.next_server_sequence < 0 || counters.generation > durable.generation as u64
        || counters.acknowledged_server_sequence != command.after_server_sequence
        || durable.consumer != command.consumer || counters.acknowledged_server_sequence
        > durable.acknowledged_server_sequence as u64 || counters.next_server_sequence
        > durable.next_server_sequence as u64 {
        return Err(StoreError::Corrupt);
    }
    if value.registration_ids.len() != ordered.len() || facts.registrations.len() != ordered.len()
        || facts.consumers.len() != ordered.len() {
        return Err(StoreError::Corrupt);
    }
    let mut index: usize = 0;
    while index < ordered.len()
        invariant
            index <= ordered.len(),
            value.registration_ids.len() == ordered.len(),
            facts.registrations.len() == ordered.len(),
            facts.consumers.len() == ordered.len(),
            forall|i: int| 0 <= i < index ==> value.registration_ids[i] == ordered[i],
            forall|i: int|
                0 <= i < index ==> names_registration(
                    *value,
                    #[trigger] ordered@[i],
                    facts.registrations@[i],
                    facts.consumers@[i],
                ),
        decreases ordered.len() - index,
    {
        let id: ToolRegistrationId = ordered[index];
        if value.registration_ids[index] != id {
            assert(value.registration_ids@[index as int] != ordered@[index as int]);
            return Err(StoreError::Corrupt);
        }
        let matches: bool = match facts.registrations[index] {
            Some(registration) => registration.session_id == value.session_id
                && registration.consumer == value.consumer && registration.registration_id == id
                && facts.consumers[index] == value.consumer,
            None => false,
        };
        if !matches {
            assert(!names_registration(
                *value,
                ordered@[index as int],
                facts.registrations@[index as int],
                facts.consumers@[index as int],
            ));
            return Err(StoreError::Corrupt);
        }
        index = index + 1;
    }
    assert(value.registration_ids@ =~= ordered@);
    Ok(())
}

// Invocations.

/// The stored columns beside an invocation.
#[derive(Clone, Copy, PartialEq, Eq, Debug, Structural)]
pub struct InvocationColumns {
    pub effect_request_id: RequestId,
    pub registration_id: ToolRegistrationId,
    pub session_id: SessionId,
    pub participant_id: ParticipantId,
    pub operation_id: OperationId,
    pub tool: Digest,
    pub dispatch: DispatchColumns,
}

/// The stored columns beside a dispatch.
#[derive(Clone, Copy, PartialEq, Eq, Debug, Structural)]
pub struct DispatchColumns {
    pub dispatch_id: ToolDispatchId,
    pub provider_id: ToolProviderId,
    pub server_sequence: i64,
    pub deadline_seconds: i64,
    pub deadline_nanos: i64,
    pub connection_generation: Option<i64>,
    pub cancellation_id: Option<ToolCancellationId>,
    pub cancellation_server_sequence: Option<i64>,
    pub terminal_digest: Option<Digest>,
}

/// A number as it is stored; nothing where it is too large for that.
pub open spec fn column(number: Option<u64>) -> Option<i64> {
    match number {
        Some(number) => if number <= i64::MAX {
            Some(number as i64)
        } else {
            None
        },
        None => None,
    }
}

fn to_column(number: Option<u64>) -> (stored: Option<i64>)
    ensures
        stored == column(number),
{
    match number {
        Some(number) => if number <= i64::MAX as u64 {
            Some(number as i64)
        } else {
            None
        },
        None => None,
    }
}

/// Whether a dispatch agrees with the columns beside it.
pub open spec fn dispatch_agrees(dispatch: ToolDispatch, columns: DispatchColumns) -> bool {
    &&& columns.dispatch_id == dispatch.dispatch_id
    &&& columns.provider_id == dispatch.provider_id
    &&& columns.server_sequence == dispatch.server_sequence
    &&& columns.deadline_seconds == dispatch.deadline.seconds
    &&& columns.deadline_nanos == dispatch.deadline.nanos
    &&& columns.connection_generation == column(dispatch.connection_generation)
    &&& columns.cancellation_id == dispatch.cancellation_id
    &&& columns.cancellation_server_sequence == column(dispatch.cancellation_server_sequence)
    &&& columns.terminal_digest == dispatch.terminal_digest
}

/// Whether a dispatch agrees with the columns beside it.
pub fn tool_invocation_projection_matches(
    dispatch: ToolDispatch,
    columns: DispatchColumns,
) -> (result: bool)
    ensures
        result == dispatch_agrees(dispatch, columns),
{
    columns.dispatch_id == dispatch.dispatch_id && columns.provider_id == dispatch.provider_id
        && to_column(Some(dispatch.server_sequence)) == Some(columns.server_sequence)
        && columns.deadline_seconds == dispatch.deadline.seconds && columns.deadline_nanos
        == dispatch.deadline.nanos as i64 && columns.connection_generation == to_column(
        dispatch.connection_generation,
    ) && columns.cancellation_id == dispatch.cancellation_id
        && columns.cancellation_server_sequence == to_column(dispatch.cancellation_server_sequence)
        && columns.terminal_digest == dispatch.terminal_digest
}

/// What was found for an invocation that was read.
#[derive(Clone, Copy, PartialEq, Eq, Debug, Structural)]
pub struct InvocationFacts {
    pub columns: InvocationColumns,
    pub effect: Option<EffectEntry>,
    pub participant: Option<ParticipantSnapshot>,
    pub operation: Option<OperationSnapshot>,
    pub registration: Option<ToolRegistration>,
}

/// Whether an effect is that of an invocation, and stands where the invocation does.
pub open spec fn effect_carries(effect: EffectEntry, value: ToolInvocationSnapshot) -> bool {
    &&& phases_agree(value.phase, effect.phase)
    &&& effect.revision == value.revision
    &&& effect.session_id == value.invocation.session_id
    &&& effect.participant_id == value.invocation.participant_id
    &&& effect.operation_id == value.invocation.operation_id
    &&& effect.action == value.definition.required_authority
    &&& effect.effect_class == value.definition.effect_class
}

/// Whether an invocation that was read is the sought one, and agrees with its columns, its
/// effect, its operation and its registration.
pub open spec fn invocation_agrees(
    value: ToolInvocationSnapshot,
    id: ToolInvocationId,
    facts: InvocationFacts,
) -> bool {
    let invocation = value.invocation;
    &&& invocation.invocation_id == id
    &&& facts.columns.effect_request_id == invocation.request_id
    &&& facts.columns.session_id == invocation.session_id
    &&& facts.columns.participant_id == invocation.participant_id
    &&& facts.columns.operation_id == invocation.operation_id
    &&& facts.columns.tool == invocation.tool
    &&& dispatch_agrees(value.dispatch, facts.columns.dispatch)
    &&& facts.effect matches Some(effect)
    &&& effect_carries(effect, value)
    &&& facts.participant matches Some(participant)
    &&& participant.session_id == invocation.session_id
    &&& facts.operation matches Some(operation)
    &&& operation.session_id == invocation.session_id
    &&& operation.participant_id == invocation.participant_id
    &&& facts.registration matches Some(registration)
    &&& registration.registration_id == value.registration_id
    &&& facts.columns.registration_id == value.registration_id
    &&& registration.definition == value.definition
}

/// Checks an invocation that was read.
pub fn decode_invocation(
    value: ToolInvocationSnapshot,
    id: ToolInvocationId,
    facts: InvocationFacts,
) -> (result: Result<ToolInvocationSnapshot, StoreError>)
    ensures
        result == (if invocation_agrees(value, id, facts) {
            Ok::<ToolInvocationSnapshot, StoreError>(value)
        } else {
            Err(StoreError::Corrupt)
        }),
{
    let invocation: ToolInvocation = value.invocation;
    let columns: InvocationColumns = facts.columns;
    if invocation.invocation_id != id || columns.effect_request_id != invocation.request_id
        || columns.session_id != invocation.session_id || columns.participant_id
        != invocation.participant_id || columns.operation_id != invocation.operation_id
        || columns.tool != invocation.tool || !tool_invocation_projection_matches(
        value.dispatch,
        columns.dispatch,
    ) {
        return Err(StoreError::Corrupt);
    }
    match (facts.effect, facts.participant, facts.operation, facts.registration) {
        (Some(effect), Some(participant), Some(operation), Some(registration)) => {
            if !do_phases_agree(value.phase, effect.phase) || effect.revision != value.revision
                || participant.session_id != invocation.session_id || operation.session_id
                != invocation.session_id || operation.participant_id != invocation.participant_id
                || effect.session_id != invocation.session_id || effect.participant_id
                != invocation.participant_id || effect.operation_id != invocation.operation_id
                || effect.action != value.definition.required_authority || effect.effect_class
                != value.definition.effect_class {
                return Err(StoreError::Corrupt);
            }
            if registration.registration_id != value.registration_id || columns.registration_id
                != value.registration_id || registration.definition != value.definition {
                return Err(StoreError::Corrupt);
            }
            Ok(value)
        },
        _ => Err(StoreError::Corrupt),
    }
}

/// A wish to use a tool.
#[derive(Clone, Copy, PartialEq, Eq, Debug, Structural)]
pub struct ReserveToolInvocation {
    pub request_id: RequestId,
    pub caller: HostId,
    pub owner_epoch: FencingEpoch,
    pub registration_id: ToolRegistrationId,
    pub invocation: ToolInvocation,
    pub dispatch_id: ToolDispatchId,
    pub provider_id: ToolProviderId,
    pub deadline: Timestamp,
    /// The digest of the wish.
    pub digest: Digest,
    pub lease_nanos: u128,
}

/// Checks a wish to use a tool on its own: the length of its lease in milliseconds.
pub fn admit_invocation(command: ReserveToolInvocation, max_lease_millis: u64) -> (result: Result<
    u64,
    StoreError,
>)
    ensures
        result == (match lease_length(command.lease_nanos, max_lease_millis) {
            Some(millis) if command.request_id == command.invocation.request_id => Ok::<
                u64,
                StoreError,
            >(millis),
            _ => Err(StoreError::Invalid),
        }),
{
    if command.request_id != command.invocation.request_id {
        return Err(StoreError::Invalid);
    }
    match lease_millis(command.lease_nanos, max_lease_millis) {
        Some(millis) => Ok(millis),
        None => Err(StoreError::Invalid),
    }
}

/// Whether a wish to use a tool was granted before: the invocation that is there, if it is that
/// of the same wish.
///
/// `under_request` is the invocation under the request identity, and `existing` that under the
/// invocation identity, with its effect.
pub open spec fn earlier_invocation(
    command: ReserveToolInvocation,
    under_request: Option<ToolInvocationId>,
    existing: Option<ToolInvocationSnapshot>,
    effect: Option<EffectEntry>,
) -> Result<Option<ToolInvocationSnapshot>, StoreError> {
    let conflict = StoreError::RequestConflict { request_id: command.request_id };
    if under_request matches Some(other) && other != command.invocation.invocation_id {
        Err(conflict)
    } else {
        match (existing, effect) {
            (None, _) => Ok(None),
            (Some(_), None) => Err(StoreError::Corrupt),
            (Some(existing), Some(effect)) => if existing.invocation == command.invocation
                && effect.caller == command.caller && effect.owner_epoch == command.owner_epoch
                && effect.semantic_digest == command.digest {
                Ok(Some(existing))
            } else {
                Err(conflict)
            },
        }
    }
}

/// Finds whether a wish to use a tool was granted before.
pub fn find_earlier_invocation(
    command: ReserveToolInvocation,
    under_request: Option<ToolInvocationId>,
    existing: Option<ToolInvocationSnapshot>,
    effect: Option<EffectEntry>,
) -> (result: Result<Option<ToolInvocationSnapshot>, StoreError>)
    ensures
        result == earlier_invocation(command, under_request, existing, effect),
{
    match under_request {
        Some(other) => {
            if other != command.invocation.invocation_id {
                return Err(StoreError::RequestConflict { request_id: command.request_id });
            }
        },
        None => {},
    }
    match (existing, effect) {
        (None, _) => Ok(None),
        (Some(_), None) => Err(StoreError::Corrupt),
        (Some(existing), Some(effect)) => if existing.invocation == command.invocation
            && effect.caller == command.caller && effect.owner_epoch == command.owner_epoch
            && effect.semantic_digest == command.digest {
            Ok(Some(existing))
        } else {
            Err(StoreError::RequestConflict { request_id: command.request_id })
        },
    }
}

/// The stored connection that an invocation goes through.
#[derive(Clone, Copy, PartialEq, Eq, Debug, Structural)]
pub struct ProviderRow {
    pub connection_id: ToolConnectionId,
    pub generation: i64,
    pub next_server_sequence: i64,
    /// Whether the provider connected with the registration of the invocation.
    pub lists_registration: bool,
}

/// What was found for a wish to use a tool.
#[derive(Clone, Copy, PartialEq, Eq, Debug, Structural)]
pub struct ReserveToolFacts {
    pub registration: Option<ToolRegistration>,
    /// Whether the tool takes the input.
    pub input_valid: bool,
    pub provider: Option<ProviderRow>,
    pub participant: Option<ParticipantSnapshot>,
    pub operation: Option<OperationSnapshot>,
    /// The grant that the wish names, where it is there.
    pub grant: Option<GrantSnapshot>,
    /// Whether the policy of the participant, with the grant, allows the use.
    pub authorized: bool,
    /// The contract under which uncertain uses of tools are settled.
    pub contract: ResolutionContract,
}

/// An invocation that was reserved, with its effect, and the sequence number that comes next.
#[derive(Clone, Copy, PartialEq, Eq, Debug, Structural)]
pub struct ReservedInvocation {
    pub invocation: ToolInvocationSnapshot,
    pub effect: EffectEntry,
    pub next_server_sequence: u64,
}

/// Whether a deadline lies ahead, and no further than the tool may take.
pub open spec fn deadline_open(now: Timestamp, deadline: Timestamp, timeout_millis: u64) -> bool {
    now.instant() < deadline.instant() <= now.instant() + timeout_millis * 1_000_000
}

fn is_deadline_open(now: Timestamp, deadline: Timestamp, timeout_millis: u64) -> (result: bool)
    requires
        now.wf(),
        deadline.wf(),
    ensures
        result == deadline_open(now, deadline, timeout_millis),
{
    let ahead: i128 = (deadline.seconds as i128 - now.seconds as i128) * 1_000_000_000 + (
    deadline.nanos as i128 - now.nanos as i128);
    ahead > 0 && ahead <= timeout_millis as i128 * 1_000_000
}

/// Whether a tool may be used: it is registered as named, takes the input, and a provider that
/// offers it is connected.
pub open spec fn tool_available(command: ReserveToolInvocation, facts: ReserveToolFacts) -> bool {
    &&& facts.registration matches Some(registration)
    &&& registration.registration_id == command.registration_id
    &&& facts.input_valid
    &&& facts.provider matches Some(provider)
    &&& provider.lists_registration
}

/// Whether a participant may use a tool for an operation: the operation is one of its own that
/// goes on, and the use is authorized.
pub open spec fn use_allowed(command: ReserveToolInvocation, facts: ReserveToolFacts) -> bool {
    &&& facts.participant matches Some(participant)
    &&& facts.operation matches Some(operation)
    &&& participant.session_id == command.invocation.session_id
    &&& operation.session_id == command.invocation.session_id
    &&& operation.participant_id == command.invocation.participant_id
    &&& working(operation.state)
    &&& facts.authorized
    &&& grant_usable(facts.grant)
}

/// The wish for the effect that a use of a tool makes.
pub open spec fn effect_wish(
    command: ReserveToolInvocation,
    definition: ToolDefinition,
    contract: ResolutionContract,
    millis: u64,
) -> ReserveEffect {
    ReserveEffect {
        request_id: command.request_id,
        caller: command.caller,
        session_id: command.invocation.session_id,
        participant_id: command.invocation.participant_id,
        operation_id: command.invocation.operation_id,
        owner_epoch: command.owner_epoch,
        action: definition.required_authority,
        semantic_digest: command.digest,
        effect_class: definition.effect_class,
        contract,
        lease_millis: millis,
    }
}

/// An invocation that was just reserved.
pub open spec fn fresh_invocation(
    command: ReserveToolInvocation,
    definition: ToolDefinition,
    provider: ProviderRow,
) -> ToolInvocationSnapshot {
    ToolInvocationSnapshot {
        registration_id: command.registration_id,
        definition,
        invocation: command.invocation,
        phase: ToolPhase::Reserved,
        terminal: None,
        revision: Revision(1),
        dispatch: ToolDispatch {
            dispatch_id: command.dispatch_id,
            provider_id: command.provider_id,
            server_sequence: provider.next_server_sequence as u64,
            deadline: command.deadline,
            connection_id: Some(provider.connection_id),
            connection_generation: Some(provider.generation as u64),
            cancellation_id: None,
            cancellation_server_sequence: None,
            terminal_digest: None,
        },
    }
}

/// The outcome of a new wish to use a tool.
pub open spec fn reserve_tool_outcome(
    command: ReserveToolInvocation,
    millis: u64,
    facts: ReserveToolFacts,
    now: Timestamp,
) -> Result<ReservedInvocation, StoreError> {
    if !tool_available(command, facts) {
        Err(StoreError::Invalid)
    } else {
        let registration = facts.registration->Some_0;
        let provider = facts.provider->Some_0;
        if provider.next_server_sequence < 0 || provider.generation < 0 {
            Err(StoreError::Corrupt)
        } else if !deadline_open(now, command.deadline, registration.definition.timeout_millis) {
            Err(StoreError::Invalid)
        } else if provider.next_server_sequence == i64::MAX {
            Err(StoreError::Corrupt)
        } else if !use_allowed(command, facts) {
            Err(StoreError::Invalid)
        } else {
            match lease_end(now, millis) {
                Err(error) => Err(error),
                Ok(lease_expires_at) => Ok(
                    ReservedInvocation {
                        invocation: fresh_invocation(command, registration.definition, provider),
                        effect: reserved_effect(
                            effect_wish(command, registration.definition, facts.contract, millis),
                            lease_expires_at,
                        ),
                        next_server_sequence: (provider.next_server_sequence + 1) as u64,
                    },
                ),
            }
        }
    }
}

/// Decides a new wish to use a tool, at the time floor of its session.
pub fn reserve_tool_invocation(
    command: ReserveToolInvocation,
    millis: u64,
    facts: ReserveToolFacts,
    now: Timestamp,
) -> (result: Result<ReservedInvocation, StoreError>)
    requires
        now.wf(),
        command.deadline.wf(),
    ensures
        result == reserve_tool_outcome(command, millis, facts, now),
{
    let (registration, provider): (ToolRegistration, ProviderRow) = match (
        facts.registration,
        facts.provider,
    ) {
        (Some(registration), Some(provider)) => (registration, provider),
        _ => {
            return Err(StoreError::Invalid);
        },
    };
    if registration.registration_id != command.registration_id || !facts.input_valid
        || !provider.lists_registration {
        return Err(StoreError::Invalid);
    }
    if provider.next_server_sequence < 0 || provider.generation < 0 {
        return Err(StoreError::Corrupt);
    }
    if !is_deadline_open(now, command.deadline, registration.definition.timeout_millis) {
        return Err(StoreError::Invalid);
    }
    if provider.next_server_sequence == i64::MAX {
        return Err(StoreError::Corrupt);
    }
    match (facts.participant, facts.operation) {
        (Some(participant), Some(operation)) => {
            if participant.session_id != command.invocation.session_id || operation.session_id
                != command.invocation.session_id || operation.participant_id
                != command.invocation.participant_id || !(operation.state
                == OperationState::Running || operation.state == OperationState::Waiting) {
                return Err(StoreError::Invalid);
            }
        },
        _ => {
            return Err(StoreError::Invalid);
        },
    }
    if !facts.authorized || !is_grant_usable(facts.grant) {
        return Err(StoreError::Invalid);
    }
    let lease_expires_at: Timestamp = match effect_expiry(now, millis) {
        Ok(lease_expires_at) => lease_expires_at,
        Err(error) => {
            return Err(error);
        },
    };
    let effect = EffectEntry {
        request_id: command.request_id,
        session_id: command.invocation.session_id,
        participant_id: command.invocation.participant_id,
        operation_id: command.invocation.operation_id,
        caller: command.caller,
        action: registration.definition.required_authority,
        semantic_digest: command.digest,
        effect_class: registration.definition.effect_class,
        contract: facts.contract,
        phase: EffectPhase::Reserved,
        owner_host: command.caller,
        owner_epoch: command.owner_epoch,
        lease_expires_at,
        terminal: None,
        revision: Revision::initial(),
    };
    let invocation = ToolInvocationSnapshot {
        registration_id: command.registration_id,
        definition: registration.definition,
        invocation: command.invocation,
        phase: ToolPhase::Reserved,
        terminal: None,
        revision: Revision::initial(),
        dispatch: ToolDispatch {
            dispatch_id: command.dispatch_id,
            provider_id: command.provider_id,
            server_sequence: provider.next_server_sequence as u64,
            deadline: command.deadline,
            connection_id: Some(provider.connection_id),
            connection_generation: Some(provider.generation as u64),
            cancellation_id: None,
            cancellation_server_sequence: None,
            terminal_digest: None,
        },
    };
    Ok(
        ReservedInvocation {
            invocation,
            effect,
            next_server_sequence: provider.next_server_sequence as u64 + 1,
        },
    )
}

/// What happens to an invocation.
#[derive(Clone, Copy, PartialEq, Eq, Debug, Structural)]
pub enum ToolTransition {
    Start,
    /// The result is known by the digest of its `DigestUse::ToolResult` source.
    Complete(Digest),
    /// The failure is known by the digest of its `DigestUse::ToolFailure` source.
    Fail(ToolFailureKind, Digest),
    MarkUncertain,
    RequestCancel(ToolCancellationId),
}

/// A move of an invocation, told by the provider over its connection.
#[derive(Clone, Copy, PartialEq, Eq, Debug, Structural)]
pub struct TransitionToolInvocation {
    pub request_id: RequestId,
    pub owner_epoch: FencingEpoch,
    pub invocation_id: ToolInvocationId,
    pub expected_revision: Revision,
    pub provider_id: ToolProviderId,
    pub connection_id: ToolConnectionId,
    pub connection_generation: u64,
    pub dispatch_id: ToolDispatchId,
    pub server_sequence: u64,
    pub transition: ToolTransition,
}

/// What was found for a move of an invocation.
#[derive(Clone, Copy, PartialEq, Eq, Debug, Structural)]
pub struct TransitionToolFacts {
    pub current: ToolInvocationSnapshot,
    pub effect: Option<EffectEntry>,
    /// The stored connection of the provider.
    pub provider: Option<ProviderRow>,
    pub participant: Option<ParticipantSnapshot>,
    pub operation: Option<OperationSnapshot>,
    /// The grant that the invocation names, where it is there.
    pub grant: Option<GrantSnapshot>,
    /// Whether the policy of the participant, with the grant, allows the use.
    pub authorized: bool,
    /// Whether the result is one that the tool gives, and not too large.
    pub output_valid: bool,
}

/// What is written for a move of an invocation.
#[derive(Clone, Copy, PartialEq, Eq, Debug, Structural)]
pub enum ToolPlan {
    /// The invocation had ended in the same way.
    Repeated(ToolInvocationSnapshot),
    Moved {
        invocation: ToolInvocationSnapshot,
        effect: EffectEntry,
        /// The sequence number that comes next, where one was used.
        next_server_sequence: Option<u64>,
    },
}

/// A move of an invocation: what is written for it, and of the grant.
#[derive(Clone, Copy, PartialEq, Eq, Debug, Structural)]
pub struct ToolTransitionPlan {
    pub plan: ToolPlan,
    pub grant: Option<GrantSnapshot>,
}

/// Whether a provider speaks for an invocation over its present connection; or the error.
pub open spec fn connection_obstacle(
    command: TransitionToolInvocation,
    facts: TransitionToolFacts,
) -> Option<
    StoreError,
> {
    let dispatch = facts.current.dispatch;
    match facts.provider {
        None => Some(StoreError::Invalid),
        Some(provider) => if command.provider_id != dispatch.provider_id || dispatch.connection_id
            != Some(command.connection_id) || command.dispatch_id != dispatch.dispatch_id
            || command.server_sequence != dispatch.server_sequence
            || command.connection_generation == 0 || provider.connection_id
            != command.connection_id {
            Some(StoreError::Invalid)
        } else if provider.generation < 0 {
            Some(StoreError::Corrupt)
        } else if provider.generation != command.connection_generation {
            Some(StoreError::Invalid)
        } else {
            None
        },
    }
}

fn check_connection(command: TransitionToolInvocation, facts: TransitionToolFacts) -> (result:
    Option<StoreError>)
    ensures
        result == connection_obstacle(command, facts),
{
    let dispatch: ToolDispatch = facts.current.dispatch;
    match facts.provider {
        None => Some(StoreError::Invalid),
        Some(provider) => {
            if command.provider_id != dispatch.provider_id || dispatch.connection_id != Some(
                command.connection_id,
            ) || command.dispatch_id != dispatch.dispatch_id || command.server_sequence
                != dispatch.server_sequence || command.connection_generation == 0
                || provider.connection_id != command.connection_id {
                Some(StoreError::Invalid)
            } else if provider.generation < 0 {
                Some(StoreError::Corrupt)
            } else if provider.generation as u64 != command.connection_generation {
                Some(StoreError::Invalid)
            } else {
                None
            }
        },
    }
}

/// Whether an invocation may start now: nobody asked it to stop, its operation is running, and
/// the use is still authorized.
pub open spec fn may_start(facts: TransitionToolFacts) -> bool {
    &&& facts.current.dispatch.cancellation_id is None
    &&& facts.participant matches Some(participant)
    &&& facts.operation matches Some(operation)
    &&& participant.session_id == facts.current.invocation.session_id
    &&& operation.session_id == facts.current.invocation.session_id
    &&& operation.participant_id == participant.participant_id
    &&& operation.state == OperationState::Running
    &&& facts.authorized
    &&& grant_usable(facts.grant)
}

fn check_may_start(facts: TransitionToolFacts) -> (result: bool)
    ensures
        result == may_start(facts),
{
    match (facts.participant, facts.operation) {
        (Some(participant), Some(operation)) => facts.current.dispatch.cancellation_id.is_none()
            && participant.session_id == facts.current.invocation.session_id
            && operation.session_id == facts.current.invocation.session_id
            && operation.participant_id == participant.participant_id && operation.state
            == OperationState::Running && facts.authorized && is_grant_usable(facts.grant),
        _ => false,
    }
}

/// The end that a move asks for.
pub open spec fn requested_terminal(transition: ToolTransition) -> Option<ToolTerminal> {
    match transition {
        ToolTransition::Complete(result) => Some(ToolTerminal::Completed(result)),
        ToolTransition::Fail(kind, failure) => Some(ToolTerminal::Failed(kind, failure)),
        _ => None,
    }
}

fn terminal_of(transition: ToolTransition) -> (terminal: Option<ToolTerminal>)
    ensures
        terminal == requested_terminal(transition),
{
    match transition {
        ToolTransition::Complete(result) => Some(ToolTerminal::Completed(result)),
        ToolTransition::Fail(kind, failure) => Some(ToolTerminal::Failed(kind, failure)),
        _ => None,
    }
}

/// Whether a failure can come of an invocation that was never started.
pub open spec fn fails_unstarted(kind: ToolFailureKind) -> bool {
    kind == ToolFailureKind::TimedOut || kind == ToolFailureKind::Cancelled || kind
        == ToolFailureKind::ProviderUnavailable
}

/// Whether a use of a tool can be left uncertain: repeating it might do harm.
pub open spec fn can_be_uncertain(class: EffectClass) -> bool {
    class == EffectClass::Transactional || class == EffectClass::NonIdempotent || class
        == EffectClass::Unknown
}

/// Where a move takes an invocation and its effect.
#[derive(Clone, Copy, PartialEq, Eq, Debug, Structural)]
pub struct ToolStep {
    pub phase: ToolPhase,
    pub terminal: Option<ToolTerminal>,
    pub effect_phase: EffectPhase,
    pub effect_terminal: Option<EffectTerminal>,
}

/// Where a move takes an invocation that is not over; nothing where it is not open.
pub open spec fn tool_step(
    current: ToolInvocationSnapshot,
    effect: EffectEntry,
    transition: ToolTransition,
    output_valid: bool,
) -> Option<ToolStep> {
    match transition {
        ToolTransition::Start => if current.phase == ToolPhase::Reserved {
            Some(
                ToolStep {
                    phase: ToolPhase::Started,
                    terminal: None,
                    effect_phase: EffectPhase::Started,
                    effect_terminal: None,
                },
            )
        } else {
            None
        },
        ToolTransition::Complete(result) => if current.phase == ToolPhase::Started && output_valid {
            Some(
                ToolStep {
                    phase: ToolPhase::Completed,
                    terminal: Some(ToolTerminal::Completed(result)),
                    effect_phase: EffectPhase::Completed,
                    effect_terminal: Some(EffectTerminal::Completed(Some(result))),
                },
            )
        } else {
            None
        },
        ToolTransition::Fail(kind, failure) => if current.phase == ToolPhase::Started || (
        current.phase == ToolPhase::Reserved && fails_unstarted(kind)) {
            Some(
                ToolStep {
                    phase: ToolPhase::Failed,
                    terminal: Some(ToolTerminal::Failed(kind, failure)),
                    effect_phase: EffectPhase::Failed,
                    effect_terminal: Some(EffectTerminal::Failed(EffectFailure::Tool(kind))),
                },
            )
        } else {
            None
        },
        ToolTransition::MarkUncertain => if current.phase == ToolPhase::Started && can_be_uncertain(
            effect.effect_class,
        ) {
            Some(
                ToolStep {
                    phase: ToolPhase::Uncertain,
                    terminal: None,
                    effect_phase: EffectPhase::Uncertain,
                    effect_terminal: None,
                },
            )
        } else {
            None
        },
        ToolTransition::RequestCancel(_) => if current.phase == ToolPhase::Reserved || current.phase
            == ToolPhase::Started {
            Some(
                ToolStep {
                    phase: current.phase,
                    terminal: current.terminal,
                    effect_phase: effect.phase,
                    effect_terminal: effect.terminal,
                },
            )
        } else {
            None
        },
    }
}

fn take_tool_step(
    current: ToolInvocationSnapshot,
    effect: EffectEntry,
    transition: ToolTransition,
    output_valid: bool,
) -> (step: Option<ToolStep>)
    ensures
        step == tool_step(current, effect, transition, output_valid),
{
    match transition {
        ToolTransition::Start => if current.phase == ToolPhase::Reserved {
            Some(
                ToolStep {
                    phase: ToolPhase::Started,
                    terminal: None,
                    effect_phase: EffectPhase::Started,
                    effect_terminal: None,
                },
            )
        } else {
            None
        },
        ToolTransition::Complete(result) => if current.phase == ToolPhase::Started && output_valid {
            Some(
                ToolStep {
                    phase: ToolPhase::Completed,
                    terminal: Some(ToolTerminal::Completed(result)),
                    effect_phase: EffectPhase::Completed,
                    effect_terminal: Some(EffectTerminal::Completed(Some(result))),
                },
            )
        } else {
            None
        },
        ToolTransition::Fail(kind, failure) => {
            let unstarted: bool = kind == ToolFailureKind::TimedOut || kind
                == ToolFailureKind::Cancelled || kind == ToolFailureKind::ProviderUnavailable;
            if current.phase == ToolPhase::Started || (current.phase == ToolPhase::Reserved
                && unstarted) {
                Some(
                    ToolStep {
                        phase: ToolPhase::Failed,
                        terminal: Some(ToolTerminal::Failed(kind, failure)),
                        effect_phase: EffectPhase::Failed,
                        effect_terminal: Some(EffectTerminal::Failed(EffectFailure::Tool(kind))),
                    },
                )
            } else {
                None
            }
        },
        ToolTransition::MarkUncertain => {
            let class: EffectClass = effect.effect_class;
            if current.phase == ToolPhase::Started && (class == EffectClass::Transactional || class
                == EffectClass::NonIdempotent || class == EffectClass::Unknown) {
                Some(
                    ToolStep {
                        phase: ToolPhase::Uncertain,
                        terminal: None,
                        effect_phase: EffectPhase::Uncertain,
                        effect_terminal: None,
                    },
                )
            } else {
                None
            }
        },
        ToolTransition::RequestCancel(_) => if current.phase == ToolPhase::Reserved || current.phase
            == ToolPhase::Started {
            Some(
                ToolStep {
                    phase: current.phase,
                    terminal: current.terminal,
                    effect_phase: effect.phase,
                    effect_terminal: effect.terminal,
                },
            )
        } else {
            None
        },
    }
}

/// The dispatch after a move, and the sequence number that then comes next, where one was used.
pub open spec fn dispatch_after(
    command: TransitionToolInvocation,
    dispatch: ToolDispatch,
    provider: ProviderRow,
) -> Result<(ToolDispatch, Option<u64>), StoreError> {
    let spoken = ToolDispatch {
        connection_generation: Some(command.connection_generation),
        ..dispatch
    };
    match command.transition {
        ToolTransition::Complete(result) => Ok(
            (ToolDispatch { terminal_digest: Some(result), ..spoken }, None),
        ),
        ToolTransition::Fail(_, failure) => Ok(
            (ToolDispatch { terminal_digest: Some(failure), ..spoken }, None),
        ),
        ToolTransition::RequestCancel(id) => if dispatch.cancellation_id is Some {
            Err(StoreError::RequestConflict { request_id: command.request_id })
        } else if provider.next_server_sequence < 0 || provider.next_server_sequence == i64::MAX {
            Err(StoreError::Corrupt)
        } else {
            Ok(
                (
                    ToolDispatch {
                        cancellation_id: Some(id),
                        cancellation_server_sequence: Some(provider.next_server_sequence as u64),
                        ..spoken
                    },
                    Some((provider.next_server_sequence + 1) as u64),
                ),
            )
        },
        _ => Ok((spoken, None)),
    }
}

fn make_dispatch(
    command: TransitionToolInvocation,
    dispatch: ToolDispatch,
    provider: ProviderRow,
) -> (result: Result<(ToolDispatch, Option<u64>), StoreError>)
    ensures
        result == dispatch_after(command, dispatch, provider),
{
    let mut spoken: ToolDispatch = dispatch;
    spoken.connection_generation = Some(command.connection_generation);
    match command.transition {
        ToolTransition::Complete(result) => {
            spoken.terminal_digest = Some(result);
            Ok((spoken, None))
        },
        ToolTransition::Fail(_, failure) => {
            spoken.terminal_digest = Some(failure);
            Ok((spoken, None))
        },
        ToolTransition::RequestCancel(id) => {
            if dispatch.cancellation_id.is_some() {
                return Err(StoreError::RequestConflict { request_id: command.request_id });
            }
            if provider.next_server_sequence < 0 || provider.next_server_sequence == i64::MAX {
                return Err(StoreError::Corrupt);
            }
            spoken.cancellation_id = Some(id);
            spoken.cancellation_server_sequence = Some(provider.next_server_sequence as u64);
            Ok((spoken, Some(provider.next_server_sequence as u64 + 1)))
        },
        _ => Ok((spoken, None)),
    }
}

/// Whether a move is refused before the phase of the invocation is looked at.
pub open spec fn tool_obstacle(
    command: TransitionToolInvocation,
    facts: TransitionToolFacts,
) -> Option<
    StoreError,
> {
    if facts.current.revision != command.expected_revision {
        Some(StoreError::Invalid)
    } else if facts.effect is None {
        Some(StoreError::Corrupt)
    } else if facts.effect->Some_0.owner_epoch != command.owner_epoch {
        Some(StoreError::Invalid)
    } else if connection_obstacle(command, facts) is Some {
        connection_obstacle(command, facts)
    } else if command.transition is Start && !may_start(facts) {
        Some(StoreError::Invalid)
    } else if command.transition is RequestCancel && !facts.current.definition.cancellable {
        Some(StoreError::Invalid)
    } else {
        None
    }
}

/// The outcome of a move of an invocation.
///
/// One that is over only takes its own end again. Else the invocation, its dispatch and its
/// effect move together.
pub open spec fn tool_transition_outcome(
    command: TransitionToolInvocation,
    facts: TransitionToolFacts,
    now: Timestamp,
) -> Result<ToolTransitionPlan, StoreError> {
    let current = facts.current;
    if tool_obstacle(command, facts) is Some {
        Err(tool_obstacle(command, facts)->Some_0)
    } else {
        let effect = facts.effect->Some_0;
        let grant = if command.transition is Start {
            spent(facts.grant, now)
        } else {
            None
        };
        if over(current.phase) {
            if requested_terminal(command.transition) != current.terminal {
                Err(StoreError::RequestConflict { request_id: command.request_id })
            } else {
                Ok(ToolTransitionPlan { plan: ToolPlan::Repeated(current), grant })
            }
        } else {
            match tool_step(current, effect, command.transition, facts.output_valid) {
                None => Err(StoreError::Invalid),
                Some(step) => match current.revision.spec_next() {
                    None => Err(StoreError::Corrupt),
                    Some(revision) => match dispatch_after(
                        command,
                        current.dispatch,
                        facts.provider->Some_0,
                    ) {
                        Err(error) => Err(error),
                        Ok((dispatch, next_server_sequence)) => Ok(
                            ToolTransitionPlan {
                                plan: ToolPlan::Moved {
                                    invocation: ToolInvocationSnapshot {
                                        phase: step.phase,
                                        terminal: step.terminal,
                                        revision,
                                        dispatch,
                                        ..current
                                    },
                                    effect: EffectEntry {
                                        phase: step.effect_phase,
                                        terminal: step.effect_terminal,
                                        revision,
                                        ..effect
                                    },
                                    next_server_sequence,
                                },
                                grant,
                            },
                        ),
                    },
                },
            }
        }
    }
}

/// Decides a move of an invocation, at the time floor of its session.
pub fn transition_tool(
    command: TransitionToolInvocation,
    facts: TransitionToolFacts,
    now: Timestamp,
) -> (result: Result<ToolTransitionPlan, StoreError>)
    ensures
        result == tool_transition_outcome(command, facts, now),
{
    let current: ToolInvocationSnapshot = facts.current;
    if current.revision != command.expected_revision {
        return Err(StoreError::Invalid);
    }
    let effect: EffectEntry = match facts.effect {
        Some(effect) => effect,
        None => {
            return Err(StoreError::Corrupt);
        },
    };
    if effect.owner_epoch != command.owner_epoch {
        return Err(StoreError::Invalid);
    }
    match check_connection(command, facts) {
        Some(error) => {
            return Err(error);
        },
        None => {},
    }
    let provider: ProviderRow = match facts.provider {
        Some(provider) => provider,
        None => {
            return Err(StoreError::Invalid);
        },
    };
    let mut grant: Option<GrantSnapshot> = None;
    match command.transition {
        ToolTransition::Start => {
            if !check_may_start(facts) {
                return Err(StoreError::Invalid);
            }
            grant = spend_grant(facts.grant, now);
        },
        ToolTransition::RequestCancel(_) => {
            if !current.definition.cancellable {
                return Err(StoreError::Invalid);
            }
        },
        _ => {},
    }
    if current.phase == ToolPhase::Completed || current.phase == ToolPhase::Failed {
        if terminal_of(command.transition) != current.terminal {
            return Err(StoreError::RequestConflict { request_id: command.request_id });
        }
        return Ok(ToolTransitionPlan { plan: ToolPlan::Repeated(current), grant });
    }
    let step: ToolStep = match take_tool_step(
        current,
        effect,
        command.transition,
        facts.output_valid,
    ) {
        Some(step) => step,
        None => {
            return Err(StoreError::Invalid);
        },
    };
    let revision: Revision = match current.revision.next() {
        Some(revision) => revision,
        None => {
            return Err(StoreError::Corrupt);
        },
    };
    let (dispatch, next_server_sequence): (ToolDispatch, Option<u64>) = match make_dispatch(
        command,
        current.dispatch,
        provider,
    ) {
        Ok(dispatch) => dispatch,
        Err(error) => {
            return Err(error);
        },
    };
    Ok(
        ToolTransitionPlan {
            plan: ToolPlan::Moved {
                invocation: ToolInvocationSnapshot {
                    phase: step.phase,
                    terminal: step.terminal,
                    revision,
                    dispatch,
                    ..current
                },
                effect: EffectEntry {
                    phase: step.effect_phase,
                    terminal: step.effect_terminal,
                    revision,
                    ..effect
                },
                next_server_sequence,
            },
            grant,
        },
    )
}

/// The type of the event that tells a move of an invocation.
pub open spec fn tool_event(transition: ToolTransition) -> Seq<char> {
    match transition {
        ToolTransition::Start => "tool.invocation_started"@,
        ToolTransition::Complete(_) => "tool.invocation_completed"@,
        ToolTransition::Fail(..) => "tool.invocation_failed"@,
        ToolTransition::MarkUncertain => "tool.invocation_uncertain"@,
        ToolTransition::RequestCancel(_) => "tool.invocation_cancel_requested"@,
    }
}

/// The type of the event that tells a move of an invocation.
pub fn tool_event_name(transition: ToolTransition) -> (name: &'static str)
    ensures
        name@ == tool_event(transition),
{
    match transition {
        ToolTransition::Start => "tool.invocation_started",
        ToolTransition::Complete(_) => "tool.invocation_completed",
        ToolTransition::Fail(..) => "tool.invocation_failed",
        ToolTransition::MarkUncertain => "tool.invocation_uncertain",
        ToolTransition::RequestCancel(_) => "tool.invocation_cancel_requested",
    }
}

/// Whether a recorded move is one of the same invocation and dispatch.
pub open spec fn same_dispatch(
    command: TransitionToolInvocation,
    recorded: ToolInvocationSnapshot,
    current: ToolInvocationSnapshot,
) -> bool {
    &&& recorded.invocation.invocation_id == command.invocation_id
    &&& recorded.invocation == current.invocation
    &&& recorded.definition == current.definition
    &&& recorded.registration_id == current.registration_id
    &&& recorded.dispatch.dispatch_id == command.dispatch_id
    &&& recorded.dispatch.dispatch_id == current.dispatch.dispatch_id
    &&& recorded.dispatch.provider_id == command.provider_id
    &&& recorded.dispatch.provider_id == current.dispatch.provider_id
    &&& recorded.dispatch.server_sequence == command.server_sequence
    &&& recorded.dispatch.server_sequence == current.dispatch.server_sequence
    &&& recorded.dispatch.deadline == current.dispatch.deadline
}

/// Whether a recorded result is one that the move leads to.
pub open spec fn result_fits(
    command: TransitionToolInvocation,
    recorded: ToolInvocationSnapshot,
    next: Revision,
) -> bool {
    match command.transition {
        ToolTransition::Start => recorded.phase == ToolPhase::Started && recorded.terminal is None
            && recorded.revision == next,
        ToolTransition::Complete(result) => recorded.phase == ToolPhase::Completed
            && recorded.terminal == Some(ToolTerminal::Completed(result)) && (recorded.revision
            == command.expected_revision || recorded.revision == next),
        ToolTransition::Fail(kind, failure) => recorded.phase == ToolPhase::Failed
            && recorded.terminal == Some(ToolTerminal::Failed(kind, failure)) && (
        recorded.revision == command.expected_revision || recorded.revision == next),
        ToolTransition::MarkUncertain => recorded.phase == ToolPhase::Uncertain
            && recorded.terminal is None && recorded.revision == next,
        ToolTransition::RequestCancel(id) => recorded.dispatch.cancellation_id == Some(id)
            && recorded.revision == next && recorded.terminal is None,
    }
}

/// Whether a recorded move still stands.
pub open spec fn tool_move_stands(
    command: TransitionToolInvocation,
    recorded: ToolInvocationSnapshot,
    current: ToolInvocationSnapshot,
) -> bool {
    &&& command.expected_revision.spec_next() matches Some(next)
    &&& same_dispatch(command, recorded, current)
    &&& result_fits(command, recorded, next)
    &&& recorded.terminal is Some ==> recorded.terminal == current.terminal && recorded.phase
        == current.phase
}

/// Checks that a recorded move still stands.
pub fn validate_tool_transition_replay(
    command: TransitionToolInvocation,
    recorded: ToolInvocationSnapshot,
    current: ToolInvocationSnapshot,
) -> (result: Result<(), StoreError>)
    ensures
        result == (if tool_move_stands(command, recorded, current) {
            Ok::<(), StoreError>(())
        } else {
            Err(StoreError::Corrupt)
        }),
{
    let same: bool = recorded.invocation.invocation_id == command.invocation_id
        && recorded.invocation == current.invocation && recorded.definition == current.definition
        && recorded.registration_id == current.registration_id && recorded.dispatch.dispatch_id
        == command.dispatch_id && recorded.dispatch.dispatch_id == current.dispatch.dispatch_id
        && recorded.dispatch.provider_id == command.provider_id && recorded.dispatch.provider_id
        == current.dispatch.provider_id && recorded.dispatch.server_sequence
        == command.server_sequence && recorded.dispatch.server_sequence
        == current.dispatch.server_sequence && recorded.dispatch.deadline
        == current.dispatch.deadline;
    let next: Revision = match command.expected_revision.next() {
        Some(next) => next,
        None => {
            return Err(StoreError::Corrupt);
        },
    };
    let at_either: bool = recorded.revision == command.expected_revision || recorded.revision
        == next;
    let fits: bool = match command.transition {
        ToolTransition::Start => recorded.phase == ToolPhase::Started
            && recorded.terminal.is_none() && recorded.revision == next,
        ToolTransition::Complete(_) => recorded.phase == ToolPhase::Completed && recorded.terminal
            == terminal_of(command.transition) && at_either,
        ToolTransition::Fail(..) => recorded.phase == ToolPhase::Failed && recorded.terminal
            == terminal_of(command.transition) && at_either,
        ToolTransition::MarkUncertain => recorded.phase == ToolPhase::Uncertain
            && recorded.terminal.is_none() && recorded.revision == next,
        ToolTransition::RequestCancel(id) => recorded.dispatch.cancellation_id == Some(id)
            && recorded.revision == next && recorded.terminal.is_none(),
    };
    let authoritative: bool = recorded.terminal.is_none() || (recorded.terminal == current.terminal
        && recorded.phase == current.phase);
    if same && fits && authoritative {
        Ok(())
    } else {
        Err(StoreError::Corrupt)
    }
}

/// The outcome of settling the invocation of an effect that became uncertain.
///
/// An invocation is only confirmed with its result, or given up with a failure: its operation is
/// over, so it is never tried again. Without an invocation there is no end to tell.
pub open spec fn resolved_invocation(
    current: Option<ToolInvocationSnapshot>,
    id: Option<ToolInvocationId>,
    resolution: UncertaintyResolution,
    terminal: Option<ToolTerminal>,
    output_valid: bool,
    effect_revision: Revision,
) -> Result<Option<ToolInvocationSnapshot>, StoreError> {
    match (id, current) {
        (None, _) => if terminal is Some {
            Err(StoreError::Invalid)
        } else {
            Ok(None)
        },
        (Some(_), None) => Err(StoreError::Corrupt),
        (Some(id), Some(current)) => if current.phase != ToolPhase::Uncertain
            || current.invocation.invocation_id != id {
            Err(StoreError::Corrupt)
        } else {
            let phase = match (resolution, terminal) {
                (
                    UncertaintyResolution::ConfirmCompleted,
                    Some(ToolTerminal::Completed(_)),
                ) => if output_valid {
                    Some(ToolPhase::Completed)
                } else {
                    None
                },
                (UncertaintyResolution::DoNotRetry, Some(ToolTerminal::Failed(..))) => Some(
                    ToolPhase::Failed,
                ),
                _ => None,
            };
            match phase {
                None => Err(StoreError::Invalid),
                Some(phase) => Ok(
                    Some(
                        ToolInvocationSnapshot {
                            phase,
                            terminal,
                            revision: effect_revision,
                            dispatch: ToolDispatch {
                                terminal_digest: terminal_digest(terminal),
                                ..current.dispatch
                            },
                            ..current
                        },
                    ),
                ),
            }
        },
    }
}

/// Settles the invocation of an effect that became uncertain.
///
/// `id` is the identity of the invocation, where the effect is that of one; `effect_revision` is
/// the revision that the effect then has.
pub fn resolve_invocation(
    current: Option<ToolInvocationSnapshot>,
    id: Option<ToolInvocationId>,
    resolution: UncertaintyResolution,
    terminal: Option<ToolTerminal>,
    output_valid: bool,
    effect_revision: Revision,
) -> (result: Result<Option<ToolInvocationSnapshot>, StoreError>)
    ensures
        result == resolved_invocation(
            current,
            id,
            resolution,
            terminal,
            output_valid,
            effect_revision,
        ),
{
    let id: ToolInvocationId = match id {
        Some(id) => id,
        None => {
            if terminal.is_some() {
                return Err(StoreError::Invalid);
            }
            return Ok(None);
        },
    };
    let current: ToolInvocationSnapshot = match current {
        Some(current) => current,
        None => {
            return Err(StoreError::Corrupt);
        },
    };
    if current.phase != ToolPhase::Uncertain || current.invocation.invocation_id != id {
        return Err(StoreError::Corrupt);
    }
    let mut after: ToolInvocationSnapshot = current;
    match (resolution, terminal) {
        (UncertaintyResolution::ConfirmCompleted, Some(ToolTerminal::Completed(result))) => {
            if !output_valid {
                return Err(StoreError::Invalid);
            }
            after.phase = ToolPhase::Completed;
            after.dispatch.terminal_digest = Some(result);
        },
        (UncertaintyResolution::DoNotRetry, Some(ToolTerminal::Failed(_, failure))) => {
            after.phase = ToolPhase::Failed;
            after.dispatch.terminal_digest = Some(failure);
        },
        _ => {
            return Err(StoreError::Invalid);
        },
    }
    after.terminal = terminal;
    after.revision = effect_revision;
    Ok(Some(after))
}

/// What was found of the invocation that made an effect, and how it is said to have ended.
#[derive(Clone, Copy, PartialEq, Eq, Debug, Structural)]
pub struct SettlingFacts {
    /// The identity of the invocation, where one made the effect.
    pub invocation_id: Option<ToolInvocationId>,
    pub invocation: Option<ToolInvocationSnapshot>,
    pub terminal: Option<ToolTerminal>,
    /// Whether the tool gives such an output.
    pub output_valid: bool,
}

/// An effect that was settled, what is written of the grant, and the invocation that was settled
/// with it.
#[derive(Clone, Copy, PartialEq, Eq, Debug, Structural)]
pub struct SettledEffect {
    pub effect: EffectEntry,
    pub grant: Option<GrantSnapshot>,
    pub invocation: Option<ToolInvocationSnapshot>,
}

/// The outcome of a wish to settle an effect together with the invocation that made it.
pub open spec fn settle_outcome(
    command: ResolveAuthorizedEffect,
    facts: ResolutionFacts,
    settling: SettlingFacts,
    now: Timestamp,
) -> Result<SettledEffect, StoreError> {
    match resolve_outcome(command, facts, now) {
        Err(error) => Err(error),
        Ok(resolved) => match resolved_invocation(
            settling.invocation,
            settling.invocation_id,
            command.resolution,
            settling.terminal,
            settling.output_valid,
            resolved.effect.revision,
        ) {
            Err(error) => Err(error),
            Ok(invocation) => Ok(
                SettledEffect { effect: resolved.effect, grant: resolved.grant, invocation },
            ),
        },
    }
}

/// Decides a wish to settle an effect together with the invocation that made it, at the time
/// floor of its session.
pub fn settle_authorized_effect(
    command: ResolveAuthorizedEffect,
    facts: ResolutionFacts,
    settling: SettlingFacts,
    now: Timestamp,
) -> (result: Result<SettledEffect, StoreError>)
    requires
        now.wf(),
    ensures
        result == settle_outcome(command, facts, settling, now),
{
    let resolved: ResolvedEffect = match resolve_authorized_effect(command, facts, now) {
        Ok(resolved) => resolved,
        Err(error) => {
            return Err(error);
        },
    };
    match resolve_invocation(
        settling.invocation,
        settling.invocation_id,
        command.resolution,
        settling.terminal,
        settling.output_valid,
        resolved.effect.revision,
    ) {
        Ok(invocation) => Ok(
            SettledEffect { effect: resolved.effect, grant: resolved.grant, invocation },
        ),
        Err(error) => Err(error),
    }
}

/// An effect and the invocation that made it are settled together: both are completed or both
/// have failed, at the same revision. An effect that an invocation made is never tried again.
pub proof fn invocations_settle_with_their_effects(
    command: ResolveAuthorizedEffect,
    facts: ResolutionFacts,
    settling: SettlingFacts,
    now: Timestamp,
)
    requires
        settling.invocation_id is Some,
    ensures
        settle_outcome(command, facts, settling, now) matches Ok(settled) ==> {
            &&& settled.invocation matches Some(invocation)
            &&& invocation.revision == settled.effect.revision
            &&& command.resolution != UncertaintyResolution::RetryWithEffectProof
            &&& (invocation.phase == ToolPhase::Completed && settled.effect.phase
                == EffectPhase::Completed) || (invocation.phase == ToolPhase::Failed
                && settled.effect.phase == EffectPhase::Failed)
        },
{
}

/// Whether the recorded settling of an invocation still stands.
pub open spec fn settling_stands(
    id: Option<ToolInvocationId>,
    tool: Option<ToolInvocationSnapshot>,
    resolution: UncertaintyResolution,
    terminal: Option<ToolTerminal>,
    effect_request_id: RequestId,
) -> bool {
    match (id, terminal) {
        (None, None) => true,
        (Some(_), Some(terminal)) => {
            &&& tool matches Some(tool)
            &&& tool.invocation.request_id == effect_request_id
            &&& tool.terminal == Some(terminal)
            &&& ((resolution == UncertaintyResolution::ConfirmCompleted && tool.phase
                == ToolPhase::Completed) || (resolution == UncertaintyResolution::DoNotRetry
                && tool.phase == ToolPhase::Failed))
        },
        _ => false,
    }
}

/// Checks that the recorded settling of an invocation still stands.
pub fn validate_settling_replay(
    id: Option<ToolInvocationId>,
    tool: Option<ToolInvocationSnapshot>,
    resolution: UncertaintyResolution,
    terminal: Option<ToolTerminal>,
    effect_request_id: RequestId,
) -> (result: Result<(), StoreError>)
    ensures
        result == (if settling_stands(id, tool, resolution, terminal, effect_request_id) {
            Ok::<(), StoreError>(())
        } else {
            Err(StoreError::Corrupt)
        }),
{
    let stands: bool = match (id, terminal) {
        (None, None) => true,
        (Some(_), Some(_)) => match tool {
            Some(tool) => tool.invocation.request_id == effect_request_id && tool.terminal
                == terminal && ((resolution == UncertaintyResolution::ConfirmCompleted && tool.phase
                == ToolPhase::Completed) || (resolution == UncertaintyResolution::DoNotRetry
                && tool.phase == ToolPhase::Failed)),
            None => false,
        },
        _ => false,
    };
    if stands {
        Ok(())
    } else {
        Err(StoreError::Corrupt)
    }
}

/// Finds the invocation that an approved use of leave was made for: at most one is, and it names
/// that use.
///
/// `rows` is how many invocations name the use, and `found` the first of them.
pub fn invocation_of_approval(
    effect_id: RequestId,
    rows: usize,
    found: Option<ToolInvocationSnapshot>,
) -> (result: Result<Option<ToolInvocationSnapshot>, StoreError>)
    ensures
        result == (if rows > 1 {
            Err::<Option<ToolInvocationSnapshot>, StoreError>(StoreError::Corrupt)
        } else if rows == 0 {
            Ok(None)
        } else {
            match found {
                Some(value) if value.invocation.approval_effect_id == Some(effect_id) => Ok(
                    Some(value),
                ),
                _ => Err(StoreError::Corrupt),
            }
        }),
{
    if rows > 1 {
        return Err(StoreError::Corrupt);
    }
    if rows == 0 {
        return Ok(None);
    }
    match found {
        Some(value) => if value.invocation.approval_effect_id == Some(effect_id) {
            Ok(Some(value))
        } else {
            Err(StoreError::Corrupt)
        },
        None => Err(StoreError::Corrupt),
    }
}

/// Checks an invocation that is told to a provider again: it is there, and its own.
pub fn check_provider_replay(
    session_id: SessionId,
    provider_id: ToolProviderId,
    found: Option<ToolInvocationSnapshot>,
) -> (result: Result<ToolInvocationSnapshot, StoreError>)
    ensures
        result == (match found {
            Some(value) if value.invocation.session_id == session_id && value.dispatch.provider_id
                == provider_id => Ok::<ToolInvocationSnapshot, StoreError>(value),
            _ => Err(StoreError::Corrupt),
        }),
{
    match found {
        Some(value) => if value.invocation.session_id == session_id && value.dispatch.provider_id
            == provider_id {
            Ok(value)
        } else {
            Err(StoreError::Corrupt)
        },
        None => Err(StoreError::Corrupt),
    }
}

/// Checks how many rows a listing found: more than it may tell of is refused.
pub fn check_listing(found: usize, max: usize) -> (result: Result<(), StoreError>)
    ensures
        result == (if found > max {
            Err::<(), StoreError>(StoreError::Invalid)
        } else {
            Ok(())
        }),
{
    if found > max {
        Err(StoreError::Invalid)
    } else {
        Ok(())
    }
}

/// A new invocation is sound and is carried by its effect, and each gets a sequence number of
/// its own.
pub proof fn reserved_invocations_are_carried(
    command: ReserveToolInvocation,
    millis: u64,
    facts: ReserveToolFacts,
    now: Timestamp,
)
    ensures
        reserve_tool_outcome(command, millis, facts, now) matches Ok(reserved) ==> {
            &&& reserved.invocation.sound()
            &&& reserved.effect.sound()
            &&& effect_carries(reserved.effect, reserved.invocation)
            &&& reserved.invocation.dispatch.server_sequence < reserved.next_server_sequence
            &&& facts.authorized
        },
{
}

/// An invocation and its effect move together: both stay sound, the effect goes on to carry the
/// invocation, and the revision moves on by one.
pub proof fn invocations_move_with_their_effects(
    command: TransitionToolInvocation,
    facts: TransitionToolFacts,
    now: Timestamp,
)
    requires
        facts.current.sound(),
        facts.effect matches Some(effect) && effect.sound() && effect_carries(
            effect,
            facts.current,
        ),
    ensures
        tool_transition_outcome(command, facts, now) matches Ok(outcome) ==> match outcome.plan {
            ToolPlan::Repeated(current) => current == facts.current && outcome.grant is None,
            ToolPlan::Moved { invocation, effect, .. } => {
                &&& invocation.sound()
                &&& effect.sound()
                &&& effect_carries(effect, invocation)
                &&& invocation.revision.0 == facts.current.revision.0 + 1
                &&& invocation.invocation == facts.current.invocation
            },
        },
{
}

/// An invocation that is over stays as it ended: the same end is taken again and changes
/// nothing, and every other move is refused.
pub proof fn ended_invocations_stay_ended(
    command: TransitionToolInvocation,
    facts: TransitionToolFacts,
    now: Timestamp,
)
    requires
        facts.current.sound(),
        over(facts.current.phase),
    ensures
        tool_transition_outcome(command, facts, now) matches Ok(outcome) ==> outcome.plan
            == ToolPlan::Repeated(facts.current) && requested_terminal(command.transition)
            == facts.current.terminal,
{
}

/// An invocation starts at most once, is not started after it was asked to stop, and only while
/// its use is authorized.
pub proof fn invocations_start_once(
    command: TransitionToolInvocation,
    facts: TransitionToolFacts,
    now: Timestamp,
)
    requires
        facts.current.sound(),
        command.transition is Start,
    ensures
        tool_transition_outcome(command, facts, now) is Ok ==> facts.current.phase
            == ToolPhase::Reserved && facts.current.dispatch.cancellation_id is None
            && facts.authorized && grant_usable(facts.grant),
{
}

/// A move that was carried out still stands when it is asked for again.
pub proof fn tool_moves_replay(
    command: TransitionToolInvocation,
    facts: TransitionToolFacts,
    now: Timestamp,
)
    requires
        facts.current.sound(),
        facts.current.invocation.invocation_id == command.invocation_id,
    ensures
        tool_transition_outcome(command, facts, now) matches Ok(outcome) ==> match outcome.plan {
            ToolPlan::Repeated(current) => command.expected_revision.spec_next() is Some
                ==> tool_move_stands(command, current, current),
            ToolPlan::Moved { invocation, .. } => tool_move_stands(
                command,
                invocation,
                invocation,
            ),
        },
{
}

/// Settling an uncertain invocation leaves it sound and over.
pub proof fn settled_invocations_are_over(
    current: ToolInvocationSnapshot,
    resolution: UncertaintyResolution,
    terminal: Option<ToolTerminal>,
    output_valid: bool,
    effect_revision: Revision,
)
    requires
        current.sound(),
    ensures
        resolved_invocation(
            Some(current),
            Some(current.invocation.invocation_id),
            resolution,
            terminal,
            output_valid,
            effect_revision,
        ) matches Ok(after) ==> {
            &&& after matches Some(after)
            &&& after.sound()
            &&& over(after.phase)
            &&& after.revision == effect_revision
            &&& current.phase == ToolPhase::Uncertain
        },
{
}

} // verus!
