//! Tools: who offers them, who connects to serve them, and what becomes of an invocation.

use crate::effect::{
    EffectClass, EffectEntry, EffectFailure, EffectPhase, EffectTerminal, ResolutionFacts,
    ResolveAuthorizedEffect, ToolFailureKind, UncertaintyResolution,
};
use crate::error::StoreError;
use crate::ids::{
    Digest, RequestId, Revision, SessionId, ToolConnectionId, ToolInvocationId, ToolProviderId,
    ToolRegistrationId,
};
use crate::laws::effects::{may_be_settled, same_effect, same_keeper};
use crate::laws::hierarchies::is_spent;
use crate::time::{lease_end, lease_lasts_its_duration, on_calendar, Timestamp};
use crate::tool::{
    accounted, accounts_for, admit_invocation, all_rebound, check_listing, check_provider_replay, connect_tool_provider,
    count_connection, decode_invocation, decode_registration, find_earlier_invocation,
    invocation_of_approval, numbers, order_registrations, rebind_invocation, register_tool,
    reserve_tool_invocation, resolve_invocation, settle_authorized_effect,
    tool_invocation_projection_matches, transition_tool, validate_connection_replay,
    validate_registration_replay, validate_settling_replay, validate_tool_transition_replay,
    ConnectFacts, ConnectToolProvider, ConnectionCounters, ConnectionPlan,
    ConnectionReplayFacts, DispatchColumns, InvocationFacts, ProviderInvocation, RegisterTool,
    RegisterToolFacts, RegistrationColumns, RegistrationPlan, ReserveToolFacts,
    ReserveToolInvocation, ReservedInvocation, SettledEffect, SettlingFacts, StoredConnection,
    ToolDispatch,
    ToolInvocationSnapshot, ToolPhase, ToolPlan, ToolProviderConnection, ToolRegistration,
    ToolTerminal, ToolTransition, ToolTransitionPlan, TransitionToolFacts,
    TransitionToolInvocation,
};
use vstd::prelude::*;

verus! {

/// A tool is registered once in a session, by the consumer of the session, while there is room;
/// an identity that another tool has is in conflict.
pub proof fn tools_are_registered_once(
    command: RegisterTool,
    facts: RegisterToolFacts,
    max_registrations: u32,
    now: Timestamp,
    result: Result<RegistrationPlan, StoreError>,
)
    requires
        call_ensures(register_tool, (command, facts, max_registrations, now), result),
    ensures
        ({
            let own = facts.aliased matches Some(aliased) ==> aliased.session_id
                == command.session_id && aliased.definition.tool == command.definition.tool;
            &&& (result matches Ok(RegistrationPlan::Create(_))) <==> facts.session_consumer
                == command.consumer && own && facts.existing is None && facts.count + 1
                <= max_registrations
            &&& (result matches Ok(RegistrationPlan::Unchanged(_))) <==> {
                &&& facts.session_consumer == command.consumer
                &&& own
                &&& facts.existing matches Some(existing)
                &&& existing.consumer == command.consumer
                &&& existing.definition == command.definition
                &&& existing.registration_id == command.registration_id
            }
            &&& facts.session_consumer != command.consumer ==> result == Err::<
                RegistrationPlan,
                StoreError,
            >(StoreError::Invalid)
            &&& facts.session_consumer == command.consumer && !own ==> result == Err::<
                RegistrationPlan,
                StoreError,
            >(StoreError::RequestConflict { request_id: command.request_id })
            &&& facts.session_consumer == command.consumer && own && facts.existing is Some
                && result is Err ==> result == Err::<RegistrationPlan, StoreError>(
                StoreError::RequestConflict { request_id: command.request_id },
            )
        }),
        result matches Ok(RegistrationPlan::Unchanged(kept)) ==> facts.existing == Some(kept),
        result matches Ok(RegistrationPlan::Create(written)) ==> {
            &&& written.registration_id == command.registration_id
            &&& written.session_id == command.session_id
            &&& written.consumer == command.consumer
            &&& written.definition == command.definition
            &&& written.revision.0 == 1
            &&& written.registered_at == now
        },
{
}

/// A registration is read back, and told again, only as it was written, and while the consumer is
/// still the session's.
pub proof fn registrations_are_read_back(
    value: ToolRegistration,
    columns: RegistrationColumns,
    session_id: SessionId,
    tool: Digest,
    session_consumer: Option<Digest>,
    result: Result<ToolRegistration, StoreError>,
    command: RegisterTool,
    current: Option<ToolRegistration>,
    replayed: Result<(), StoreError>,
)
    requires
        call_ensures(
            decode_registration,
            (value, columns, session_id, tool, session_consumer),
            result,
        ),
        call_ensures(
            validate_registration_replay,
            (command, value, current, session_consumer),
            replayed,
        ),
    ensures
        result is Ok <==> {
            &&& value.session_id == session_id
            &&& session_consumer == Some(value.consumer)
            &&& value.definition.tool == tool
            &&& columns.session_id == value.session_id
            &&& columns.registration_id == value.registration_id
            &&& columns.tool == value.definition.tool
            &&& columns.consumer == value.consumer
        },
        result matches Ok(read) ==> read == value,
        result matches Err(error) ==> error == StoreError::Corrupt,
        replayed is Ok <==> {
            &&& current == Some(value)
            &&& value.session_id == command.session_id
            &&& value.registration_id == command.registration_id
            &&& value.consumer == command.consumer
            &&& session_consumer == Some(value.consumer)
            &&& value.definition == command.definition
        },
        replayed matches Err(error) ==> error == StoreError::Corrupt,
{
}

/// The registrations that a provider serves are listed in the order of their identities, each
/// once.
pub proof fn registrations_are_ordered(
    ids: Vec<ToolRegistrationId>,
    max: u32,
    ordered: Vec<ToolRegistrationId>,
    one: int,
    other: int,
)
    requires
        call_ensures(
            order_registrations,
            (&ids, max),
            Ok::<Vec<ToolRegistrationId>, StoreError>(ordered),
        ),
    ensures
        1 <= ids@.len() <= max,
        ordered@.len() == ids@.len(),
        0 <= one < other < ordered@.len() ==> ordered@[one].0 < ordered@[other].0,
        0 <= one < other < ids@.len() ==> ids@[one] != ids@[other],
        0 <= one < ids@.len() ==> ordered@.contains(ids@[one]),
{
    if 0 <= one < other < ordered@.len() {
        assert(numbers(ordered@)[one] < numbers(ordered@)[other]);
    }
    if 0 <= one < other < ids@.len() {
        assert(numbers(ids@)[one] != numbers(ids@)[other]);
    }
    if 0 <= one < ids@.len() {
        let number = ids@[one].0;
        assert(numbers(ids@)[one] == number);
        assert(numbers(ids@).contains(number));
        assert(numbers(ordered@).contains(number));
        let at = choose|at: int|
            0 <= at < numbers(ordered@).len() && numbers(ordered@)[at] == number;
        assert(ordered@[at].0 == number);
        assert(ordered@[at] == ids@[one]);
    }
}

/// The number is that of an invocation that is over or was asked to be cancelled, or of such a
/// request.
pub open spec fn is_dealt_with(row: ProviderInvocation, number: int) -> bool {
    ||| row.server_sequence == number && (row.phase is Completed || row.phase is Failed
        || row.cancellation_id is Some)
    ||| row.cancellation_server_sequence matches Some(sequence) && sequence == number
}

/// A provider that connects again is one generation on, and goes on behind what it acknowledges;
/// it acknowledges nothing that was acknowledged before in vain, nothing that was not sent, and
/// nothing that is not dealt with.
pub proof fn connections_go_on_where_they_were(
    command: ConnectToolProvider,
    facts: ConnectFacts,
    previous: StoredConnection,
    number: int,
    result: Result<ConnectionCounters, StoreError>,
)
    requires
        call_ensures(count_connection, (command, &facts), result),
        facts.previous == Some(previous),
    ensures
        result matches Ok(counters) ==> {
            &&& command.consumer == facts.session_consumer
            &&& previous.consumer == command.consumer
            &&& facts.alias matches Some((session, provider)) ==> session == command.session_id
                && provider == command.provider_id
            &&& counters.generation == previous.generation + 1
            &&& counters.next_server_sequence == previous.next_server_sequence
            &&& counters.acknowledged_server_sequence == command.after_server_sequence
            &&& previous.acknowledged_server_sequence <= command.after_server_sequence
                < previous.next_server_sequence
            &&& command.after_server_sequence > previous.acknowledged_server_sequence && 1
                <= number <= command.after_server_sequence ==> exists|i: int|
                0 <= i < facts.invocations@.len() && is_dealt_with(
                    #[trigger] facts.invocations@[i],
                    number,
                )
        },
        command.consumer == facts.session_consumer && previous.consumer == command.consumer
            && facts.alias is None && facts.registration_consumers@.len() == 0
            && previous.generation >= 0 && previous.generation < i64::MAX
            && previous.next_server_sequence >= 0 && previous.acknowledged_server_sequence >= 0
            && command.after_server_sequence == previous.acknowledged_server_sequence
            && command.after_server_sequence < previous.next_server_sequence ==> result is Ok,
        facts.alias matches Some((session, provider)) && (session != command.session_id || provider
            != command.provider_id) && command.consumer == facts.session_consumer
            && facts.registration_consumers@.len() == 0 ==> result == Err::<
            ConnectionCounters,
            StoreError,
        >(StoreError::RequestConflict { request_id: command.request_id }),
        command.consumer != facts.session_consumer ==> result == Err::<
            ConnectionCounters,
            StoreError,
        >(StoreError::Invalid),
{
    let last = command.after_server_sequence;
    if result is Ok && last > previous.acknowledged_server_sequence && 1 <= number <= last {
        let asked = number as u128;
        assert(accounted(facts.invocations@, last, asked));
        let i = choose|i: int|
            0 <= i < facts.invocations@.len() && accounts_for(
                #[trigger] facts.invocations@[i],
                last,
                asked,
            );
        assert(is_dealt_with(facts.invocations@[i], number));
    }
}

/// A provider that connects for the first time starts at one, with nothing acknowledged.
pub proof fn first_connections_start_at_one(
    command: ConnectToolProvider,
    facts: ConnectFacts,
    index: int,
    result: Result<ConnectionCounters, StoreError>,
)
    requires
        call_ensures(count_connection, (command, &facts), result),
        facts.previous is None,
    ensures
        result matches Ok(counters) ==> {
            &&& counters.generation == 1
            &&& counters.next_server_sequence == 1
            &&& counters.acknowledged_server_sequence == 0
            &&& command.after_server_sequence == 0
            &&& 0 <= index < facts.registration_consumers@.len()
                ==> facts.registration_consumers@[index] == Some(command.consumer)
        },
        command.consumer == facts.session_consumer && facts.alias is None
            && facts.registration_consumers@.len() == 0 && command.after_server_sequence == 0
            ==> result is Ok,
{
}

/// The invocation goes over the new connection; nothing else about it changes.
pub open spec fn is_rebound(
    before: ToolInvocationSnapshot,
    connection_id: ToolConnectionId,
    generation: u64,
    after: ToolInvocationSnapshot,
) -> bool {
    &&& after.registration_id == before.registration_id
    &&& after.definition == before.definition
    &&& after.invocation == before.invocation
    &&& after.phase == before.phase
    &&& after.terminal == before.terminal
    &&& after.revision == before.revision
    &&& after.dispatch.connection_id == Some(connection_id)
    &&& after.dispatch.connection_generation == Some(generation)
    &&& after.dispatch.dispatch_id == before.dispatch.dispatch_id
    &&& after.dispatch.provider_id == before.dispatch.provider_id
    &&& after.dispatch.server_sequence == before.dispatch.server_sequence
    &&& after.dispatch.deadline == before.dispatch.deadline
    &&& after.dispatch.cancellation_id == before.dispatch.cancellation_id
    &&& after.dispatch.cancellation_server_sequence == before.dispatch.cancellation_server_sequence
    &&& after.dispatch.terminal_digest == before.dispatch.terminal_digest
}

proof fn lemma_rebound(
    invocations: Seq<ToolInvocationSnapshot>,
    connection_id: ToolConnectionId,
    generation: u64,
)
    ensures
        forall|i: int|
            0 <= i < invocations.len() && !((#[trigger] invocations[i]).phase is Completed)
                && !(invocations[i].phase is Failed) ==> exists|j: int|
                0 <= j < all_rebound(invocations, connection_id, generation).len() && is_rebound(
                    invocations[i],
                    connection_id,
                    generation,
                    #[trigger] all_rebound(invocations, connection_id, generation)[j],
                ),
        forall|j: int|
            0 <= j < all_rebound(invocations, connection_id, generation).len() ==> !((
            #[trigger] all_rebound(invocations, connection_id, generation)[j]).phase is Completed)
                && !(all_rebound(invocations, connection_id, generation)[j].phase is Failed),
        all_rebound(invocations, connection_id, generation).len() <= invocations.len(),
    decreases invocations.len(),
{
    if invocations.len() > 0 {
        let earlier = invocations.drop_last();
        lemma_rebound(earlier, connection_id, generation);
        let before = all_rebound(earlier, connection_id, generation);
        let after = all_rebound(invocations, connection_id, generation);
        assert forall|i: int|
            0 <= i < invocations.len() && !((#[trigger] invocations[i]).phase is Completed)
                && !(invocations[i].phase is Failed) implies exists|j: int|
            0 <= j < after.len() && is_rebound(
                invocations[i],
                connection_id,
                generation,
                #[trigger] after[j],
            ) by {
            if i < earlier.len() {
                assert(earlier[i] == invocations[i]);
                let j = choose|j: int|
                    0 <= j < before.len() && is_rebound(
                        earlier[i],
                        connection_id,
                        generation,
                        #[trigger] before[j],
                    );
                assert(after[j] == before[j]);
            } else {
                assert(is_rebound(
                    invocations[i],
                    connection_id,
                    generation,
                    after[after.len() - 1],
                ));
            }
        }
        assert forall|j: int| 0 <= j < after.len() implies !((#[trigger] after[j]).phase
            is Completed) && !(after[j].phase is Failed) by {
            if j < before.len() {
                assert(after[j] == before[j]);
            }
        }
    }
}

/// A connection is made for the provider as it asked, and every invocation that is not over goes
/// over it from then on; those that are over are left alone.
pub proof fn open_invocations_follow_the_connection(
    command: ConnectToolProvider,
    ids: Vec<ToolRegistrationId>,
    max_registrations: u32,
    facts: ConnectFacts,
    invocations: Vec<ToolInvocationSnapshot>,
    now: Timestamp,
    counters: Result<ConnectionCounters, StoreError>,
    plan: ConnectionPlan,
    index: int,
    alone: ToolInvocationSnapshot,
)
    requires
        call_ensures(
            connect_tool_provider,
            (command, &ids, max_registrations, &facts, &invocations, now),
            Ok::<ConnectionPlan, StoreError>(plan),
        ),
        call_ensures(count_connection, (command, &facts), counters),
        0 <= index < invocations@.len(),
        call_ensures(
            rebind_invocation,
            (
                invocations@[index],
                command.connection_id,
                plan.connection.counters.generation,
            ),
            alone,
        ),
    ensures
        is_rebound(
            invocations@[index],
            command.connection_id,
            plan.connection.counters.generation,
            alone,
        ),
        plan.connection.session_id == command.session_id,
        plan.connection.consumer == command.consumer,
        plan.connection.provider_id == command.provider_id,
        plan.connection.connection_id == command.connection_id,
        counters == Ok::<ConnectionCounters, StoreError>(plan.connection.counters),
        plan.connection.connected_at == now,
        !(invocations@[index].phase is Completed) && !(invocations@[index].phase is Failed)
            ==> exists|j: int|
            0 <= j < plan.rebound@.len() && is_rebound(
                invocations@[index],
                command.connection_id,
                plan.connection.counters.generation,
                #[trigger] plan.rebound@[j],
            ),
        forall|j: int|
            0 <= j < plan.rebound@.len() ==> !((#[trigger] plan.rebound@[j]).phase is Completed)
                && !(plan.rebound@[j].phase is Failed),
        plan.rebound@.len() <= invocations@.len(),
{
    lemma_rebound(invocations@, command.connection_id, plan.connection.counters.generation);
    let all = all_rebound(
        invocations@,
        command.connection_id,
        plan.connection.counters.generation,
    );
    if !(invocations@[index].phase is Completed) && !(invocations@[index].phase is Failed) {
        let j = choose|j: int|
            0 <= j < all.len() && is_rebound(
                invocations@[index],
                command.connection_id,
                plan.connection.counters.generation,
                #[trigger] all[j],
            );
        assert(plan.rebound@[j] == all[j]);
    }
    assert forall|j: int| 0 <= j < plan.rebound@.len() implies !((#[trigger] plan.rebound@[j]).phase
        is Completed) && !(plan.rebound@[j].phase is Failed) by {
        assert(plan.rebound@[j] == all[j]);
    }
}

/// A connection that is told again must be the one that was asked for, and not be ahead of what
/// the store knows of it.
pub proof fn recorded_connections_are_checked(
    command: ConnectToolProvider,
    ordered: Vec<ToolRegistrationId>,
    value: ToolProviderConnection,
    facts: ConnectionReplayFacts,
    index: int,
    result: Result<(), StoreError>,
)
    requires
        call_ensures(validate_connection_replay, (command, &ordered, &value, &facts), result),
    ensures
        result is Ok ==> {
            &&& facts.structurally_valid
            &&& value.connected_at.seconds == facts.occurred_at.0
            &&& value.connected_at.nanos == facts.occurred_at.1
            &&& value.session_id == command.session_id
            &&& value.consumer == command.consumer
            &&& value.provider_id == command.provider_id
            &&& value.connection_id == command.connection_id
            &&& value.registration_ids@ == ordered@
            &&& value.counters.acknowledged_server_sequence == command.after_server_sequence
            &&& facts.durable.consumer == command.consumer
            &&& value.counters.generation <= facts.durable.generation
            &&& value.counters.acknowledged_server_sequence
                <= facts.durable.acknowledged_server_sequence
            &&& value.counters.next_server_sequence <= facts.durable.next_server_sequence
            &&& 0 <= index < ordered@.len() ==> {
                &&& facts.registrations@[index] matches Some(registration)
                &&& registration.session_id == value.session_id
                &&& registration.consumer == value.consumer
                &&& registration.registration_id == ordered@[index]
                &&& facts.consumers@[index] == value.consumer
            }
        },
        result matches Err(error) ==> error == StoreError::Corrupt,
{
    if 0 <= index < ordered@.len() {
        let id = ordered@[index];
    }
}

/// What is kept beside an invocation, so that it can be found by it.
pub open spec fn is_kept_beside(dispatch: ToolDispatch, columns: DispatchColumns) -> bool {
    &&& columns.dispatch_id == dispatch.dispatch_id
    &&& columns.provider_id == dispatch.provider_id
    &&& columns.server_sequence == dispatch.server_sequence
    &&& columns.deadline_seconds == dispatch.deadline.seconds
    &&& columns.deadline_nanos == dispatch.deadline.nanos
    &&& columns.cancellation_id == dispatch.cancellation_id
    &&& columns.terminal_digest == dispatch.terminal_digest
    &&& dispatch.connection_generation is None ==> columns.connection_generation is None
    &&& dispatch.connection_generation matches Some(generation) ==> generation <= i64::MAX ==> (
    columns.connection_generation matches Some(kept) && kept == generation)
    &&& dispatch.cancellation_server_sequence is None ==> columns.cancellation_server_sequence
        is None
    &&& dispatch.cancellation_server_sequence matches Some(sequence) ==> sequence <= i64::MAX ==> (
    columns.cancellation_server_sequence matches Some(kept) && kept == sequence)
}

/// The effect that an invocation has is where the invocation is: a reserved one may also have
/// been allowed once more, and a failed one may have been completed.
pub open spec fn keeps_step(value: ToolInvocationSnapshot, effect: EffectEntry) -> bool {
    &&& match value.phase {
        ToolPhase::Reserved => effect.phase is Reserved || effect.phase is RetryAuthorized,
        ToolPhase::Started => effect.phase is Started,
        ToolPhase::Uncertain => effect.phase is Uncertain,
        ToolPhase::Completed => effect.phase is Completed,
        ToolPhase::Failed => effect.phase is Completed || effect.phase is Failed,
    }
    &&& effect.revision == value.revision
    &&& effect.session_id == value.invocation.session_id
    &&& effect.participant_id == value.invocation.participant_id
    &&& effect.operation_id == value.invocation.operation_id
    &&& effect.action == value.definition.required_authority
    &&& effect.effect_class == value.definition.effect_class
}

/// An invocation is read back only together with its effect, its participant, its operation and
/// its registration.
pub proof fn stored_invocations_are_coherent(
    value: ToolInvocationSnapshot,
    id: ToolInvocationId,
    facts: InvocationFacts,
    result: Result<ToolInvocationSnapshot, StoreError>,
    beside: bool,
)
    requires
        call_ensures(decode_invocation, (value, id, facts), result),
        call_ensures(
            tool_invocation_projection_matches,
            (value.dispatch, facts.columns.dispatch),
            beside,
        ),
    ensures
        beside ==> is_kept_beside(value.dispatch, facts.columns.dispatch),
        value.dispatch.connection_generation is None && value.dispatch.cancellation_server_sequence
            is None ==> (beside <==> is_kept_beside(value.dispatch, facts.columns.dispatch)),
        result is Ok <==> {
            let invocation = value.invocation;
            &&& beside
            &&& invocation.invocation_id == id
            &&& facts.columns.effect_request_id == invocation.request_id
            &&& facts.columns.session_id == invocation.session_id
            &&& facts.columns.participant_id == invocation.participant_id
            &&& facts.columns.operation_id == invocation.operation_id
            &&& facts.columns.tool == invocation.tool
            &&& facts.columns.registration_id == value.registration_id
            &&& facts.effect matches Some(effect)
            &&& keeps_step(value, effect)
            &&& facts.participant matches Some(participant)
            &&& participant.session_id == invocation.session_id
            &&& facts.operation matches Some(operation)
            &&& operation.session_id == invocation.session_id
            &&& operation.participant_id == invocation.participant_id
            &&& facts.registration matches Some(registration)
            &&& registration.registration_id == value.registration_id
            &&& registration.definition == value.definition
        },
        result matches Ok(read) ==> read == value,
        result matches Err(error) ==> error == StoreError::Corrupt,
{
}

/// An invocation goes under the identity of its effect, for a lease of whole milliseconds that is
/// not longer than allowed.
pub proof fn invocations_go_under_their_effect(
    command: ReserveToolInvocation,
    max_lease_millis: u64,
    result: Result<u64, StoreError>,
)
    requires
        call_ensures(admit_invocation, (command, max_lease_millis), result),
    ensures
        result is Ok <==> command.request_id == command.invocation.request_id
            && command.lease_nanos > 0 && command.lease_nanos < (max_lease_millis + 1) * 1_000_000,
        result matches Ok(millis) ==> millis * 1_000_000 <= command.lease_nanos < (millis + 1)
            * 1_000_000,
        result matches Err(error) ==> error == StoreError::Invalid,
{
}

/// An invocation that is there is found again only by the same caller, in the same epoch, with
/// the same invocation and content.
pub proof fn invocations_are_found_again(
    command: ReserveToolInvocation,
    under_request: Option<ToolInvocationId>,
    existing: Option<ToolInvocationSnapshot>,
    effect: Option<EffectEntry>,
    result: Result<Option<ToolInvocationSnapshot>, StoreError>,
)
    requires
        call_ensures(
            find_earlier_invocation,
            (command, under_request, existing, effect),
            result,
        ),
    ensures
        ({
            let own = under_request matches Some(other) ==> other
                == command.invocation.invocation_id;
            &&& !own ==> result == Err::<Option<ToolInvocationSnapshot>, StoreError>(
                StoreError::RequestConflict { request_id: command.request_id },
            )
            &&& own && existing is None ==> result == Ok::<
                Option<ToolInvocationSnapshot>,
                StoreError,
            >(None)
            &&& own && existing is Some && effect is None ==> result == Err::<
                Option<ToolInvocationSnapshot>,
                StoreError,
            >(StoreError::Corrupt)
            &&& own && existing is Some && effect is Some ==> {
                let same = existing->Some_0.invocation == command.invocation
                    && effect->Some_0.caller == command.caller && effect->Some_0.owner_epoch
                    == command.owner_epoch && effect->Some_0.semantic_digest == command.digest;
                &&& same ==> result == Ok::<Option<ToolInvocationSnapshot>, StoreError>(existing)
                &&& !same ==> result == Err::<Option<ToolInvocationSnapshot>, StoreError>(
                    StoreError::RequestConflict { request_id: command.request_id },
                )
            }
        }),
{
}

/// The tool is registered as named and served by a provider, the input is valid, and the deadline
/// lies ahead, within the time that the tool is given.
pub open spec fn can_be_invoked(
    command: ReserveToolInvocation,
    facts: ReserveToolFacts,
    now: Timestamp,
) -> bool {
    &&& facts.registration matches Some(registration)
    &&& registration.registration_id == command.registration_id
    &&& facts.input_valid
    &&& facts.provider matches Some(provider)
    &&& provider.lists_registration
    &&& provider.generation >= 0
    &&& 0 <= provider.next_server_sequence < i64::MAX
    &&& now.instant() < command.deadline.instant()
    &&& command.deadline.instant() - now.instant() <= registration.definition.timeout_millis
        * 1_000_000
    &&& facts.participant matches Some(participant)
    &&& participant.session_id == command.invocation.session_id
    &&& facts.operation matches Some(operation)
    &&& operation.session_id == command.invocation.session_id
    &&& operation.participant_id == command.invocation.participant_id
    &&& operation.state is Running || operation.state is Waiting
    &&& facts.authorized
    &&& facts.grant matches Some(grant) ==> grant.consumed_at is None
}

/// An invocation is reserved with the next number of its provider, together with the effect that
/// it has.
pub proof fn invocations_are_reserved_with_their_effect(
    command: ReserveToolInvocation,
    millis: u64,
    facts: ReserveToolFacts,
    now: Timestamp,
    result: Result<ReservedInvocation, StoreError>,
)
    requires
        call_ensures(reserve_tool_invocation, (command, millis, facts, now), result),
        now.wf(),
    ensures
        result matches Ok(reserved) ==> {
            let definition = facts.registration->Some_0.definition;
            let provider = facts.provider->Some_0;
            let invocation = reserved.invocation;
            let effect = reserved.effect;
            &&& can_be_invoked(command, facts, now)
            &&& invocation.registration_id == command.registration_id
            &&& invocation.definition == definition
            &&& invocation.invocation == command.invocation
            &&& invocation.phase is Reserved
            &&& invocation.terminal is None
            &&& invocation.revision.0 == 1
            &&& invocation.dispatch.dispatch_id == command.dispatch_id
            &&& invocation.dispatch.provider_id == command.provider_id
            &&& invocation.dispatch.server_sequence == provider.next_server_sequence
            &&& invocation.dispatch.deadline == command.deadline
            &&& invocation.dispatch.connection_id == Some(provider.connection_id)
            &&& invocation.dispatch.connection_generation matches Some(generation)
            &&& generation == provider.generation
            &&& invocation.dispatch.cancellation_id is None
            &&& invocation.dispatch.cancellation_server_sequence is None
            &&& invocation.dispatch.terminal_digest is None
            &&& reserved.next_server_sequence == provider.next_server_sequence + 1
            &&& effect.request_id == command.request_id
            &&& effect.session_id == command.invocation.session_id
            &&& effect.participant_id == command.invocation.participant_id
            &&& effect.operation_id == command.invocation.operation_id
            &&& effect.caller == command.caller
            &&& effect.action == definition.required_authority
            &&& effect.semantic_digest == command.digest
            &&& effect.effect_class == definition.effect_class
            &&& effect.contract == facts.contract
            &&& effect.phase is Reserved
            &&& effect.owner_host == command.caller
            &&& effect.owner_epoch == command.owner_epoch
            &&& effect.lease_expires_at.instant() == now.instant() + millis * 1_000_000
            &&& effect.terminal is None
            &&& effect.revision.0 == 1
        },
        can_be_invoked(command, facts, now) && millis <= i64::MAX && on_calendar(
            now.seconds as int,
        ) && on_calendar((now.instant() + millis * 1_000_000) / 1_000_000_000) ==> result is Ok,
        facts.registration is None || facts.provider is None || !facts.input_valid ==> result
            == Err::<ReservedInvocation, StoreError>(StoreError::Invalid),
{
    if lease_end(now, millis) is Ok {
        lease_lasts_its_duration(now, millis, millis);
    }
}

/// The provider speaks for this invocation, over the connection that it has now, and the caller
/// knows it as it is.
pub open spec fn speaks_for(
    command: TransitionToolInvocation,
    facts: TransitionToolFacts,
) -> bool {
    let dispatch = facts.current.dispatch;
    &&& facts.current.revision == command.expected_revision
    &&& facts.effect matches Some(effect)
    &&& effect.owner_epoch == command.owner_epoch
    &&& facts.provider matches Some(provider)
    &&& command.provider_id == dispatch.provider_id
    &&& dispatch.connection_id == Some(command.connection_id)
    &&& command.dispatch_id == dispatch.dispatch_id
    &&& command.server_sequence == dispatch.server_sequence
    &&& command.connection_generation > 0
    &&& provider.connection_id == command.connection_id
    &&& provider.generation == command.connection_generation
}

/// What must hold for each step: starting needs a running operation, authority and no request to
/// cancel; completing needs a valid output; only what was started can be uncertain, and only if
/// it may do harm twice; cancelling must be possible and not have been asked for.
pub open spec fn may_step(command: TransitionToolInvocation, facts: TransitionToolFacts) -> bool {
    let current = facts.current;
    let effect = facts.effect->Some_0;
    match command.transition {
        ToolTransition::Start => {
            &&& current.phase is Reserved
            &&& current.dispatch.cancellation_id is None
            &&& facts.participant matches Some(participant)
            &&& participant.session_id == current.invocation.session_id
            &&& facts.operation matches Some(operation)
            &&& operation.session_id == current.invocation.session_id
            &&& operation.participant_id == participant.participant_id
            &&& operation.state is Running
            &&& facts.authorized
            &&& facts.grant matches Some(grant) ==> grant.consumed_at is None
        },
        ToolTransition::Complete(_) => current.phase is Started && facts.output_valid,
        ToolTransition::Fail(kind, _) => current.phase is Started || (current.phase is Reserved && (
        kind is TimedOut || kind is Cancelled || kind is ProviderUnavailable)),
        ToolTransition::MarkUncertain => current.phase is Started && !(effect.effect_class
            is ReadOnly) && !(effect.effect_class is Idempotent),
        ToolTransition::RequestCancel(_) => {
            &&& current.definition.cancellable
            &&& current.phase is Reserved || current.phase is Started
            &&& current.dispatch.cancellation_id is None
            &&& 0 <= facts.provider->Some_0.next_server_sequence < i64::MAX
        },
    }
}

/// What each step makes of an invocation and of its effect.
pub open spec fn is_stepped(
    command: TransitionToolInvocation,
    facts: TransitionToolFacts,
    invocation: ToolInvocationSnapshot,
    effect: EffectEntry,
    next_server_sequence: Option<u64>,
) -> bool {
    let before = facts.current;
    let provider = facts.provider->Some_0;
    &&& invocation.registration_id == before.registration_id
    &&& invocation.definition == before.definition
    &&& invocation.invocation == before.invocation
    &&& invocation.revision.0 == before.revision.0 + 1
    &&& invocation.dispatch.dispatch_id == before.dispatch.dispatch_id
    &&& invocation.dispatch.provider_id == before.dispatch.provider_id
    &&& invocation.dispatch.server_sequence == before.dispatch.server_sequence
    &&& invocation.dispatch.deadline == before.dispatch.deadline
    &&& invocation.dispatch.connection_id == before.dispatch.connection_id
    &&& invocation.dispatch.connection_generation == Some(command.connection_generation)
    &&& same_effect(facts.effect->Some_0, effect)
    &&& same_keeper(facts.effect->Some_0, effect)
    &&& effect.revision == invocation.revision
    &&& command.transition is RequestCancel || invocation.dispatch.cancellation_id
        == before.dispatch.cancellation_id
    &&& command.transition is RequestCancel || invocation.dispatch.cancellation_server_sequence
        == before.dispatch.cancellation_server_sequence
    &&& command.transition is RequestCancel || next_server_sequence is None
    &&& match command.transition {
        ToolTransition::Start => {
            &&& invocation.phase is Started && effect.phase is Started
            &&& invocation.terminal is None && effect.terminal is None
            &&& invocation.dispatch.terminal_digest == before.dispatch.terminal_digest
        },
        ToolTransition::Complete(output) => {
            &&& invocation.phase is Completed && effect.phase is Completed
            &&& invocation.terminal == Some(ToolTerminal::Completed(output))
            &&& effect.terminal == Some(EffectTerminal::Completed(Some(output)))
            &&& invocation.dispatch.terminal_digest == Some(output)
        },
        ToolTransition::Fail(kind, failure) => {
            &&& invocation.phase is Failed && effect.phase is Failed
            &&& invocation.terminal == Some(ToolTerminal::Failed(kind, failure))
            &&& effect.terminal == Some(EffectTerminal::Failed(EffectFailure::Tool(kind)))
            &&& invocation.dispatch.terminal_digest == Some(failure)
        },
        ToolTransition::MarkUncertain => {
            &&& invocation.phase is Uncertain && effect.phase is Uncertain
            &&& invocation.terminal is None && effect.terminal is None
            &&& invocation.dispatch.terminal_digest == before.dispatch.terminal_digest
        },
        ToolTransition::RequestCancel(id) => {
            &&& invocation.phase == before.phase && effect.phase == facts.effect->Some_0.phase
            &&& invocation.terminal == before.terminal
            &&& effect.terminal == facts.effect->Some_0.terminal
            &&& invocation.dispatch.terminal_digest == before.dispatch.terminal_digest
            &&& invocation.dispatch.cancellation_id == Some(id)
            &&& invocation.dispatch.cancellation_server_sequence matches Some(sequence)
            &&& sequence == provider.next_server_sequence
            &&& next_server_sequence matches Some(next)
            &&& next == provider.next_server_sequence + 1
        },
    }
}

/// An invocation that is not over takes exactly the step that is asked for, if its provider
/// speaks for it and the step can be taken; its effect takes it too. Starting uses up a grant
/// that was for one use.
pub proof fn invocations_step_with_their_effect(
    command: TransitionToolInvocation,
    facts: TransitionToolFacts,
    now: Timestamp,
    result: Result<ToolTransitionPlan, StoreError>,
)
    requires
        call_ensures(transition_tool, (command, facts, now), result),
        !(facts.current.phase is Completed),
        !(facts.current.phase is Failed),
    ensures
        result is Ok <==> speaks_for(command, facts) && may_step(command, facts)
            && facts.current.revision.0 < u64::MAX,
        result matches Ok(outcome) ==> {
            &&& outcome.plan matches ToolPlan::Moved { invocation, effect, next_server_sequence }
            &&& is_stepped(command, facts, invocation, effect, next_server_sequence)
            &&& command.transition is Start ==> is_spent(facts.grant, now, outcome.grant)
            &&& !(command.transition is Start) ==> outcome.grant is None
        },
        facts.effect is Some && !speaks_for(command, facts) && (facts.provider matches Some(
            provider,
        ) ==> provider.generation >= 0) ==> result == Err::<ToolTransitionPlan, StoreError>(
            StoreError::Invalid,
        ),
        facts.current.revision == command.expected_revision && facts.effect is None ==> result
            == Err::<ToolTransitionPlan, StoreError>(StoreError::Corrupt),
{
}

/// An invocation that is over is only told again, to whoever asks for the same end; any other end
/// is a conflict.
pub proof fn ends_of_invocations_are_told_again(
    command: TransitionToolInvocation,
    facts: TransitionToolFacts,
    now: Timestamp,
    result: Result<ToolTransitionPlan, StoreError>,
)
    requires
        call_ensures(transition_tool, (command, facts, now), result),
        facts.current.phase is Completed || facts.current.phase is Failed,
        speaks_for(command, facts),
        command.transition is Complete || command.transition is Fail,
    ensures
        ({
            let asked = match command.transition {
                ToolTransition::Complete(output) => Some(ToolTerminal::Completed(output)),
                ToolTransition::Fail(kind, failure) => Some(ToolTerminal::Failed(kind, failure)),
                _ => None,
            };
            &&& asked == facts.current.terminal ==> result == Ok::<ToolTransitionPlan, StoreError>(
                ToolTransitionPlan { plan: ToolPlan::Repeated(facts.current), grant: None },
            )
            &&& asked != facts.current.terminal ==> result == Err::<
                ToolTransitionPlan,
                StoreError,
            >(StoreError::RequestConflict { request_id: command.request_id })
        }),
{
}

/// A step that is told again must be the step that was taken, of this invocation.
pub proof fn recorded_steps_are_checked(
    command: TransitionToolInvocation,
    recorded: ToolInvocationSnapshot,
    current: ToolInvocationSnapshot,
    result: Result<(), StoreError>,
)
    requires
        call_ensures(validate_tool_transition_replay, (command, recorded, current), result),
    ensures
        result is Ok <==> {
            let next = command.expected_revision.0 + 1;
            &&& command.expected_revision.0 < u64::MAX
            &&& recorded.invocation.invocation_id == command.invocation_id
            &&& recorded.invocation == current.invocation
            &&& recorded.definition == current.definition
            &&& recorded.registration_id == current.registration_id
            &&& recorded.dispatch.dispatch_id == command.dispatch_id
            &&& recorded.dispatch.dispatch_id == current.dispatch.dispatch_id
            &&& recorded.dispatch.provider_id == command.provider_id
            &&& recorded.dispatch.provider_id == current.dispatch.provider_id
            &&& recorded.dispatch.server_sequence == command.server_sequence
            &&& recorded.dispatch.server_sequence == current.dispatch.server_sequence
            &&& recorded.dispatch.deadline == current.dispatch.deadline
            &&& recorded.terminal is Some ==> recorded.terminal == current.terminal
                && recorded.phase == current.phase
            &&& match command.transition {
                ToolTransition::Start => recorded.phase is Started && recorded.terminal is None
                    && recorded.revision.0 == next,
                ToolTransition::Complete(output) => recorded.phase is Completed
                    && recorded.terminal == Some(ToolTerminal::Completed(output)) && (
                recorded.revision.0 == next || recorded.revision == command.expected_revision),
                ToolTransition::Fail(kind, failure) => recorded.phase is Failed
                    && recorded.terminal == Some(ToolTerminal::Failed(kind, failure)) && (
                recorded.revision.0 == next || recorded.revision == command.expected_revision),
                ToolTransition::MarkUncertain => recorded.phase is Uncertain && recorded.terminal
                    is None && recorded.revision.0 == next,
                ToolTransition::RequestCancel(id) => recorded.dispatch.cancellation_id == Some(id)
                    && recorded.terminal is None && recorded.revision.0 == next,
            }
        },
        result matches Err(error) ==> error == StoreError::Corrupt,
{
}

/// An uncertain invocation is settled with its effect: completed with a valid output, or failed.
/// It cannot be tried again, and where there is no invocation nothing is reported of one.
pub proof fn uncertain_invocations_are_settled(
    current: Option<ToolInvocationSnapshot>,
    id: Option<ToolInvocationId>,
    resolution: UncertaintyResolution,
    terminal: Option<ToolTerminal>,
    output_valid: bool,
    effect_revision: Revision,
    result: Result<Option<ToolInvocationSnapshot>, StoreError>,
)
    requires
        call_ensures(
            resolve_invocation,
            (current, id, resolution, terminal, output_valid, effect_revision),
            result,
        ),
    ensures
        id is None ==> {
            &&& terminal is None ==> result == Ok::<Option<ToolInvocationSnapshot>, StoreError>(
                None,
            )
            &&& terminal is Some ==> result == Err::<Option<ToolInvocationSnapshot>, StoreError>(
                StoreError::Invalid,
            )
        },
        id is Some && (current is None || !(current->Some_0.phase is Uncertain)
            || current->Some_0.invocation.invocation_id != id->Some_0) ==> result == Err::<
            Option<ToolInvocationSnapshot>,
            StoreError,
        >(StoreError::Corrupt),
        (result matches Ok(Some(_))) <==> {
            &&& id matches Some(id)
            &&& current matches Some(before)
            &&& before.phase is Uncertain
            &&& before.invocation.invocation_id == id
            &&& (resolution is ConfirmCompleted && (terminal matches Some(
                ToolTerminal::Completed(_),
            )) && output_valid) || (resolution is DoNotRetry && (terminal matches Some(
                ToolTerminal::Failed(..),
            )))
        },
        result matches Ok(Some(after)) ==> {
            let before = current->Some_0;
            &&& after.registration_id == before.registration_id
            &&& after.definition == before.definition
            &&& after.invocation == before.invocation
            &&& after.terminal == terminal
            &&& after.revision == effect_revision
            &&& resolution is ConfirmCompleted ==> after.phase is Completed
            &&& resolution is DoNotRetry ==> after.phase is Failed
            &&& terminal matches Some(ToolTerminal::Completed(digest)) ==> after.dispatch
                == (ToolDispatch { terminal_digest: Some(digest), ..before.dispatch })
            &&& terminal matches Some(ToolTerminal::Failed(_, digest)) ==> after.dispatch
                == (ToolDispatch { terminal_digest: Some(digest), ..before.dispatch })
        },
{
}

/// An effect is settled together with its invocation, where it has one: both or neither.
pub proof fn effects_and_invocations_are_settled_together(
    command: ResolveAuthorizedEffect,
    facts: ResolutionFacts,
    settling: SettlingFacts,
    now: Timestamp,
    result: Result<SettledEffect, StoreError>,
)
    requires
        call_ensures(settle_authorized_effect, (command, facts, settling, now), result),
    ensures
        result matches Ok(settled) ==> {
            let before = facts.effect->Some_0;
            &&& may_be_settled(command, facts)
            &&& same_effect(before, settled.effect)
            &&& settled.effect.revision.0 == before.revision.0 + 1
            &&& command.resolution is ConfirmCompleted ==> settled.effect.phase is Completed
            &&& command.resolution is DoNotRetry ==> settled.effect.phase is Failed
            &&& command.resolution is RetryWithEffectProof ==> settled.effect.phase
                is RetryAuthorized
            &&& is_spent(facts.grant, now, settled.grant)
            &&& settled.invocation is Some <==> settling.invocation_id is Some
            &&& settled.invocation matches Some(invocation) ==> {
                &&& settling.invocation matches Some(earlier)
                &&& earlier.phase is Uncertain
                &&& invocation.invocation == earlier.invocation
                &&& invocation.revision == settled.effect.revision
                &&& invocation.terminal == settling.terminal
                &&& invocation.phase is Completed <==> settled.effect.phase is Completed
                &&& invocation.phase is Failed <==> settled.effect.phase is Failed
            }
        },
        !may_be_settled(command, facts) ==> result == Err::<SettledEffect, StoreError>(
            StoreError::Invalid,
        ),
        may_be_settled(command, facts) && facts.effect->Some_0.revision.0 < u64::MAX
            && settling.invocation_id is None && settling.terminal is None && !(command.resolution
            is RetryWithEffectProof) ==> result is Ok,
{
}

/// A settling of an invocation that is told again must have left it with this end, under the
/// effect that was settled.
pub proof fn recorded_settlings_of_invocations_are_checked(
    id: Option<ToolInvocationId>,
    tool: Option<ToolInvocationSnapshot>,
    resolution: UncertaintyResolution,
    terminal: Option<ToolTerminal>,
    effect_request_id: RequestId,
    result: Result<(), StoreError>,
)
    requires
        call_ensures(
            validate_settling_replay,
            (id, tool, resolution, terminal, effect_request_id),
            result,
        ),
    ensures
        result is Ok <==> (id is None && terminal is None) || {
            &&& id is Some
            &&& terminal is Some
            &&& tool matches Some(settled)
            &&& settled.invocation.request_id == effect_request_id
            &&& settled.terminal == terminal
            &&& (resolution is ConfirmCompleted && settled.phase is Completed) || (resolution
                is DoNotRetry && settled.phase is Failed)
        },
        result matches Err(error) ==> error == StoreError::Corrupt,
{
}

/// Of an approval's effect at most one invocation is known, and it is that effect's; what a
/// provider is told again is its own, in its session; and a listing stays within its limit.
pub proof fn listings_hold_what_was_asked_for(
    effect_id: RequestId,
    rows: usize,
    found: Option<ToolInvocationSnapshot>,
    result: Result<Option<ToolInvocationSnapshot>, StoreError>,
    session_id: SessionId,
    provider_id: ToolProviderId,
    replayed: Result<ToolInvocationSnapshot, StoreError>,
    max: usize,
    listed: Result<(), StoreError>,
)
    requires
        call_ensures(invocation_of_approval, (effect_id, rows, found), result),
        call_ensures(check_provider_replay, (session_id, provider_id, found), replayed),
        call_ensures(check_listing, (rows, max), listed),
    ensures
        (result matches Ok(None)) <==> rows == 0,
        (result matches Ok(Some(_))) <==> rows == 1 && (found matches Some(value)
            && value.invocation.approval_effect_id == Some(effect_id)),
        result matches Ok(Some(value)) ==> found == Some(value),
        result matches Err(error) ==> error == StoreError::Corrupt,
        replayed is Ok <==> (found matches Some(value) && value.invocation.session_id == session_id
            && value.dispatch.provider_id == provider_id),
        replayed matches Ok(value) ==> found == Some(value),
        replayed matches Err(error) ==> error == StoreError::Corrupt,
        listed is Ok <==> rows <= max,
        listed matches Err(error) ==> error == StoreError::Invalid,
{
}

} // verus!
