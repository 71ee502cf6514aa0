use navigator_store::authority::{Grant, GrantSnapshot};
use navigator_store::effect::{
    EffectClass, EffectEntry, EffectFailure, EffectPhase, EffectTerminal, ResolutionContract,
    ResolutionFacts, ResolveAuthorizedEffect, ToolFailureKind, UncertaintyResolution,
};
use navigator_store::error::StoreError;
use navigator_store::ids::{
    Digest, FencingEpoch, GrantId, HostId, MessageId, OperationId, ParticipantId, RequestId,
    Revision, SessionId, TemplateId, ToolCancellationId, ToolConnectionId, ToolDispatchId,
    ToolInvocationId, ToolProviderId, ToolRegistrationId,
};
use navigator_store::operation::{OperationSnapshot, OperationState, ParticipantSnapshot};
use navigator_store::payload::{tool_invocation_event_payload, ToolTexts};
use navigator_store::time::Timestamp;
use navigator_store::tool::{
    admit_invocation, check_listing, check_provider_replay, connect_tool_provider, count_connection,
    decode_invocation, decode_registration, find_earlier_invocation, invocation_of_approval,
    order_registrations, rebind_invocation, register_tool, reserve_tool_invocation,
    resolve_invocation, settle_authorized_effect, tool_event_name,
    tool_invocation_projection_matches, transition_tool,
    validate_connection_replay, validate_registration_replay, validate_settling_replay,
    validate_tool_transition_replay, ConnectFacts, ConnectToolProvider, ConnectionCounters,
    ConnectionReplayFacts, DispatchColumns, InvocationColumns, InvocationFacts, ProviderInvocation,
    ProviderRow, RegisterTool, RegisterToolFacts, RegistrationColumns, RegistrationPlan,
    ReserveToolFacts, ReserveToolInvocation, SettlingFacts, StoredConnection, ToolDefinition,
    ToolDispatch,
    ToolInvocation, ToolInvocationSnapshot, ToolPhase, ToolPlan, ToolProviderConnection,
    ToolRegistration, ToolTerminal, ToolTransition, TransitionToolFacts, TransitionToolInvocation,
};

const SESSION: SessionId = SessionId(1);
const ME: HostId = HostId(100);
const EPOCH: FencingEpoch = FencingEpoch(3);

fn at(seconds: i64) -> Timestamp {
    Timestamp { seconds, nanos: 0 }
}

fn digest(n: u128) -> Digest {
    Digest { high: n, low: n }
}

fn definition() -> ToolDefinition {
    ToolDefinition {
        tool: digest(1),
        identity: digest(2),
        required_authority: digest(3),
        effect_class: EffectClass::Transactional,
        cancellable: true,
        timeout_millis: 60_000,
    }
}

fn registration() -> ToolRegistration {
    ToolRegistration {
        registration_id: ToolRegistrationId(50),
        session_id: SESSION,
        consumer: digest(4),
        definition: definition(),
        revision: Revision(1),
        registered_at: at(10),
    }
}

fn register() -> RegisterTool {
    RegisterTool {
        request_id: RequestId(1),
        session_id: SESSION,
        registration_id: ToolRegistrationId(50),
        consumer: digest(4),
        definition: definition(),
    }
}

fn register_facts() -> RegisterToolFacts {
    RegisterToolFacts { session_consumer: digest(4), aliased: None, existing: None, count: 0 }
}

fn invocation() -> ToolInvocation {
    ToolInvocation {
        invocation_id: ToolInvocationId(60),
        request_id: RequestId(2),
        session_id: SESSION,
        participant_id: ParticipantId(10),
        operation_id: OperationId(20),
        tool: digest(1),
        grant_id: Some(GrantId(80)),
        approval_effect_id: Some(RequestId(90)),
        input: digest(5),
    }
}

fn snapshot(phase: ToolPhase) -> ToolInvocationSnapshot {
    ToolInvocationSnapshot {
        registration_id: ToolRegistrationId(50),
        definition: definition(),
        invocation: invocation(),
        phase,
        terminal: None,
        revision: Revision(1),
        dispatch: ToolDispatch {
            dispatch_id: ToolDispatchId(70),
            provider_id: ToolProviderId(71),
            server_sequence: 4,
            deadline: at(150),
            connection_id: Some(ToolConnectionId(72)),
            connection_generation: Some(2),
            cancellation_id: None,
            cancellation_server_sequence: None,
            terminal_digest: None,
        },
    }
}

fn effect(phase: EffectPhase) -> EffectEntry {
    EffectEntry {
        request_id: RequestId(2),
        session_id: SESSION,
        participant_id: ParticipantId(10),
        operation_id: OperationId(20),
        caller: ME,
        action: digest(3),
        semantic_digest: digest(6),
        effect_class: EffectClass::Transactional,
        contract: ResolutionContract { identity: digest(7), allow_do_not_retry: true },
        phase,
        owner_host: ME,
        owner_epoch: EPOCH,
        lease_expires_at: at(110),
        terminal: None,
        revision: Revision(1),
    }
}

fn participant() -> ParticipantSnapshot {
    ParticipantSnapshot {
        session_id: SESSION,
        participant_id: ParticipantId(10),
        parent_participant_id: None,
        depth: 1,
        template_id: TemplateId(5),
        template_compatibility: digest(5),
        revision: Revision(1),
    }
}

fn operation(state: OperationState) -> OperationSnapshot {
    OperationSnapshot {
        session_id: SESSION,
        operation_id: OperationId(20),
        participant_id: ParticipantId(10),
        start_request_id: RequestId(40),
        input_message_id: MessageId(30),
        waiting_on_message_id: None,
        input_digest: digest(6),
        state,
        revision: Revision(3),
        terminal_outcome: None,
        created_at: at(50),
        updated_at: at(60),
    }
}

fn provider() -> ProviderRow {
    ProviderRow {
        connection_id: ToolConnectionId(72),
        generation: 2,
        next_server_sequence: 4,
        lists_registration: true,
    }
}

fn grant(consumed_at: Option<Timestamp>) -> GrantSnapshot {
    GrantSnapshot {
        grant: Grant {
            id: GrantId(80),
            session_id: SESSION,
            subject: ParticipantId(10),
            authority: digest(8),
            revoked: false,
        },
        single_use: true,
        consumed_at,
    }
}

fn reserve() -> ReserveToolInvocation {
    ReserveToolInvocation {
        request_id: RequestId(2),
        caller: ME,
        owner_epoch: EPOCH,
        registration_id: ToolRegistrationId(50),
        invocation: invocation(),
        dispatch_id: ToolDispatchId(70),
        provider_id: ToolProviderId(71),
        deadline: at(150),
        digest: digest(6),
        lease_nanos: 10_000_000_000,
    }
}

fn reserve_facts() -> ReserveToolFacts {
    ReserveToolFacts {
        registration: Some(registration()),
        input_valid: true,
        provider: Some(provider()),
        participant: Some(participant()),
        operation: Some(operation(OperationState::Running)),
        grant: Some(grant(None)),
        authorized: true,
        contract: ResolutionContract { identity: digest(7), allow_do_not_retry: true },
    }
}

fn step(transition: ToolTransition) -> TransitionToolInvocation {
    TransitionToolInvocation {
        request_id: RequestId(3),
        owner_epoch: EPOCH,
        invocation_id: ToolInvocationId(60),
        expected_revision: Revision(1),
        provider_id: ToolProviderId(71),
        connection_id: ToolConnectionId(72),
        connection_generation: 2,
        dispatch_id: ToolDispatchId(70),
        server_sequence: 4,
        transition,
    }
}

fn step_facts(current: ToolInvocationSnapshot, phase: EffectPhase) -> TransitionToolFacts {
    TransitionToolFacts {
        current,
        effect: Some(effect(phase)),
        provider: Some(provider()),
        participant: Some(participant()),
        operation: Some(operation(OperationState::Running)),
        grant: Some(grant(None)),
        authorized: true,
        output_valid: true,
    }
}

fn connect(after: u64) -> ConnectToolProvider {
    ConnectToolProvider {
        request_id: RequestId(4),
        session_id: SESSION,
        consumer: digest(4),
        provider_id: ToolProviderId(71),
        connection_id: ToolConnectionId(73),
        after_server_sequence: after,
    }
}

fn stored(generation: i64, acknowledged: i64, next: i64) -> StoredConnection {
    StoredConnection {
        consumer: digest(4),
        generation,
        acknowledged_server_sequence: acknowledged,
        next_server_sequence: next,
    }
}

fn connect_facts(
    previous: Option<StoredConnection>,
    invocations: Vec<ProviderInvocation>,
) -> ConnectFacts {
    ConnectFacts {
        session_consumer: digest(4),
        registration_consumers: vec![Some(digest(4))],
        alias: None,
        previous,
        invocations,
    }
}

fn told(sequence: i64, phase: ToolPhase, cancelled_at: Option<i64>) -> ProviderInvocation {
    ProviderInvocation {
        server_sequence: sequence,
        cancellation_server_sequence: cancelled_at,
        phase,
        cancellation_id: cancelled_at.map(|_| ToolCancellationId(1)),
    }
}

#[test]
fn tools_are_registered_once() {
    assert_eq!(
        register_tool(register(), register_facts(), 64, at(10)),
        Ok(RegistrationPlan::Create(registration()))
    );
    assert_eq!(
        register_tool(
            register(),
            RegisterToolFacts {
                existing: Some(registration()),
                aliased: Some(registration()),
                ..register_facts()
            },
            64,
            at(20)
        ),
        Ok(RegistrationPlan::Unchanged(registration()))
    );
    let conflict = Err(StoreError::RequestConflict { request_id: RequestId(1) });
    let elsewhere = ToolRegistration { session_id: SessionId(2), ..registration() };
    assert_eq!(
        register_tool(
            register(),
            RegisterToolFacts { aliased: Some(elsewhere), ..register_facts() },
            64,
            at(20)
        ),
        conflict
    );
    let renamed = ToolRegistration { registration_id: ToolRegistrationId(51), ..registration() };
    assert_eq!(
        register_tool(
            register(),
            RegisterToolFacts { existing: Some(renamed), ..register_facts() },
            64,
            at(20)
        ),
        Err(StoreError::RequestConflict { request_id: RequestId(1) })
    );
    assert_eq!(
        register_tool(register(), RegisterToolFacts { count: 64, ..register_facts() }, 64, at(20)),
        Err(StoreError::Invalid)
    );
    assert_eq!(
        register_tool(
            register(),
            RegisterToolFacts { session_consumer: digest(9), ..register_facts() },
            64,
            at(20)
        ),
        Err(StoreError::Invalid)
    );
    assert_eq!(
        validate_registration_replay(register(), registration(), Some(registration()), Some(digest(4))),
        Ok(())
    );
    assert_eq!(
        validate_registration_replay(register(), registration(), None, Some(digest(4))),
        Err(StoreError::Corrupt)
    );
    let columns = RegistrationColumns {
        session_id: SESSION,
        registration_id: ToolRegistrationId(50),
        tool: digest(1),
        consumer: digest(4),
    };
    assert_eq!(
        decode_registration(registration(), columns, SESSION, digest(1), Some(digest(4))),
        Ok(registration())
    );
    assert_eq!(
        decode_registration(registration(), columns, SESSION, digest(1), None),
        Err(StoreError::Corrupt)
    );
}

#[test]
fn providers_name_their_registrations_once() {
    let id = ToolRegistrationId;
    assert_eq!(
        order_registrations(&vec![id(3), id(1), id(2)], 3),
        Ok(vec![id(1), id(2), id(3)])
    );
    assert_eq!(order_registrations(&vec![id(3), id(3)], 3), Err(StoreError::Invalid));
    assert_eq!(order_registrations(&Vec::new(), 3), Err(StoreError::Invalid));
    assert_eq!(order_registrations(&vec![id(1), id(2)], 1), Err(StoreError::Invalid));
}

#[test]
fn providers_connect_from_where_they_were() {
    assert_eq!(
        count_connection(connect(0), &connect_facts(None, Vec::new())),
        Ok(ConnectionCounters {
            generation: 1,
            next_server_sequence: 1,
            acknowledged_server_sequence: 0,
        })
    );
    assert_eq!(
        count_connection(connect(2), &connect_facts(Some(stored(5, 2, 9)), Vec::new())),
        Ok(ConnectionCounters {
            generation: 6,
            next_server_sequence: 9,
            acknowledged_server_sequence: 2,
        })
    );
    for after in [1, 9, 10] {
        assert_eq!(
            count_connection(connect(after), &connect_facts(Some(stored(5, 2, 9)), Vec::new())),
            Err(StoreError::Invalid)
        );
    }
    assert_eq!(
        count_connection(connect(0), &connect_facts(Some(stored(-1, 0, 1)), Vec::new())),
        Err(StoreError::Corrupt)
    );
    let taken = ConnectFacts {
        alias: Some((SESSION, ToolProviderId(99))),
        ..connect_facts(None, Vec::new())
    };
    assert_eq!(
        count_connection(connect(0), &taken),
        Err(StoreError::RequestConflict { request_id: RequestId(4) })
    );
    let foreign = ConnectFacts {
        registration_consumers: vec![Some(digest(4)), None],
        ..connect_facts(None, Vec::new())
    };
    assert_eq!(count_connection(connect(0), &foreign), Err(StoreError::Invalid));
}

#[test]
fn a_new_connection_takes_over_what_waits() {
    let ids = vec![ToolRegistrationId(51), ToolRegistrationId(50)];
    let known = vec![
        snapshot(ToolPhase::Completed),
        snapshot(ToolPhase::Reserved),
        snapshot(ToolPhase::Started),
        snapshot(ToolPhase::Failed),
        snapshot(ToolPhase::Uncertain),
    ];
    let facts = connect_facts(Some(stored(5, 2, 9)), Vec::new());
    let plan = connect_tool_provider(connect(2), &ids, 2, &facts, &known, at(77)).unwrap();
    assert_eq!(
        plan.connection.registration_ids,
        vec![ToolRegistrationId(50), ToolRegistrationId(51)]
    );
    assert_eq!(plan.connection.session_id, SESSION);
    assert_eq!(plan.connection.consumer, digest(4));
    assert_eq!(plan.connection.provider_id, ToolProviderId(71));
    assert_eq!(plan.connection.connection_id, ToolConnectionId(73));
    assert_eq!(
        plan.connection.counters,
        ConnectionCounters {
            generation: 6,
            next_server_sequence: 9,
            acknowledged_server_sequence: 2,
        }
    );
    assert_eq!(plan.connection.connected_at, at(77));
    let bound: Vec<ToolInvocationSnapshot> = [known[1], known[2], known[4]]
        .iter()
        .map(|value| rebind_invocation(*value, ToolConnectionId(73), 6))
        .collect();
    assert_eq!(plan.rebound, bound);
    assert_eq!(bound[0].dispatch.connection_generation, Some(6));
    assert_eq!(
        connect_tool_provider(connect(2), &ids, 1, &facts, &known, at(77)).err(),
        Some(StoreError::Invalid)
    );
    assert_eq!(
        connect_tool_provider(connect(1), &ids, 2, &facts, &known, at(77)).err(),
        Some(StoreError::Invalid)
    );
    let broken = connect_facts(Some(stored(-1, 0, 1)), Vec::new());
    assert_eq!(
        connect_tool_provider(connect(0), &ids, 2, &broken, &known, at(77)).err(),
        Some(StoreError::Corrupt)
    );
}

#[test]
fn only_settled_invocations_are_acknowledged() {
    let previous = Some(stored(1, 0, 5));
    let settled = vec![
        told(1, ToolPhase::Completed, None),
        told(2, ToolPhase::Started, Some(3)),
        told(4, ToolPhase::Started, None),
    ];
    let counters = count_connection(connect(3), &connect_facts(previous, settled)).unwrap();
    assert_eq!(counters.acknowledged_server_sequence, 3);
    let open = vec![
        told(1, ToolPhase::Completed, None),
        told(2, ToolPhase::Started, None),
        told(3, ToolPhase::Failed, None),
    ];
    assert_eq!(
        count_connection(connect(3), &connect_facts(previous, open)),
        Err(StoreError::Invalid)
    );
    let broken = vec![told(1, ToolPhase::Completed, None), told(-2, ToolPhase::Completed, None)];
    assert_eq!(
        count_connection(connect(1), &connect_facts(previous, broken)),
        Err(StoreError::Corrupt)
    );
}

#[test]
fn recorded_connections_are_checked() {
    let ordered = vec![ToolRegistrationId(50)];
    let value = ToolProviderConnection {
        session_id: SESSION,
        consumer: digest(4),
        provider_id: ToolProviderId(71),
        connection_id: ToolConnectionId(73),
        registration_ids: vec![ToolRegistrationId(50)],
        counters: ConnectionCounters {
            generation: 2,
            next_server_sequence: 5,
            acknowledged_server_sequence: 3,
        },
        connected_at: at(10),
    };
    let facts = |generation: i64, registration: Option<ToolRegistration>| ConnectionReplayFacts {
        structurally_valid: true,
        occurred_at: (10, 0),
        durable: stored(generation, 4, 7),
        registrations: vec![registration],
        consumers: vec![digest(4)],
    };
    assert_eq!(
        validate_connection_replay(connect(3), &ordered, &value, &facts(2, Some(registration()))),
        Ok(())
    );
    assert_eq!(
        validate_connection_replay(connect(3), &ordered, &value, &facts(1, Some(registration()))),
        Err(StoreError::Corrupt)
    );
    assert_eq!(
        validate_connection_replay(connect(3), &ordered, &value, &facts(2, None)),
        Err(StoreError::Corrupt)
    );
    assert_eq!(
        validate_connection_replay(connect(2), &ordered, &value, &facts(2, Some(registration()))),
        Err(StoreError::Corrupt)
    );
    let moved = rebind_invocation(snapshot(ToolPhase::Started), ToolConnectionId(73), 6);
    assert_eq!(moved.dispatch.connection_id, Some(ToolConnectionId(73)));
    assert_eq!(moved.dispatch.connection_generation, Some(6));
    assert_eq!(moved.phase, ToolPhase::Started);
}

#[test]
fn invocations_are_reserved_with_their_effect() {
    assert_eq!(admit_invocation(reserve(), 300_000), Ok(10_000));
    assert_eq!(admit_invocation(reserve(), 9_999), Err(StoreError::Invalid));
    assert_eq!(
        admit_invocation(ReserveToolInvocation { request_id: RequestId(9), ..reserve() }, 300_000),
        Err(StoreError::Invalid)
    );
    let reserved = reserve_tool_invocation(reserve(), 10_000, reserve_facts(), at(100)).unwrap();
    assert_eq!(reserved.invocation, snapshot(ToolPhase::Reserved));
    assert_eq!(reserved.effect, effect(EffectPhase::Reserved));
    assert_eq!(reserved.next_server_sequence, 5);
    for wrong in [
        ReserveToolFacts { registration: None, ..reserve_facts() },
        ReserveToolFacts { input_valid: false, ..reserve_facts() },
        ReserveToolFacts { provider: None, ..reserve_facts() },
        ReserveToolFacts { authorized: false, ..reserve_facts() },
        ReserveToolFacts { grant: Some(grant(Some(at(1)))), ..reserve_facts() },
        ReserveToolFacts { operation: Some(operation(OperationState::Queued)), ..reserve_facts() },
        ReserveToolFacts { participant: None, ..reserve_facts() },
    ] {
        assert_eq!(
            reserve_tool_invocation(reserve(), 10_000, wrong, at(100)),
            Err(StoreError::Invalid)
        );
    }
    for now in [89, 150] {
        assert_eq!(
            reserve_tool_invocation(reserve(), 10_000, reserve_facts(), at(now)),
            Err(StoreError::Invalid)
        );
    }
    assert!(reserve_tool_invocation(reserve(), 10_000, reserve_facts(), at(90)).is_ok());
    let last = ProviderRow { next_server_sequence: i64::MAX, ..provider() };
    assert_eq!(
        reserve_tool_invocation(
            reserve(),
            10_000,
            ReserveToolFacts { provider: Some(last), ..reserve_facts() },
            at(100)
        ),
        Err(StoreError::Corrupt)
    );
}

#[test]
fn a_repeated_wish_finds_its_invocation() {
    let found = snapshot(ToolPhase::Started);
    let started = Some(effect(EffectPhase::Started));
    assert_eq!(find_earlier_invocation(reserve(), None, None, None), Ok(None));
    assert_eq!(
        find_earlier_invocation(reserve(), Some(ToolInvocationId(60)), Some(found), started),
        Ok(Some(found))
    );
    assert_eq!(
        find_earlier_invocation(reserve(), None, Some(found), None),
        Err(StoreError::Corrupt)
    );
    let conflict = Err(StoreError::RequestConflict { request_id: RequestId(2) });
    assert_eq!(
        find_earlier_invocation(reserve(), Some(ToolInvocationId(61)), None, None),
        conflict
    );
    let other = ReserveToolInvocation { digest: digest(9), ..reserve() };
    assert_eq!(
        find_earlier_invocation(other, None, Some(found), started),
        Err(StoreError::RequestConflict { request_id: RequestId(2) })
    );
}

#[test]
fn invocations_start_once_and_only_with_authority() {
    let reserved = snapshot(ToolPhase::Reserved);
    let facts = step_facts(reserved, EffectPhase::Reserved);
    let outcome = transition_tool(step(ToolTransition::Start), facts, at(100)).unwrap();
    assert_eq!(outcome.grant, Some(grant(Some(at(100)))));
    match outcome.plan {
        ToolPlan::Moved { invocation, effect, next_server_sequence } => {
            assert_eq!(invocation.phase, ToolPhase::Started);
            assert_eq!(effect.phase, EffectPhase::Started);
            assert_eq!(invocation.revision, Revision(2));
            assert_eq!(effect.revision, Revision(2));
            assert_eq!(next_server_sequence, None);
        }
        ToolPlan::Repeated(_) => panic!("the invocation starts"),
    }
    let cancelled = ToolInvocationSnapshot {
        dispatch: ToolDispatch {
            cancellation_id: Some(ToolCancellationId(1)),
            cancellation_server_sequence: Some(3),
            ..reserved.dispatch
        },
        ..reserved
    };
    for wrong in [
        step_facts(cancelled, EffectPhase::Reserved),
        TransitionToolFacts { authorized: false, ..facts },
        TransitionToolFacts { grant: Some(grant(Some(at(1)))), ..facts },
        TransitionToolFacts { operation: Some(operation(OperationState::Waiting)), ..facts },
        TransitionToolFacts { provider: None, ..facts },
        step_facts(snapshot(ToolPhase::Started), EffectPhase::Started),
    ] {
        assert_eq!(
            transition_tool(step(ToolTransition::Start), wrong, at(100)),
            Err(StoreError::Invalid)
        );
    }
    assert_eq!(
        transition_tool(
            step(ToolTransition::Start),
            TransitionToolFacts { effect: None, ..facts },
            at(100)
        ),
        Err(StoreError::Corrupt)
    );
    let stale = TransitionToolInvocation { connection_generation: 1, ..step(ToolTransition::Start) };
    assert_eq!(transition_tool(stale, facts, at(100)), Err(StoreError::Invalid));
}

#[test]
fn an_end_is_taken_once_and_then_only_repeated() {
    let started = step_facts(snapshot(ToolPhase::Started), EffectPhase::Started);
    let complete = step(ToolTransition::Complete(digest(9)));
    let done = match transition_tool(complete, started, at(100)).unwrap().plan {
        ToolPlan::Moved { invocation, effect, .. } => {
            assert_eq!(invocation.terminal, Some(ToolTerminal::Completed(digest(9))));
            assert_eq!(invocation.dispatch.terminal_digest, Some(digest(9)));
            assert_eq!(effect.terminal, Some(EffectTerminal::Completed(Some(digest(9)))));
            (invocation, effect)
        }
        ToolPlan::Repeated(_) => panic!("the invocation ends"),
    };
    let ended = TransitionToolFacts { current: done.0, effect: Some(done.1), ..started };
    let again = TransitionToolInvocation { expected_revision: Revision(2), ..complete };
    assert_eq!(
        transition_tool(again, ended, at(101)).unwrap().plan,
        ToolPlan::Repeated(done.0)
    );
    let other = TransitionToolInvocation {
        transition: ToolTransition::Complete(digest(8)),
        ..again
    };
    assert_eq!(
        transition_tool(other, ended, at(101)),
        Err(StoreError::RequestConflict { request_id: RequestId(3) })
    );
    assert_eq!(validate_tool_transition_replay(complete, done.0, done.0), Ok(()));
    assert_eq!(
        validate_tool_transition_replay(complete, done.0, snapshot(ToolPhase::Started)),
        Err(StoreError::Corrupt)
    );
    assert_eq!(
        transition_tool(
            complete,
            TransitionToolFacts { output_valid: false, ..started },
            at(100)
        ),
        Err(StoreError::Invalid)
    );
}

#[test]
fn invocations_fail_are_lost_or_are_asked_to_stop() {
    let reserved = step_facts(snapshot(ToolPhase::Reserved), EffectPhase::Reserved);
    let timed_out = step(ToolTransition::Fail(ToolFailureKind::TimedOut, digest(9)));
    match transition_tool(timed_out, reserved, at(100)).unwrap().plan {
        ToolPlan::Moved { invocation, effect, .. } => {
            assert_eq!(invocation.phase, ToolPhase::Failed);
            assert_eq!(
                effect.terminal,
                Some(EffectTerminal::Failed(EffectFailure::Tool(ToolFailureKind::TimedOut)))
            );
        }
        ToolPlan::Repeated(_) => panic!("the invocation fails"),
    }
    let broke = step(ToolTransition::Fail(ToolFailureKind::Other(digest(1)), digest(9)));
    assert_eq!(transition_tool(broke, reserved, at(100)), Err(StoreError::Invalid));
    let started = step_facts(snapshot(ToolPhase::Started), EffectPhase::Started);
    let lose = step(ToolTransition::MarkUncertain);
    match transition_tool(lose, started, at(100)).unwrap().plan {
        ToolPlan::Moved { invocation, effect, .. } => {
            assert_eq!(invocation.phase, ToolPhase::Uncertain);
            assert_eq!(effect.phase, EffectPhase::Uncertain);
        }
        ToolPlan::Repeated(_) => panic!("the invocation is lost"),
    }
    let harmless = EffectEntry {
        effect_class: EffectClass::ReadOnly,
        ..effect(EffectPhase::Started)
    };
    assert_eq!(
        transition_tool(lose, TransitionToolFacts { effect: Some(harmless), ..started }, at(100)),
        Err(StoreError::Invalid)
    );
    let stop = step(ToolTransition::RequestCancel(ToolCancellationId(5)));
    let stopping = match transition_tool(stop, started, at(100)).unwrap().plan {
        ToolPlan::Moved { invocation, next_server_sequence, .. } => {
            assert_eq!(invocation.dispatch.cancellation_server_sequence, Some(4));
            assert_eq!(next_server_sequence, Some(5));
            invocation
        }
        ToolPlan::Repeated(_) => panic!("the invocation is asked to stop"),
    };
    let again = TransitionToolInvocation { expected_revision: Revision(2), ..stop };
    assert_eq!(
        transition_tool(again, TransitionToolFacts { current: stopping, ..started }, at(100)),
        Err(StoreError::RequestConflict { request_id: RequestId(3) })
    );
    let stubborn = ToolInvocationSnapshot {
        definition: ToolDefinition { cancellable: false, ..definition() },
        ..snapshot(ToolPhase::Started)
    };
    assert_eq!(
        transition_tool(stop, TransitionToolFacts { current: stubborn, ..started }, at(100)),
        Err(StoreError::Invalid)
    );
    assert_eq!(
        tool_event_name(ToolTransition::MarkUncertain),
        "tool.invocation_uncertain"
    );
}

#[test]
fn lost_invocations_are_settled_but_never_retried() {
    let lost = snapshot(ToolPhase::Uncertain);
    let id = Some(ToolInvocationId(60));
    let settle = |resolution, terminal| {
        resolve_invocation(Some(lost), id, resolution, terminal, true, Revision(2))
    };
    let result = ToolTerminal::Completed(digest(9));
    let confirmed =
        settle(UncertaintyResolution::ConfirmCompleted, Some(result)).unwrap().unwrap();
    assert_eq!(confirmed.phase, ToolPhase::Completed);
    assert_eq!(confirmed.dispatch.terminal_digest, Some(digest(9)));
    assert_eq!(confirmed.revision, Revision(2));
    assert_eq!(
        settle(UncertaintyResolution::RetryWithEffectProof, None),
        Err(StoreError::Invalid)
    );
    assert_eq!(settle(UncertaintyResolution::DoNotRetry, Some(result)), Err(StoreError::Invalid));
    let none = UncertaintyResolution::DoNotRetry;
    assert_eq!(resolve_invocation(None, None, none, None, true, Revision(2)), Ok(None));
    assert_eq!(
        resolve_invocation(None, None, none, Some(result), true, Revision(2)),
        Err(StoreError::Invalid)
    );
    assert_eq!(
        resolve_invocation(None, id, none, None, true, Revision(2)),
        Err(StoreError::Corrupt)
    );
    assert_eq!(
        validate_settling_replay(
            id,
            Some(confirmed),
            UncertaintyResolution::ConfirmCompleted,
            Some(result),
            RequestId(2)
        ),
        Ok(())
    );
    assert_eq!(
        validate_settling_replay(
            id,
            None,
            UncertaintyResolution::ConfirmCompleted,
            Some(result),
            RequestId(2)
        ),
        Err(StoreError::Corrupt)
    );
}

#[test]
fn an_effect_is_settled_with_the_invocation_that_made_it() {
    let wish = |resolution| ResolveAuthorizedEffect {
        caller: ME,
        session_id: SESSION,
        participant_id: ParticipantId(10),
        operation_id: OperationId(20),
        owner_epoch: FencingEpoch(4),
        expected_effect_revision: Revision(1),
        resolution,
    };
    let facts = ResolutionFacts {
        effect: Some(effect(EffectPhase::Uncertain)),
        operation: Some(operation(OperationState::Uncertain)),
        grant: Some(grant(None)),
        authorized: true,
        proof_allowed: true,
    };
    let end = ToolTerminal::Completed(digest(9));
    let made = SettlingFacts {
        invocation_id: Some(ToolInvocationId(60)),
        invocation: Some(snapshot(ToolPhase::Uncertain)),
        terminal: Some(end),
        output_valid: true,
    };
    let confirm = wish(UncertaintyResolution::ConfirmCompleted);
    let settled = settle_authorized_effect(confirm, facts, made, at(120)).unwrap();
    assert_eq!(settled.effect.phase, EffectPhase::Completed);
    assert_eq!(settled.effect.revision, Revision(2));
    assert_eq!(settled.grant, Some(grant(Some(at(120)))));
    let invocation = settled.invocation.unwrap();
    assert_eq!(invocation.phase, ToolPhase::Completed);
    assert_eq!(invocation.terminal, Some(end));
    assert_eq!(invocation.revision, Revision(2));
    let retry = wish(UncertaintyResolution::RetryWithEffectProof);
    assert_eq!(
        settle_authorized_effect(retry, facts, made, at(120)),
        Err(StoreError::Invalid)
    );
    let spoilt = SettlingFacts { output_valid: false, ..made };
    assert_eq!(
        settle_authorized_effect(confirm, facts, spoilt, at(120)),
        Err(StoreError::Invalid)
    );
    let missing = SettlingFacts { invocation: None, ..made };
    assert_eq!(
        settle_authorized_effect(confirm, facts, missing, at(120)),
        Err(StoreError::Corrupt)
    );
    let alone =
        SettlingFacts { invocation_id: None, invocation: None, terminal: None, output_valid: true };
    let retried = settle_authorized_effect(retry, facts, alone, at(120)).unwrap();
    assert_eq!(retried.effect.phase, EffectPhase::RetryAuthorized);
    assert_eq!(retried.invocation, None);
    let barred = ResolutionFacts { authorized: false, ..facts };
    assert_eq!(
        settle_authorized_effect(confirm, barred, made, at(120)),
        Err(StoreError::Invalid)
    );
}

#[test]
fn tool_events_tell_the_invocation() {
    let texts = ToolTexts {
        name: "search".to_string(),
        version: "2".to_string(),
        terminal_digest: Some("[1,2]".to_string()),
    };
    let data = tool_invocation_event_payload(snapshot(ToolPhase::Completed), &texts).unwrap();
    let text = String::from_utf8(data).unwrap();
    for part in [
        "\"schema_version\":1",
        "\"invocation_id\":\"00000000-0000-0000-0000-00000000003c\"",
        "\"registration_id\":\"00000000-0000-0000-0000-000000000032\"",
        "\"tool_name\":\"search\"",
        "\"tool_version\":\"2\"",
        "\"phase\":\"completed\"",
        "\"revision\":1",
        "\"connection_generation\":2",
        "\"terminal_digest\":[1,2]",
    ] {
        assert!(text.contains(part), "{part} is not in {text}");
    }
    let broken = ToolTexts { terminal_digest: Some("[1,".to_string()), ..texts };
    assert_eq!(
        tool_invocation_event_payload(snapshot(ToolPhase::Completed), &broken),
        Err(StoreError::Corrupt)
    );
}

#[test]
fn invocations_are_read_with_everything_around_them() {
    let value = snapshot(ToolPhase::Started);
    let dispatch = DispatchColumns {
        dispatch_id: ToolDispatchId(70),
        provider_id: ToolProviderId(71),
        server_sequence: 4,
        deadline_seconds: 150,
        deadline_nanos: 0,
        connection_generation: Some(2),
        cancellation_id: None,
        cancellation_server_sequence: None,
        terminal_digest: None,
    };
    assert!(tool_invocation_projection_matches(value.dispatch, dispatch));
    assert!(!tool_invocation_projection_matches(
        value.dispatch,
        DispatchColumns { server_sequence: 5, ..dispatch }
    ));
    assert!(!tool_invocation_projection_matches(
        value.dispatch,
        DispatchColumns { connection_generation: None, ..dispatch }
    ));
    let facts = InvocationFacts {
        columns: InvocationColumns {
            effect_request_id: RequestId(2),
            registration_id: ToolRegistrationId(50),
            session_id: SESSION,
            participant_id: ParticipantId(10),
            operation_id: OperationId(20),
            tool: digest(1),
            dispatch,
        },
        effect: Some(effect(EffectPhase::Started)),
        participant: Some(participant()),
        operation: Some(operation(OperationState::Running)),
        registration: Some(registration()),
    };
    assert_eq!(decode_invocation(value, ToolInvocationId(60), facts), Ok(value));
    for wrong in [
        InvocationFacts { effect: Some(effect(EffectPhase::Reserved)), ..facts },
        InvocationFacts { effect: None, ..facts },
        InvocationFacts { registration: None, ..facts },
        InvocationFacts { operation: None, ..facts },
    ] {
        assert_eq!(
            decode_invocation(value, ToolInvocationId(60), wrong),
            Err(StoreError::Corrupt)
        );
    }
    assert_eq!(
        decode_invocation(value, ToolInvocationId(61), facts),
        Err(StoreError::Corrupt)
    );
    assert_eq!(invocation_of_approval(RequestId(90), 0, None), Ok(None));
    assert_eq!(invocation_of_approval(RequestId(90), 1, Some(value)), Ok(Some(value)));
    assert_eq!(
        invocation_of_approval(RequestId(91), 1, Some(value)),
        Err(StoreError::Corrupt)
    );
    assert_eq!(
        invocation_of_approval(RequestId(90), 2, Some(value)),
        Err(StoreError::Corrupt)
    );
    assert_eq!(check_provider_replay(SESSION, ToolProviderId(71), Some(value)), Ok(value));
    assert_eq!(
        check_provider_replay(SESSION, ToolProviderId(72), Some(value)),
        Err(StoreError::Corrupt)
    );
    assert_eq!(check_listing(64, 64), Ok(()));
    assert_eq!(check_listing(65, 64), Err(StoreError::Invalid));
}
