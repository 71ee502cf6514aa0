use navigator_store::capacity::{CapacityLimit, CapacityUsage};
use navigator_store::error::{CapacityReason, CapacityResource, Refusal, StoreError};
use navigator_store::ids::{
    DeliveryAttemptId, Digest, MessageId, OperationId, ParticipantId, RequestId, Revision,
    SessionId, TemplateId,
};
use navigator_store::mailbox::{
    Correlation, DeliveryReason, DeliveryState, Envelope, MailboxCounter, MessageBody, MessagePriority,
    MessageSnapshot, StoreLimits,
};
use navigator_store::operation::{
    check_operation_input, create_child_participant, create_root_participant, decode_operation,
    decode_participant, move_operation, next_operation_state, operation_event_name,
    operation_state_name,
    parse_operation_state, participant_cancellation_requested, public_terminal_outcome,
    start_operation, tell_outcome_upward, terminal_matches_state, terminal_outcome_name,
    transition_operation, valid_terminal_outcome, validate_participant_replay,
    validate_start_replay, ChildFacts, CreateChildParticipant, CreateRootParticipant, EndFacts,
    OperationAction, OperationSnapshot, OperationState, OutcomeKind, ParticipantPlan,
    ParticipantSnapshot, ReadInput, RootFacts, StartFacts, StartOperation, TerminalOutcome, Told,
    TransitionFacts, TransitionOperation, UpwardFacts,
};
use navigator_store::time::Timestamp;

const SESSION: SessionId = SessionId(1);
const ROOT: ParticipantId = ParticipantId(10);
const CHILD: ParticipantId = ParticipantId(11);
const OPERATION: OperationId = OperationId(20);
const INPUT: MessageId = MessageId(30);
const FREE: CapacityUsage =
    CapacityUsage { derived_session: 0, derived_global: 0, reserved_session: 0, reserved_global: 0 };
const WIDE: CapacityLimit = CapacityLimit { per_session: 1_000_000, global: 1_000_000 };
const SHUT: CapacityLimit = CapacityLimit { per_session: 0, global: 0 };
const LIMITS: StoreLimits = StoreLimits {
    max_participant_depth: 3,
    max_direct_children: 2,
    max_session_participants: 5,
    mailbox_queued_bytes: 100,
    mailbox_queued_messages: 2,
    mailbox_reserved_outcome_bytes: 50,
    mailbox_reserved_outcomes: 1,
    max_delivery_attempts: 3,
    max_lease_millis: 300_000,
};

fn at(seconds: i64) -> Timestamp {
    Timestamp { seconds, nanos: 0 }
}

fn digest(n: u128) -> Digest {
    Digest { high: n, low: n }
}

fn kept(error: StoreError) -> Refusal {
    Refusal { error, recorded: true }
}

fn bare(error: StoreError) -> Refusal {
    Refusal { error, recorded: false }
}

fn participant(
    id: ParticipantId,
    parent: Option<ParticipantId>,
    depth: u32,
) -> ParticipantSnapshot {
    ParticipantSnapshot {
        session_id: SESSION,
        participant_id: id,
        parent_participant_id: parent,
        depth,
        template_id: TemplateId(5),
        template_compatibility: digest(5),
        revision: Revision(1),
    }
}

fn operation(state: OperationState) -> OperationSnapshot {
    OperationSnapshot {
        session_id: SESSION,
        operation_id: OPERATION,
        participant_id: ROOT,
        start_request_id: RequestId(40),
        input_message_id: INPUT,
        waiting_on_message_id: None,
        input_digest: digest(6),
        state,
        revision: Revision(3),
        terminal_outcome: None,
        created_at: at(50),
        updated_at: at(60),
    }
}

fn accepted() -> MessageSnapshot {
    MessageSnapshot {
        session_id: SESSION,
        message_id: INPUT,
        source: ROOT,
        destination: ROOT,
        mailbox_sequence: 1,
        priority: MessagePriority::Ordinary,
        correlation: Correlation { operation_id: Some(OPERATION), in_reply_to: None },
        envelope: Envelope {
            body: MessageBody::OperationInput {
                operation_id: OPERATION,
                input_digest: digest(6),
            },
            size: 40,
        },
        attempt_count: 1,
        state: DeliveryState::Accepted {
            attempt_id: DeliveryAttemptId(1),
            proof_digest: digest(7),
            accepted_at: at(55),
        },
        revision: Revision(4),
        created_at: at(50),
        updated_at: at(55),
    }
}

fn start_command(size: u64) -> StartOperation {
    StartOperation {
        request_id: RequestId(40),
        session_id: SESSION,
        operation_id: OPERATION,
        participant_id: ROOT,
        input_message_id: INPUT,
        input_digest: digest(6),
        envelope_size: size,
    }
}

fn start_facts() -> StartFacts {
    StartFacts {
        participant: Some(participant(ROOT, None, 1)),
        cancelled: false,
        template: Some(digest(5)),
        input_valid: true,
        unfinished: false,
        exists: false,
        message_exists: false,
        counter: None,
        queued_usage: FREE,
        queued_limit: WIDE,
        message_usage: FREE,
        message_limit: WIDE,
        byte_usage: FREE,
        byte_limit: WIDE,
    }
}

fn move_command(action: OperationAction) -> TransitionOperation {
    TransitionOperation {
        request_id: RequestId(41),
        session_id: SESSION,
        operation_id: OPERATION,
        expected_revision: Revision(3),
        action,
        report_message_id: None,
        terminal_outcome: None,
    }
}

fn move_facts(
    operation: Option<OperationSnapshot>,
    report: Option<MessageSnapshot>,
) -> TransitionFacts {
    TransitionFacts {
        operation,
        report,
        active_usage: FREE,
        active_limit: WIDE,
        event_usage: FREE,
        event_limit: WIDE,
    }
}

#[test]
fn states_are_named_and_read_back() {
    for state in [
        OperationState::Queued,
        OperationState::Starting,
        OperationState::Running,
        OperationState::Waiting,
        OperationState::Cancelling,
        OperationState::Succeeded,
        OperationState::Failed,
        OperationState::Cancelled,
        OperationState::Blocked,
        OperationState::Uncertain,
    ] {
        let name = operation_state_name(state);
        assert_eq!(parse_operation_state(name), Ok(state));
        assert_eq!(operation_event_name(state), format!("operation.{}", name));
    }
    assert_eq!(parse_operation_state("resting"), Err(StoreError::Corrupt));
    assert_eq!(terminal_outcome_name(OutcomeKind::Blocked), "blocked");
}

#[test]
fn ended_operations_do_not_move_and_live_ones_can_fail() {
    for state in [
        OperationState::Succeeded,
        OperationState::Failed,
        OperationState::Cancelled,
        OperationState::Blocked,
        OperationState::Uncertain,
    ] {
        assert!(state.is_terminal());
        assert_eq!(next_operation_state(state, OperationAction::ReportFailure), None);
        assert_eq!(next_operation_state(state, OperationAction::RequestCancel), None);
    }
    for state in [
        OperationState::Queued,
        OperationState::Starting,
        OperationState::Running,
        OperationState::Waiting,
        OperationState::Cancelling,
    ] {
        assert!(!state.is_terminal());
        assert_eq!(
            next_operation_state(state, OperationAction::ReportFailure),
            Some(OperationState::Failed)
        );
    }
    assert_eq!(
        next_operation_state(OperationState::Cancelling, OperationAction::RequestCancel),
        None
    );
}

#[test]
fn outcomes_fit_their_state() {
    let failed = TerminalOutcome { kind: OutcomeKind::Failed, public_digest: digest(1) };
    assert!(terminal_matches_state(OperationState::Failed, failed));
    assert!(!terminal_matches_state(OperationState::Succeeded, failed));
    assert!(valid_terminal_outcome(OperationState::Failed, Some(failed)));
    assert!(!valid_terminal_outcome(OperationState::Failed, None));
    assert!(valid_terminal_outcome(OperationState::Running, None));
    assert!(!valid_terminal_outcome(OperationState::Running, Some(failed)));
    assert_eq!(public_terminal_outcome(failed), OutcomeKind::Failed);
}

#[test]
fn root_participants_are_made_once() {
    let command = CreateRootParticipant {
        session_id: SESSION,
        participant_id: ROOT,
        template_id: TemplateId(5),
        expected_compatibility: digest(5),
    };
    let facts = RootFacts {
        template: Some(digest(5)),
        template_allowed: true,
        existing: None,
        root_exists: false,
        usage: FREE,
        limit: WIDE,
    };
    let made = participant(ROOT, None, 1);
    assert_eq!(create_root_participant(command, facts), Ok(ParticipantPlan::Create(made)));
    assert_eq!(
        create_root_participant(command, RootFacts { existing: Some(made), ..facts }),
        Ok(ParticipantPlan::Unchanged(made))
    );
    for wrong in [
        RootFacts { template: None, ..facts },
        RootFacts { template_allowed: false, ..facts },
        RootFacts { root_exists: true, ..facts },
    ] {
        assert_eq!(create_root_participant(command, wrong), Err(kept(StoreError::Invalid)));
    }
    assert_eq!(
        create_root_participant(command, RootFacts { limit: SHUT, ..facts }),
        Err(bare(StoreError::CapacityExceeded {
            reason: CapacityReason::SessionLimit { resource: CapacityResource::Participants },
        }))
    );
    assert_eq!(decode_participant(made, 3), Ok(made));
    assert_eq!(decode_participant(participant(CHILD, Some(ROOT), 1), 3), Err(StoreError::Corrupt));
    assert_eq!(decode_participant(participant(CHILD, Some(ROOT), 4), 3), Err(StoreError::Corrupt));
    assert_eq!(validate_participant_replay(made, Some(made)), Ok(()));
    assert_eq!(validate_participant_replay(made, None), Err(StoreError::Corrupt));
}

#[test]
fn children_stand_one_below_their_parent() {
    let command = CreateChildParticipant {
        session_id: SESSION,
        participant_id: CHILD,
        parent_participant_id: ROOT,
        template_id: TemplateId(5),
        expected_compatibility: digest(5),
    };
    let facts = ChildFacts {
        parent: Some(participant(ROOT, None, 1)),
        parent_cancelled: false,
        template: Some(digest(5)),
        template_allowed: true,
        exists: false,
        direct: 1,
        total: 4,
        usage: FREE,
        limit: WIDE,
    };
    assert_eq!(
        create_child_participant(command, facts, LIMITS),
        Ok(participant(CHILD, Some(ROOT), 2))
    );
    for wrong in [
        ChildFacts { parent: None, ..facts },
        ChildFacts { parent: Some(participant(ROOT, None, 3)), ..facts },
        ChildFacts { parent_cancelled: true, ..facts },
        ChildFacts { template: Some(digest(9)), ..facts },
        ChildFacts { exists: true, ..facts },
        ChildFacts { direct: 2, ..facts },
        ChildFacts { total: 5, ..facts },
    ] {
        assert_eq!(
            create_child_participant(command, wrong, LIMITS),
            Err(kept(StoreError::Invalid))
        );
    }
    assert_eq!(participant_cancellation_requested(Some(1)), Ok(true));
    assert_eq!(participant_cancellation_requested(Some(0)), Ok(false));
    assert_eq!(participant_cancellation_requested(Some(2)), Err(StoreError::Corrupt));
}

#[test]
fn operations_start_queued_with_their_input_in_the_mailbox() {
    let plan = start_operation(start_command(40), start_facts(), LIMITS, at(50)).unwrap();
    assert_eq!(plan.operation.state, OperationState::Queued);
    assert_eq!(plan.operation.revision, Revision(1));
    assert_eq!(plan.message.destination, ROOT);
    assert_eq!(plan.message.mailbox_sequence, 1);
    assert_eq!(
        plan.counter,
        MailboxCounter { next_sequence: 2, queued_bytes: 40, queued_messages: 1 }
    );
    let full = MailboxCounter { next_sequence: 9, queued_bytes: 61, queued_messages: 1 };
    assert_eq!(
        start_operation(
            start_command(40),
            StartFacts { counter: Some(full), ..start_facts() },
            LIMITS,
            at(50)
        ),
        Err(kept(StoreError::MailboxQuotaExceeded))
    );
    for wrong in [
        StartFacts { participant: None, ..start_facts() },
        StartFacts { cancelled: true, ..start_facts() },
        StartFacts { input_valid: false, ..start_facts() },
        StartFacts { unfinished: true, ..start_facts() },
        StartFacts { exists: true, ..start_facts() },
        StartFacts { message_exists: true, ..start_facts() },
    ] {
        assert_eq!(
            start_operation(start_command(40), wrong, LIMITS, at(50)),
            Err(kept(StoreError::Invalid))
        );
    }
    assert_eq!(
        start_operation(
            start_command(40),
            StartFacts { template: None, ..start_facts() },
            LIMITS,
            at(50)
        ),
        Err(bare(StoreError::Corrupt))
    );
    assert_eq!(
        start_operation(
            start_command(40),
            StartFacts { queued_limit: SHUT, ..start_facts() },
            LIMITS,
            at(50)
        ),
        Err(bare(StoreError::CapacityExceeded {
            reason: CapacityReason::SessionLimit { resource: CapacityResource::QueuedOperations },
        }))
    );
    assert_eq!(
        validate_start_replay(plan.operation, Some(plan.operation), Some(plan.message)),
        Ok(plan.operation)
    );
    assert_eq!(
        validate_start_replay(plan.operation, None, Some(plan.message)),
        Err(StoreError::Corrupt)
    );
}

#[test]
fn reports_move_operations_on() {
    let running = move_operation(
        TransitionOperation {
            report_message_id: Some(INPUT),
            ..move_command(OperationAction::ReportRunning)
        },
        move_facts(Some(operation(OperationState::Starting)), Some(accepted())),
        at(70),
    )
    .unwrap();
    assert_eq!(running.state, OperationState::Running);
    assert_eq!(running.revision, Revision(4));
    assert_eq!(running.updated_at, at(70));
    let outcome = TerminalOutcome { kind: OutcomeKind::Succeeded, public_digest: digest(8) };
    let done = move_operation(
        TransitionOperation {
            report_message_id: Some(INPUT),
            terminal_outcome: Some(outcome),
            expected_revision: Revision(4),
            ..move_command(OperationAction::ReportSuccess)
        },
        move_facts(Some(running), Some(accepted())),
        at(65),
    )
    .unwrap();
    assert_eq!(done.state, OperationState::Succeeded);
    assert_eq!(done.terminal_outcome, Some(outcome));
    assert_eq!(done.updated_at, at(70));
    assert_eq!(
        move_operation(
            TransitionOperation {
                report_message_id: Some(INPUT),
                terminal_outcome: Some(outcome),
                expected_revision: Revision(4),
                ..move_command(OperationAction::ReportSuccess)
            },
            move_facts(Some(done), Some(accepted())),
            at(75),
        ),
        Err(kept(StoreError::Invalid))
    );
}

#[test]
fn moves_are_refused_without_their_message() {
    let running = Some(operation(OperationState::Running));
    let unnamed = move_command(OperationAction::ReportBlocked);
    assert_eq!(
        move_operation(unnamed, move_facts(running, None), at(70)),
        Err(kept(StoreError::Invalid))
    );
    let waiting = move_operation(
        TransitionOperation {
            report_message_id: Some(MessageId(31)),
            ..move_command(OperationAction::Wait)
        },
        move_facts(running, None),
        at(70),
    )
    .unwrap();
    assert_eq!(waiting.waiting_on_message_id, Some(MessageId(31)));
    assert_eq!(
        move_operation(
            TransitionOperation {
                report_message_id: Some(INPUT),
                ..move_command(OperationAction::Wait)
            },
            move_facts(running, None),
            at(70),
        ),
        Err(kept(StoreError::Invalid))
    );
    let resume = |named: u128| {
        move_operation(
            TransitionOperation {
                report_message_id: Some(MessageId(named)),
                expected_revision: Revision(4),
                ..move_command(OperationAction::Resume)
            },
            move_facts(Some(waiting), None),
            at(80),
        )
    };
    assert_eq!(resume(32), Err(kept(StoreError::Invalid)));
    assert_eq!(resume(31).unwrap().state, OperationState::Running);
    let queued = Some(operation(OperationState::Queued));
    let begin = move_command(OperationAction::BeginStart);
    assert_eq!(
        move_operation(
            begin,
            TransitionFacts { active_limit: SHUT, ..move_facts(queued, None) },
            at(70)
        ),
        Err(bare(StoreError::CapacityExceeded {
            reason: CapacityReason::SessionLimit { resource: CapacityResource::ActiveOperations },
        }))
    );
    assert_eq!(
        move_operation(
            begin,
            TransitionFacts { event_limit: SHUT, ..move_facts(queued, None) },
            at(70)
        ),
        Err(bare(StoreError::CapacityExceeded {
            reason: CapacityReason::SessionLimit { resource: CapacityResource::RetainedEvents },
        }))
    );
}

#[test]
fn operations_are_read_with_their_outcome() {
    let outcome = TerminalOutcome { kind: OutcomeKind::Failed, public_digest: digest(8) };
    let failed = OperationSnapshot {
        terminal_outcome: Some(outcome),
        ..operation(OperationState::Failed)
    };
    assert_eq!(decode_operation(failed, Some("failed")), Ok(failed));
    assert_eq!(decode_operation(failed, Some("blocked")), Err(StoreError::Corrupt));
    assert_eq!(decode_operation(failed, None), Err(StoreError::Corrupt));
    let running = operation(OperationState::Running);
    assert_eq!(decode_operation(running, None), Ok(running));
    assert_eq!(
        decode_operation(operation(OperationState::Failed), None),
        Err(StoreError::Corrupt)
    );
}

#[test]
fn outcomes_are_told_upward_with_room_of_their_own() {
    let outcome = TerminalOutcome { kind: OutcomeKind::Failed, public_digest: digest(8) };
    let ended = OperationSnapshot {
        participant_id: CHILD,
        terminal_outcome: Some(outcome),
        ..operation(OperationState::Failed)
    };
    let facts = UpwardFacts {
        parent_id: ROOT,
        parent_operation: Some(OperationId(21)),
        authorized: true,
        message_id: MessageId(33),
        message_exists: false,
        counter: Some(MailboxCounter { next_sequence: 7, queued_bytes: 100, queued_messages: 2 }),
        envelope_size: 50,
        priority: MessagePriority::Ordinary,
    };
    let plan = tell_outcome_upward(ended, outcome, facts, LIMITS).unwrap().unwrap();
    assert_eq!(plan.message.source, CHILD);
    assert_eq!(plan.message.destination, ROOT);
    assert_eq!(plan.message.mailbox_sequence, 7);
    assert_eq!(
        plan.counter,
        MailboxCounter { next_sequence: 8, queued_bytes: 150, queued_messages: 3 }
    );
    for quiet in [
        UpwardFacts { parent_operation: None, ..facts },
        UpwardFacts { authorized: false, ..facts },
        UpwardFacts { message_exists: true, ..facts },
        UpwardFacts { envelope_size: 51, ..facts },
    ] {
        assert_eq!(tell_outcome_upward(ended, outcome, quiet, LIMITS), Ok(None));
    }
    let broken = MailboxCounter { next_sequence: 7, queued_bytes: -1, queued_messages: 2 };
    assert_eq!(
        tell_outcome_upward(
            ended,
            outcome,
            UpwardFacts { counter: Some(broken), ..facts },
            LIMITS
        ),
        Err(StoreError::Corrupt)
    );
}

#[test]
fn an_ended_operation_clears_its_mailbox_and_tells_its_parent() {
    let outcome = TerminalOutcome { kind: OutcomeKind::Succeeded, public_digest: digest(8) };
    let mine = OperationSnapshot { participant_id: CHILD, ..operation(OperationState::Running) };
    let input = MessageSnapshot { source: ROOT, destination: CHILD, ..accepted() };
    let open = MessageSnapshot {
        message_id: MessageId(31),
        state: DeliveryState::Queued,
        revision: Revision(1),
        ..input
    };
    let command = TransitionOperation {
        report_message_id: Some(INPUT),
        terminal_outcome: Some(outcome),
        ..move_command(OperationAction::ReportSuccess)
    };
    let full = MailboxCounter { next_sequence: 5, queued_bytes: 60, queued_messages: 2 };
    let end = |parent: Option<ParticipantId>, counter: Option<MailboxCounter>| EndFacts {
        participant: Some(participant(CHILD, parent, 2)),
        open: vec![open],
        counter,
        upward: UpwardFacts {
            parent_id: CHILD,
            parent_operation: Some(OperationId(21)),
            authorized: true,
            message_id: MessageId(33),
            message_exists: false,
            counter: None,
            envelope_size: 50,
            priority: MessagePriority::Ordinary,
        },
    };
    let facts = move_facts(Some(mine), Some(input));
    let decide = |end: &EndFacts| transition_operation(command, facts, end, LIMITS, at(70));
    let done = decide(&end(Some(ROOT), Some(full))).ok().unwrap();
    assert_eq!(done.operation.state, OperationState::Succeeded);
    assert_eq!(done.retired.len(), 1);
    assert_eq!(
        done.retired[0].state,
        DeliveryState::DeadLetter { reason: DeliveryReason::OperationEnded }
    );
    assert_eq!(
        done.counter,
        Some(MailboxCounter { next_sequence: 5, queued_bytes: 20, queued_messages: 1 })
    );
    match done.told {
        Told::Parent(plan) => {
            assert_eq!(plan.message.source, CHILD);
            assert_eq!(plan.message.destination, ROOT);
            assert_eq!(plan.message.correlation.operation_id, Some(OperationId(21)));
        }
        other => panic!("the parent was not told: {other:?}"),
    }
    let alone = decide(&end(None, Some(full))).ok().unwrap();
    assert_eq!(alone.told, Told::Nobody);
    let mut barred = end(Some(ROOT), Some(full));
    barred.upward.authorized = false;
    assert_eq!(decide(&barred).ok().unwrap().told, Told::Denied);
    let corrupt = Some(bare(StoreError::Corrupt));
    assert_eq!(decide(&end(Some(ROOT), None)).err(), corrupt);
    let lost = EndFacts { participant: None, ..end(Some(ROOT), Some(full)) };
    assert_eq!(decide(&lost).err(), corrupt);
    let empty = EndFacts { open: vec![], ..end(Some(ROOT), None) };
    let quiet = decide(&empty).ok().unwrap();
    assert_eq!((quiet.retired.len(), quiet.counter), (0, None));
    let wait = TransitionOperation {
        report_message_id: Some(MessageId(32)),
        ..move_command(OperationAction::Wait)
    };
    let open_end = end(Some(ROOT), None);
    let moved = transition_operation(wait, facts, &open_end, LIMITS, at(70)).ok().unwrap();
    assert_eq!(moved.operation.state, OperationState::Waiting);
    assert_eq!((moved.retired.len(), moved.counter, moved.told), (0, None, Told::Nobody));
    let late = TransitionOperation { expected_revision: Revision(9), ..command };
    assert_eq!(
        transition_operation(late, facts, &open_end, LIMITS, at(70)).err(),
        Some(kept(StoreError::Invalid))
    );
}

#[test]
fn stored_inputs_are_checked_against_their_digest() {
    let found = Some(operation(OperationState::Running));
    let owner = Some(participant(ROOT, None, 1));
    let input = |canonical: bool, n: u128| Some(ReadInput { canonical, digest: digest(n) });
    let check = |found, owner, registered, input| {
        check_operation_input(OPERATION, found, owner, registered, input)
    };
    assert_eq!(check(found, owner, Some(digest(5)), input(true, 6)), Ok(()));
    assert_eq!(
        check(None, owner, Some(digest(5)), input(true, 6)),
        Err(StoreError::OperationNotFound { operation_id: OPERATION })
    );
    assert_eq!(check(found, None, Some(digest(5)), input(true, 6)), Err(StoreError::Corrupt));
    assert_eq!(check(found, owner, Some(digest(4)), input(true, 6)), Err(StoreError::Corrupt));
    assert_eq!(check(found, owner, Some(digest(5)), input(false, 6)), Err(StoreError::Corrupt));
    assert_eq!(check(found, owner, Some(digest(5)), input(true, 7)), Err(StoreError::Corrupt));
    assert_eq!(check(found, owner, Some(digest(5)), None), Err(StoreError::Corrupt));
}
