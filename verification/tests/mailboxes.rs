use navigator_store::capacity::{CapacityLimit, CapacityUsage};
use navigator_store::error::{CapacityReason, CapacityResource, Refusal, StoreError};
use navigator_store::ids::{
    DeliveryAttemptId, Digest, DriverId, FencingEpoch, HostId, InstanceId, LaunchAttemptId,
    MessageId, OperationId, ParticipantId, RequestId, Revision, SessionId,
};
use navigator_store::launch::{
    decode_launch, existence, launch_state_name, mutate_launch, parse_launch_state, prepare_launch,
    valid_launch_transition, validate_prepare_replay, LaunchChange, LaunchColumns, LaunchPlan,
    LaunchSnapshot,
    LaunchState, PrepareLaunch, ProcessEvidence,
};
use navigator_store::ledger::RequestContext;
use navigator_store::mailbox::{
    advance_delivery, decode_message_row, decrement_mailbox_bytes, due_operation, enqueue_message,
    lease_next_message, message_event_names, priority_column, queue_counters, resume_on_feedback,
    resumption_of, retire_correlated_messages, retire_message, take_next_message, take_room,
    transition_message_delivery, validate_work_limit, ControlKind, Correlation, DeliveryFacts,
    DeliveryLease, DeliveryReason, DeliveryState, DeliveryTransition, EnqueueFacts, EnqueueMessage,
    Envelope, LeaseNextMessage, LeasePlan, MailboxCounter, MessageBody, MessageColumns,
    MessagePriority, MessageSnapshot, StoreLimits, TransitionMessageDelivery,
};
use navigator_store::operation::{OperationSnapshot, OperationState};
use navigator_store::time::Timestamp;

const SESSION: SessionId = SessionId(1);
const ROOT: ParticipantId = ParticipantId(10);
const CHILD: ParticipantId = ParticipantId(11);
const OPERATION: OperationId = OperationId(20);
const ME: HostId = HostId(100);
const FREE: CapacityUsage =
    CapacityUsage { derived_session: 0, derived_global: 0, reserved_session: 0, reserved_global: 0 };
const WIDE: CapacityLimit = CapacityLimit { per_session: 1_000_000, global: 1_000_000 };
const SHUT: CapacityLimit = CapacityLimit { per_session: 0, global: 0 };
const LIMITS: StoreLimits = StoreLimits {
    max_participant_depth: 3,
    max_direct_children: 2,
    max_session_participants: 5,
    mailbox_queued_bytes: 100,
    mailbox_queued_messages: 2,
    mailbox_reserved_outcome_bytes: 50,
    mailbox_reserved_outcomes: 1,
    max_delivery_attempts: 2,
    max_lease_millis: 300_000,
};

fn at(seconds: i64) -> Timestamp {
    Timestamp { seconds, nanos: 0 }
}

fn digest(n: u128) -> Digest {
    Digest { high: n, low: n }
}

fn kept(error: StoreError) -> Refusal {
    Refusal { error, recorded: true }
}

fn bare(error: StoreError) -> Refusal {
    Refusal { error, recorded: false }
}

fn counter(next_sequence: i64, queued_bytes: i64, queued_messages: i64) -> MailboxCounter {
    MailboxCounter { next_sequence, queued_bytes, queued_messages }
}

fn operation(state: OperationState) -> OperationSnapshot {
    OperationSnapshot {
        session_id: SESSION,
        operation_id: OPERATION,
        participant_id: CHILD,
        start_request_id: RequestId(40),
        input_message_id: MessageId(30),
        waiting_on_message_id: None,
        input_digest: digest(6),
        state,
        revision: Revision(3),
        terminal_outcome: None,
        created_at: at(50),
        updated_at: at(60),
    }
}

fn message(id: u128, priority: MessagePriority, state: DeliveryState) -> MessageSnapshot {
    MessageSnapshot {
        session_id: SESSION,
        message_id: MessageId(id),
        source: ROOT,
        destination: CHILD,
        mailbox_sequence: id as u64,
        priority,
        correlation: Correlation { operation_id: Some(OPERATION), in_reply_to: None },
        envelope: Envelope {
            body: MessageBody::Control { operation_id: OPERATION, command: ControlKind::Reminder },
            size: 40,
        },
        attempt_count: 0,
        state,
        revision: Revision(1),
        created_at: at(50),
        updated_at: at(50),
    }
}

fn lease(attempt: u128, expires: i64) -> DeliveryLease {
    DeliveryLease {
        attempt_id: DeliveryAttemptId(attempt),
        owner: ME,
        ownership_epoch: FencingEpoch(3),
        driver_ownership_epoch: FencingEpoch(3),
        driver_launch_attempt_id: LaunchAttemptId(60),
        instance_id: InstanceId(70),
        expires_at: at(expires),
    }
}

fn next_wish(attempt: u128) -> LeaseNextMessage {
    LeaseNextMessage {
        context: RequestContext { request_id: RequestId(1), caller: ME },
        epoch: FencingEpoch(3),
        proposed_attempt_id: DeliveryAttemptId(attempt),
        driver_launch_attempt_id: LaunchAttemptId(60),
        instance_id: InstanceId(70),
        lease_millis: 10_000,
    }
}

fn reminder(id: u128, size: u64) -> EnqueueMessage {
    EnqueueMessage {
        session_id: SESSION,
        message_id: MessageId(id),
        source: ROOT,
        destination: CHILD,
        correlation: Correlation { operation_id: Some(OPERATION), in_reply_to: None },
        envelope: Envelope {
            body: MessageBody::Control { operation_id: OPERATION, command: ControlKind::Reminder },
            size,
        },
        priority: MessagePriority::Control,
    }
}

fn send_facts(counter: Option<MailboxCounter>) -> EnqueueFacts {
    EnqueueFacts {
        source_session: Some(SESSION),
        destination_session: Some(SESSION),
        operation: Some(operation(OperationState::Running)),
        reply: None,
        exists: false,
        counter,
        message_usage: FREE,
        message_limit: WIDE,
        byte_usage: FREE,
        byte_limit: WIDE,
    }
}

fn move_delivery(attempt: u128, transition: DeliveryTransition) -> TransitionMessageDelivery {
    TransitionMessageDelivery {
        context: RequestContext { request_id: RequestId(2), caller: ME },
        session_id: SESSION,
        epoch: FencingEpoch(3),
        message_id: MessageId(1),
        attempt_id: DeliveryAttemptId(attempt),
        expected_revision: Revision(1),
        transition,
    }
}

fn delivery_facts(message: Option<MessageSnapshot>) -> DeliveryFacts {
    DeliveryFacts {
        message,
        retry_usage: FREE,
        retry_limit: WIDE,
        event_usage: FREE,
        event_limit: WIDE,
    }
}

fn evidence() -> ProcessEvidence {
    ProcessEvidence {
        process_id: 1,
        process_group_id: 2,
        parent_process_id: 3,
        creation_marker: 4,
        executable_identity: digest(5),
    }
}

fn launch(state: LaunchState) -> LaunchSnapshot {
    LaunchSnapshot {
        session_id: SESSION,
        ownership_epoch: Some(FencingEpoch(3)),
        participant_id: CHILD,
        driver_id: DriverId(50),
        driver_configuration_digest: digest(1),
        attempt_id: LaunchAttemptId(60),
        instance_id: None,
        state,
        revision: Revision(1),
        credential_digest: digest(2),
        evidence: None,
        cleanup_reason: None,
    }
}

#[test]
fn mailboxes_hold_no_more_than_their_room() {
    assert_eq!(queue_counters(None, 100, false, LIMITS), Ok((1, counter(2, 100, 1))));
    assert_eq!(
        queue_counters(None, 101, false, LIMITS),
        Err(kept(StoreError::MailboxQuotaExceeded))
    );
    let two = Some(counter(5, 20, 2));
    assert_eq!(
        queue_counters(two, 1, false, LIMITS),
        Err(kept(StoreError::MailboxQuotaExceeded))
    );
    assert_eq!(queue_counters(two, 1, true, LIMITS), Ok((5, counter(6, 21, 3))));
    assert_eq!(
        queue_counters(Some(counter(5, 20, 1)), u64::MAX, true, LIMITS),
        Err(bare(StoreError::MailboxQuotaExceeded))
    );
    assert_eq!(
        queue_counters(Some(counter(5, -1, 1)), 1, false, LIMITS),
        Err(bare(StoreError::Corrupt))
    );
    assert_eq!(
        queue_counters(Some(counter(-5, 0, 0)), 1, false, LIMITS),
        Err(bare(StoreError::Corrupt))
    );
    assert_eq!(take_room(None, 100, LIMITS), Ok((1, counter(2, 100, 1))));
    assert_eq!(take_room(None, u64::MAX, LIMITS), Err(StoreError::MailboxQuotaExceeded));
    assert_eq!(decrement_mailbox_bytes(Some(counter(5, 20, 2)), 20), Ok(counter(5, 0, 1)));
    assert_eq!(decrement_mailbox_bytes(Some(counter(5, 20, 2)), 21), Err(StoreError::Corrupt));
    assert_eq!(decrement_mailbox_bytes(Some(counter(5, 20, 0)), 1), Err(StoreError::Corrupt));
    assert_eq!(decrement_mailbox_bytes(None, 1), Err(StoreError::Corrupt));
}

#[test]
fn messages_are_enqueued_within_their_session() {
    let plan = enqueue_message(reminder(1, 40), send_facts(None), LIMITS, at(55)).unwrap();
    assert_eq!(plan.message.mailbox_sequence, 1);
    assert_eq!(plan.message.state, DeliveryState::Queued);
    assert_eq!(plan.counter, counter(2, 40, 1));
    for wrong in [
        EnqueueFacts { source_session: Some(SessionId(2)), ..send_facts(None) },
        EnqueueFacts { destination_session: None, ..send_facts(None) },
        EnqueueFacts { operation: None, ..send_facts(None) },
        EnqueueFacts { exists: true, ..send_facts(None) },
    ] {
        assert_eq!(
            enqueue_message(reminder(1, 40), wrong, LIMITS, at(55)),
            Err(kept(StoreError::Invalid))
        );
    }
    assert_eq!(
        enqueue_message(
            reminder(1, 40),
            EnqueueFacts { message_limit: SHUT, ..send_facts(None) },
            LIMITS,
            at(55)
        ),
        Err(bare(StoreError::CapacityExceeded {
            reason: CapacityReason::SessionLimit { resource: CapacityResource::Messages },
        }))
    );
    let answered = EnqueueMessage {
        correlation: Correlation {
            operation_id: Some(OPERATION),
            in_reply_to: Some(MessageId(2)),
        },
        ..reminder(1, 40)
    };
    assert_eq!(
        enqueue_message(answered, send_facts(None), LIMITS, at(55)),
        Err(kept(StoreError::Invalid))
    );
}

#[test]
fn control_messages_go_first_and_one_at_a_time() {
    let ordinary = message(1, MessagePriority::Ordinary, DeliveryState::Queued);
    let control = message(2, MessagePriority::Control, DeliveryState::Queued);
    let taken =
        take_next_message(&vec![control, ordinary], next_wish(9), true, LIMITS, at(100))
            .unwrap()
            .unwrap();
    assert_eq!(taken.message_id, MessageId(2));
    assert_eq!(taken.state, DeliveryState::Leased { lease: lease(9, 110) });
    assert_eq!(taken.attempt_count, 1);
    assert_eq!(taken.revision, Revision(2));
    assert_eq!(
        take_next_message(&vec![taken, ordinary], next_wish(10), true, LIMITS, at(105)),
        Ok(None)
    );
    let again = take_next_message(&vec![taken, ordinary], next_wish(10), true, LIMITS, at(110))
        .unwrap()
        .unwrap();
    assert_eq!(again.message_id, MessageId(2));
    assert_eq!(again.attempt_count, 2);
    let given_up = take_next_message(&vec![again, ordinary], next_wish(11), true, LIMITS, at(130))
        .unwrap()
        .unwrap();
    assert_eq!(
        given_up.state,
        DeliveryState::DeadLetter { reason: DeliveryReason::AttemptsExhausted }
    );
    assert_eq!(
        take_next_message(&vec![control], next_wish(9), false, LIMITS, at(100)),
        Err(kept(StoreError::Invalid))
    );
    let long = LeaseNextMessage { lease_millis: 300_001, ..next_wish(9) };
    assert_eq!(
        take_next_message(&vec![control], long, true, LIMITS, at(100)),
        Err(kept(StoreError::LeaseTooLong))
    );
}

#[test]
fn open_acceptance_is_taken_up_with_its_attempt() {
    let open = message(
        1,
        MessagePriority::Ordinary,
        DeliveryState::AcceptancePending { lease: lease(5, 100) },
    );
    let taken = take_next_message(&vec![open], next_wish(9), false, LIMITS, at(100))
        .unwrap()
        .unwrap();
    assert_eq!(taken.state, DeliveryState::AcceptancePending { lease: lease(5, 110) });
    assert_eq!(taken.attempt_count, 0);
}

#[test]
fn deliveries_are_settled_once() {
    let leased =
        message(1, MessagePriority::Ordinary, DeliveryState::Leased { lease: lease(5, 100) });
    let pending = advance_delivery(
        move_delivery(5, DeliveryTransition::AcceptancePending),
        delivery_facts(Some(leased)),
        LIMITS,
        at(90),
    )
    .unwrap();
    assert_eq!(pending.state, DeliveryState::AcceptancePending { lease: lease(5, 100) });
    let accept = TransitionMessageDelivery {
        expected_revision: Revision(2),
        ..move_delivery(5, DeliveryTransition::Accepted { proof_digest: digest(3) })
    };
    let accepted =
        advance_delivery(accept, delivery_facts(Some(pending)), LIMITS, at(200)).unwrap();
    assert_eq!(
        accepted.state,
        DeliveryState::Accepted {
            attempt_id: DeliveryAttemptId(5),
            proof_digest: digest(3),
            accepted_at: at(200),
        }
    );
    let again = TransitionMessageDelivery { expected_revision: Revision(3), ..accept };
    assert_eq!(
        advance_delivery(again, delivery_facts(Some(accepted)), LIMITS, at(201)),
        Err(kept(StoreError::Invalid))
    );
    assert_eq!(
        advance_delivery(accept, delivery_facts(None), LIMITS, at(201)),
        Err(kept(StoreError::MessageNotFound { message_id: MessageId(1) }))
    );
    assert_eq!(
        advance_delivery(
            move_delivery(6, DeliveryTransition::AcceptancePending),
            delivery_facts(Some(leased)),
            LIMITS,
            at(90)
        ),
        Err(kept(StoreError::Invalid))
    );
    assert_eq!(
        advance_delivery(
            move_delivery(5, DeliveryTransition::AcceptancePending),
            delivery_facts(Some(leased)),
            LIMITS,
            at(100)
        ),
        Err(kept(StoreError::Invalid))
    );
}

#[test]
fn deliveries_are_retried_later() {
    let open = message(
        1,
        MessagePriority::Ordinary,
        DeliveryState::AcceptanceUnknown { lease: lease(5, 100) },
    );
    let retry = move_delivery(5, DeliveryTransition::RetryAfter { delay_millis: 2_000 });
    let scheduled =
        advance_delivery(retry, delivery_facts(Some(open)), LIMITS, at(120)).unwrap();
    assert_eq!(scheduled.state, DeliveryState::RetryScheduled { not_before: at(122) });
    assert_eq!(
        take_next_message(&vec![scheduled], next_wish(9), true, LIMITS, at(121)),
        Ok(None)
    );
    assert!(take_next_message(&vec![scheduled], next_wish(9), true, LIMITS, at(122))
        .unwrap()
        .is_some());
    assert_eq!(
        advance_delivery(
            retry,
            DeliveryFacts { retry_limit: SHUT, ..delivery_facts(Some(open)) },
            LIMITS,
            at(120)
        ),
        Err(bare(StoreError::CapacityExceeded {
            reason: CapacityReason::SessionLimit { resource: CapacityResource::Retries },
        }))
    );
    let late = move_delivery(5, DeliveryTransition::RetryAfter { delay_millis: 300_001 });
    assert_eq!(
        advance_delivery(late, delivery_facts(Some(open)), LIMITS, at(120)),
        Err(kept(StoreError::LeaseTooLong))
    );
}

#[test]
fn accepted_feedback_resumes_the_operation_that_waits_for_it() {
    let feedback = MessageSnapshot {
        envelope: Envelope {
            body: MessageBody::CorrelatedFeedback {
                operation_id: OPERATION,
                in_reply_to: MessageId(33),
                feedback: digest(4),
            },
            size: 40,
        },
        ..message(
            1,
            MessagePriority::Ordinary,
            DeliveryState::Accepted {
                attempt_id: DeliveryAttemptId(5),
                proof_digest: digest(3),
                accepted_at: at(90),
            },
        )
    };
    let waiting = OperationSnapshot {
        waiting_on_message_id: Some(MessageId(33)),
        ..operation(OperationState::Waiting)
    };
    let after = resume_on_feedback(feedback, SESSION, Some(waiting), at(95)).unwrap().unwrap();
    assert_eq!(after.state, OperationState::Running);
    assert_eq!(after.waiting_on_message_id, None);
    assert_eq!(after.revision, Revision(4));
    let elsewhere = OperationSnapshot { waiting_on_message_id: Some(MessageId(34)), ..waiting };
    assert_eq!(resume_on_feedback(feedback, SESSION, Some(elsewhere), at(95)), Ok(None));
    assert_eq!(
        resume_on_feedback(feedback, SESSION, None, at(95)),
        Err(StoreError::Corrupt)
    );
}

#[test]
fn room_is_given_back_when_a_message_leaves() {
    let before = counter(5, 20, 1);
    let (sequence, after) = queue_counters(Some(before), 30, false, LIMITS).unwrap();
    assert_eq!(sequence, 5);
    assert_eq!(after, counter(6, 50, 2));
    assert_eq!(decrement_mailbox_bytes(Some(after), 30), Ok(counter(6, 20, 1)));
}

#[test]
fn exhausted_messages_leave_the_mailbox() {
    let full = Some(counter(5, 60, 2));
    let tried = MessageSnapshot {
        attempt_count: 2,
        ..message(1, MessagePriority::Ordinary, DeliveryState::Queued)
    };
    let given_up = MessageSnapshot {
        state: DeliveryState::DeadLetter { reason: DeliveryReason::AttemptsExhausted },
        revision: Revision(2),
        updated_at: at(100),
        ..tried
    };
    assert_eq!(
        lease_next_message(&vec![tried], next_wish(9), true, full, LIMITS, at(100)),
        Ok(Some(LeasePlan { message: given_up, counter: Some(counter(5, 20, 1)) }))
    );
    assert_eq!(
        lease_next_message(&vec![tried], next_wish(9), true, None, LIMITS, at(100)),
        Err(bare(StoreError::Corrupt))
    );
    let fresh = message(1, MessagePriority::Ordinary, DeliveryState::Queued);
    let plan = lease_next_message(&vec![fresh], next_wish(9), true, None, LIMITS, at(100))
        .unwrap()
        .unwrap();
    assert_eq!(plan.message.state, DeliveryState::Leased { lease: lease(9, 110) });
    assert_eq!(plan.counter, None);
    assert_eq!(
        lease_next_message(&vec![], next_wish(9), true, full, LIMITS, at(100)),
        Ok(None)
    );
    assert_eq!(
        lease_next_message(&vec![fresh], next_wish(9), false, full, LIMITS, at(100)),
        Err(kept(StoreError::Invalid))
    );
}

#[test]
fn a_settled_delivery_empties_its_place_and_wakes_its_operation() {
    let full = Some(counter(5, 60, 2));
    let answer = MessageSnapshot {
        envelope: Envelope {
            body: MessageBody::CorrelatedFeedback {
                operation_id: OPERATION,
                in_reply_to: MessageId(33),
                feedback: digest(4),
            },
            size: 40,
        },
        ..message(
            1,
            MessagePriority::Ordinary,
            DeliveryState::AcceptancePending { lease: lease(5, 100) },
        )
    };
    let waiting = OperationSnapshot {
        waiting_on_message_id: Some(MessageId(33)),
        ..operation(OperationState::Waiting)
    };
    let accept = move_delivery(5, DeliveryTransition::Accepted { proof_digest: digest(3) });
    let facts = delivery_facts(Some(answer));
    let plan = transition_message_delivery(accept, facts, Some(waiting), full, LIMITS, at(90))
        .unwrap();
    assert_eq!(
        plan.message.state,
        DeliveryState::Accepted {
            attempt_id: DeliveryAttemptId(5),
            proof_digest: digest(3),
            accepted_at: at(90),
        }
    );
    assert_eq!(plan.counter, Some(counter(5, 20, 1)));
    assert_eq!(
        plan.operation,
        Some(OperationSnapshot {
            state: OperationState::Running,
            waiting_on_message_id: None,
            revision: Revision(4),
            updated_at: at(90),
            ..waiting
        })
    );
    let told = resumption_of(&plan).unwrap();
    assert_eq!(told, (plan.operation.unwrap(), "operation.resumed"));
    let running = Some(operation(OperationState::Running));
    let idle = transition_message_delivery(accept, facts, running, full, LIMITS, at(90)).unwrap();
    assert_eq!(idle.operation, None);
    assert_eq!(resumption_of(&idle), None);
    assert_eq!(
        transition_message_delivery(accept, facts, None, full, LIMITS, at(90)),
        Err(bare(StoreError::Corrupt))
    );
    assert_eq!(
        transition_message_delivery(accept, facts, Some(waiting), None, LIMITS, at(90)),
        Err(bare(StoreError::Corrupt))
    );
    let lost = move_delivery(5, DeliveryTransition::AcceptanceUnknown);
    let open = transition_message_delivery(lost, facts, None, None, LIMITS, at(90)).unwrap();
    assert_eq!(open.message.state, DeliveryState::AcceptanceUnknown { lease: lease(5, 100) });
    assert_eq!((open.counter, open.operation), (None, None));
    let give_up =
        move_delivery(5, DeliveryTransition::DeadLetter { reason: DeliveryReason::OperationEnded });
    let dead = transition_message_delivery(give_up, facts, None, full, LIMITS, at(90)).unwrap();
    assert_eq!((dead.counter, dead.operation), (Some(counter(5, 20, 1)), None));
}

#[test]
fn messages_of_an_ended_operation_are_retired() {
    let queued = message(1, MessagePriority::Ordinary, DeliveryState::Queued);
    let open = message(
        2,
        MessagePriority::Ordinary,
        DeliveryState::AcceptancePending { lease: lease(5, 100) },
    );
    let ended = operation(OperationState::Failed);
    let (retired, left) =
        retire_correlated_messages(&vec![queued, open], ended, Some(counter(3, 90, 2)), at(70))
            .unwrap();
    assert_eq!(
        retired[0].state,
        DeliveryState::DeadLetter { reason: DeliveryReason::OperationEnded }
    );
    assert_eq!(
        retired[1].state,
        DeliveryState::Uncertain {
            attempt_id: DeliveryAttemptId(5),
            reason: DeliveryReason::OperationEnded,
        }
    );
    assert_eq!(left, Some(counter(3, 10, 0)));
    assert_eq!(
        DeliveryReason::OperationEnded.text(),
        Some("correlated operation became terminal")
    );
    assert_eq!(retire_message(retired[0], ended, at(71)), Err(StoreError::Corrupt));
    assert_eq!(
        retire_correlated_messages(&vec![queued], ended, Some(counter(3, 39, 1)), at(70)),
        Err(StoreError::Corrupt)
    );
}

#[test]
fn messages_are_read_from_their_rows() {
    let kept_message = message(1, MessagePriority::Ordinary, DeliveryState::Queued);
    let columns = MessageColumns {
        message_id: MessageId(1),
        session_id: SESSION,
        source: ROOT,
        destination: CHILD,
        mailbox_sequence: 1,
        priority: priority_column(MessagePriority::Ordinary),
    };
    assert_eq!(priority_column(MessagePriority::Control), 0);
    assert_eq!(decode_message_row(columns, kept_message, true), Ok(kept_message));
    assert_eq!(decode_message_row(columns, kept_message, false), Err(StoreError::Corrupt));
    for wrong in [
        MessageColumns { mailbox_sequence: 2, ..columns },
        MessageColumns { priority: 0, ..columns },
        MessageColumns { source: CHILD, ..columns },
    ] {
        assert_eq!(decode_message_row(wrong, kept_message, true), Err(StoreError::Corrupt));
    }
    assert_eq!(message_event_names(DeliveryState::Queued), ("message.enqueued", "queued"));
    assert_eq!(
        message_event_names(DeliveryState::DeadLetter { reason: DeliveryReason::OperationEnded }),
        ("message.dead_lettered", "dead_lettered")
    );
    assert_eq!(validate_work_limit(1, 5), Ok(()));
    assert_eq!(validate_work_limit(0, 5), Err(StoreError::Invalid));
    assert_eq!(validate_work_limit(6, 5), Err(StoreError::Invalid));
    let live = operation(OperationState::Running);
    assert_eq!(due_operation(kept_message, SESSION, Some(live)), Ok(live));
    assert_eq!(
        due_operation(kept_message, SESSION, Some(operation(OperationState::Failed))),
        Err(StoreError::Corrupt)
    );
    assert_eq!(due_operation(kept_message, SESSION, None), Err(StoreError::Corrupt));
}

#[test]
fn launches_are_read_from_their_rows() {
    let columns = LaunchColumns {
        attempt_id: "00000000-0000-0000-0000-00000000003c",
        session_id: "00000000-0000-0000-0000-000000000001",
        ownership_epoch: Some(3),
        participant_id: "00000000-0000-0000-0000-00000000000b",
        driver_id: "00000000-0000-0000-0000-000000000032",
        driver_configuration_digest: digest(1),
        instance_id: None,
        state: "ready",
        revision: 1,
        credential_digest: digest(2),
        evidence: None,
        cleanup_reason: None,
        ids_accepted: true,
    };
    assert_eq!(decode_launch(columns), Ok(launch(LaunchState::Ready)));
    let named = LaunchColumns {
        ownership_epoch: None,
        instance_id: Some("00000000-0000-0000-0000-000000000046"),
        ..columns
    };
    assert_eq!(
        decode_launch(named),
        Ok(LaunchSnapshot {
            ownership_epoch: None,
            instance_id: Some(InstanceId(70)),
            ..launch(LaunchState::Ready)
        })
    );
    for broken in [
        LaunchColumns { attempt_id: "3c", ..columns },
        LaunchColumns { session_id: "", ..columns },
        LaunchColumns { ownership_epoch: Some(0), ..columns },
        LaunchColumns { participant_id: "11", ..columns },
        LaunchColumns { driver_id: "50", ..columns },
        LaunchColumns { instance_id: Some("70"), ..columns },
        LaunchColumns { state: "asleep", ..columns },
        LaunchColumns { revision: 0, ..columns },
        LaunchColumns { ids_accepted: false, ..columns },
    ] {
        assert_eq!(decode_launch(broken), Err(StoreError::Corrupt));
    }
}

#[test]
fn launches_are_prepared_attached_and_stopped() {
    let command = PrepareLaunch {
        session_id: SESSION,
        epoch: FencingEpoch(3),
        participant_id: CHILD,
        driver_id: DriverId(50),
        driver_configuration_digest: digest(1),
        attempt_id: LaunchAttemptId(60),
        credential_digest: digest(2),
    };
    let prepared = launch(LaunchState::Prepared);
    assert_eq!(prepare_launch(command, false, None), Ok(LaunchPlan::Create(prepared)));
    assert_eq!(
        prepare_launch(command, false, Some(prepared)),
        Ok(LaunchPlan::Unchanged(prepared))
    );
    assert_eq!(prepare_launch(command, true, None), Err(kept(StoreError::Invalid)));
    assert_eq!(validate_prepare_replay(true), Err(StoreError::Invalid));
    assert_eq!(validate_prepare_replay(false), Ok(()));
    let attach =
        LaunchChange::Attach { instance_id: InstanceId(70), evidence: evidence() };
    let attached = mutate_launch(SESSION, Revision(1), attach, Some(prepared), false).unwrap();
    assert_eq!(attached.state, LaunchState::Attached);
    assert_eq!(attached.revision, Revision(2));
    assert_eq!(
        mutate_launch(SESSION, Revision(1), attach, Some(prepared), true),
        Err(kept(StoreError::Invalid))
    );
    let blank = LaunchChange::Attach {
        instance_id: InstanceId(70),
        evidence: ProcessEvidence { process_id: 0, ..evidence() },
    };
    assert_eq!(
        mutate_launch(SESSION, Revision(1), blank, Some(prepared), false),
        Err(kept(StoreError::Invalid))
    );
    let clean = LaunchChange::Move {
        target: LaunchState::CleanupRequired,
        cleanup_reason: Some(digest(9)),
    };
    let dirty = mutate_launch(SESSION, Revision(2), clean, Some(attached), false).unwrap();
    assert_eq!(dirty.cleanup_reason, Some(digest(9)));
    let stop = LaunchChange::Move { target: LaunchState::Stopped, cleanup_reason: None };
    let stopped = mutate_launch(SESSION, Revision(3), stop, Some(dirty), false).unwrap();
    assert_eq!(stopped.state, LaunchState::Stopped);
    assert_eq!(
        mutate_launch(SESSION, Revision(4), clean, Some(stopped), false),
        Err(kept(StoreError::Invalid))
    );
    assert!(!valid_launch_transition(LaunchState::Prepared, LaunchState::Ready));
    assert!(valid_launch_transition(LaunchState::Prepared, LaunchState::CleanupRequired));
    assert_eq!(parse_launch_state(launch_state_name(LaunchState::Ready)), Ok(LaunchState::Ready));
    assert_eq!(parse_launch_state("asleep"), Err(StoreError::Corrupt));
    assert_eq!(existence(1), Ok(true));
    assert_eq!(existence(0), Ok(false));
    assert_eq!(existence(2), Err(StoreError::Corrupt));
}
